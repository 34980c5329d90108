//! What an application can ask of the system: permission, settings, what is on screen.

use super::apple::{authorization_request, AuthorizationRequest};
use super::center::Center;
use super::{Error, Result, SettingsScope};
use vstd::prelude::*;

verus! {

/// The systems that notifications differ by.
#[derive(Clone, Copy, Debug, PartialEq, Eq, Structural)]
pub enum Platform {
    Android,
    Apple,
    Windows,
    Linux,
    Unsupported,
}

impl Platform {
    /// The system shows scheduled notifications by itself, even once the application has exited.
    pub open spec fn schedules(self) -> bool {
        self == Platform::Apple || self == Platform::Windows
    }

    pub fn native_scheduling(self) -> (r: bool)
        ensures
            r == self.schedules(),
    {
        match self {
            Platform::Apple => true,
            Platform::Windows => true,
            _ => false,
        }
    }
}

/// How the user's permission is found out.
#[derive(Clone, Copy, Debug, PartialEq, Eq, Structural)]
pub enum PermissionStep {
    /// Nobody has to be asked.
    Granted,
    /// Report whether notifications are enabled now.
    ReportCurrent,
    /// Have the system ask the user.
    Prompt,
    /// Have the system authorize this, asking the user where it has to.
    Authorize(AuthorizationRequest),
}

pub open spec fn permission_step(
    platform: Platform,
    provides_settings: bool,
    uses_critical_alerts: bool,
    provisional: bool,
) -> Result<PermissionStep> {
    match platform {
        Platform::Android => if provisional {
            Ok(PermissionStep::ReportCurrent)
        } else {
            Ok(PermissionStep::Prompt)
        },
        Platform::Apple => Ok(
            PermissionStep::Authorize(
                super::apple::authorization_for(
                    provides_settings,
                    uses_critical_alerts,
                    provisional,
                ),
            ),
        ),
        Platform::Windows => Ok(PermissionStep::ReportCurrent),
        Platform::Linux => Ok(PermissionStep::Granted),
        Platform::Unsupported => Err(Error::Unsupported),
    }
}

fn ask(platform: Platform, center: &Center, provisional: bool) -> (r: Result<PermissionStep>)
    ensures
        r == permission_step(
            platform,
            center@.provides_settings,
            center@.critical_alerts,
            provisional,
        ),
{
    match platform {
        Platform::Android => if provisional {
            Ok(PermissionStep::ReportCurrent)
        } else {
            Ok(PermissionStep::Prompt)
        },
        Platform::Apple => Ok(
            PermissionStep::Authorize(
                authorization_request(
                    center.provides_notification_settings(),
                    center.uses_critical_alerts(),
                    provisional,
                ),
            ),
        ),
        Platform::Windows => Ok(PermissionStep::ReportCurrent),
        Platform::Linux => Ok(PermissionStep::Granted),
        Platform::Unsupported => Err(Error::Unsupported),
    }
}

/// Finds out whether notifications may be shown, asking the user where the system does.
pub fn request_permission(platform: Platform, center: &Center) -> (r: Result<PermissionStep>)
    ensures
        r == permission_step(platform, center@.provides_settings, center@.critical_alerts, false),
{
    ask(platform, center, false)
}

/// Finds out whether notifications may be shown, without ever asking the user.
pub fn request_provisional_permission(platform: Platform, center: &Center) -> (r: Result<
    PermissionStep,
>)
    ensures
        r == permission_step(platform, center@.provides_settings, center@.critical_alerts, true),
{
    ask(platform, center, true)
}

/// A provisional request never shows the user a prompt: neither of its own, nor through critical
/// alerts.
pub proof fn provisional_requests_never_prompt(
    platform: Platform,
    provides_settings: bool,
    uses_critical_alerts: bool,
)
    ensures
        match permission_step(platform, provides_settings, uses_critical_alerts, true) {
            Ok(PermissionStep::Prompt) => false,
            Ok(PermissionStep::Authorize(request)) => request.provisional
                && !request.critical_alerts,
            _ => true,
        },
{
}

/// How the ids of the notifications on screen are found out.
#[derive(Clone, Copy, Debug, PartialEq, Eq, Structural)]
pub enum ActiveQuery {
    /// The system lists all of the application's notifications.
    AskSystem,
    /// The system lists tags; those of this run are known.
    TranslateTags,
    /// What is on screen is known from what was shown and not closed since.
    Remembered,
}

pub fn active_notification_ids(platform: Platform) -> (r: Result<ActiveQuery>)
    ensures
        r == match platform {
            Platform::Android | Platform::Apple => Ok::<ActiveQuery, Error>(ActiveQuery::AskSystem),
            Platform::Windows => Ok(ActiveQuery::TranslateTags),
            Platform::Linux => Ok(ActiveQuery::Remembered),
            Platform::Unsupported => Err(Error::Unsupported),
        },
{
    match platform {
        Platform::Android => Ok(ActiveQuery::AskSystem),
        Platform::Apple => Ok(ActiveQuery::AskSystem),
        Platform::Windows => Ok(ActiveQuery::TranslateTags),
        Platform::Linux => Ok(ActiveQuery::Remembered),
        Platform::Unsupported => Err(Error::Unsupported),
    }
}

/// How the user's settings are found out.
#[derive(Clone, Copy, Debug, PartialEq, Eq, Structural)]
pub enum SettingsQuery {
    /// The system has settings for the scope.
    Scoped,
    /// The system has settings for the application as a whole.
    WholeApp,
    /// All that can be known is whether there is a notification service.
    ServiceReachable,
}

pub fn notification_settings(platform: Platform, scope: &SettingsScope) -> (r: Result<SettingsQuery>)
    ensures
        r == if !scope.is_valid() {
            Err::<SettingsQuery, Error>(Error::InvalidNotification)
        } else {
            match platform {
                Platform::Android => Ok(SettingsQuery::Scoped),
                Platform::Apple | Platform::Windows => Ok(SettingsQuery::WholeApp),
                Platform::Linux => Ok(SettingsQuery::ServiceReachable),
                Platform::Unsupported => Err(Error::Unsupported),
            }
        },
{
    match scope.validate() {
        Err(error) => {
            return Err(error);
        },
        Ok(_) => {},
    }
    match platform {
        Platform::Android => Ok(SettingsQuery::Scoped),
        Platform::Apple => Ok(SettingsQuery::WholeApp),
        Platform::Windows => Ok(SettingsQuery::WholeApp),
        Platform::Linux => Ok(SettingsQuery::ServiceReachable),
        Platform::Unsupported => Err(Error::Unsupported),
    }
}

/// Which settings the system opens.
#[derive(Clone, Copy, Debug, PartialEq, Eq, Structural)]
pub enum SettingsPage {
    Scoped,
    WholeApp,
}

pub fn open_notification_settings(platform: Platform, scope: &SettingsScope) -> (r: Result<
    SettingsPage,
>)
    ensures
        r == if !scope.is_valid() {
            Err::<SettingsPage, Error>(Error::InvalidNotification)
        } else {
            match platform {
                Platform::Android => Ok(SettingsPage::Scoped),
                Platform::Apple | Platform::Windows => Ok(SettingsPage::WholeApp),
                Platform::Linux | Platform::Unsupported => Err(Error::Unsupported),
            }
        },
{
    match scope.validate() {
        Err(error) => {
            return Err(error);
        },
        Ok(_) => {},
    }
    match platform {
        Platform::Android => Ok(SettingsPage::Scoped),
        Platform::Apple => Ok(SettingsPage::WholeApp),
        Platform::Windows => Ok(SettingsPage::WholeApp),
        Platform::Linux => Err(Error::Unsupported),
        Platform::Unsupported => Err(Error::Unsupported),
    }
}

} // verus!

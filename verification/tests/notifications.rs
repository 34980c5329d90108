use std::time::{SystemTime, UNIX_EPOCH};

use robius::notifications::center::{
    cancel, cancel_all, check_handler_unset, set_app_id, set_interaction_handler,
    set_provides_notification_settings, set_uses_critical_alerts, update_progress, Center,
    ShowStep, CONVERSATION_HISTORY_LIMIT,
};
use robius::notifications::options::{
    Action, Conversation, Notification, NotificationChannel, NotificationOptions,
};
use robius::notifications::requests::{
    active_notification_ids, notification_settings, open_notification_settings,
    request_permission, request_provisional_permission, ActiveQuery, PermissionStep, Platform,
    SettingsPage, SettingsQuery,
};
use robius::notifications::{
    Error, Interaction, InteractionKind, LockScreenVisibility, NotificationSettings, Progress,
    SettingsScope, Sound, Urgency,
};
use robius::path::FilePath;
use robius::time::{TimeSpan, Timestamp};

fn at(secs: i64) -> Timestamp {
    Timestamp { secs, nanos: 0 }
}

fn now() -> Timestamp {
    let since = SystemTime::now().duration_since(UNIX_EPOCH).unwrap();
    Timestamp { secs: since.as_secs() as i64, nanos: since.subsec_nanos() }
}

fn shown_now(step: Result<ShowStep, Error>, center: &mut Center) -> NotificationOptions {
    let Ok(ShowStep::Now(showing)) = step else {
        panic!("expected to show the notification now");
    };
    let options = showing.options.copy();
    assert_eq!(center.shown(showing, Ok(())), Ok(()));
    options
}

#[test]
fn empty_notification_is_invalid() {
    assert!(matches!(Notification::new().options.validate(), Err(Error::Empty)));
    assert!(matches!(
        Notification::new().set_title("  ").set_body("").options.validate(),
        Err(Error::Empty)
    ));
}

#[test]
fn title_or_body_alone_is_valid() {
    assert!(Notification::new().set_title("t").options.validate().is_ok());
    assert!(Notification::new().set_body("b").options.validate().is_ok());
}

#[test]
fn empty_and_duplicate_action_ids_are_invalid() {
    let invalid_notifications = [
        Notification::new().set_title("t").add_action(Action::button("", "OK")),
        Notification::new().set_title("t").add_action(Action::button("ok", " ")),
        Notification::new()
            .set_title("t")
            .add_action(Action::button("ok", "OK"))
            .add_action(Action::reply("ok", "Reply")),
        Notification::new().set_title("t").add_metadata("", "value"),
        Notification::new()
            .set_title("t")
            .set_channel(NotificationChannel::new("", "Messages")),
        Notification::new()
            .set_title("t")
            .set_channel(NotificationChannel::new("messages", "Messages").set_group("", "Work")),
        Notification::new().set_title("t").set_conversation(Conversation::new("", "Chat")),
        Notification::new()
            .set_title("t")
            .set_conversation(Conversation::new("chat-1", " ")),
    ];

    for notification in invalid_notifications {
        assert!(matches!(
            notification.options.validate(),
            Err(Error::InvalidNotification)
        ));
    }
}

#[test]
fn valid_builder_options_pass_validation() {
    let notification = Notification::new()
        .set_id("new-message")
        .set_title("New message")
        .set_body("Hello from Robius!")
        .set_subtitle("Robius")
        .set_channel(
            NotificationChannel::new("messages", "Messages")
                .set_description("New chat messages")
                .set_importance(Urgency::Critical)
                .set_group("work", "Work account"),
        )
        .set_conversation(Conversation::new("chat-42", "Team chat").set_group_conversation(true))
        .set_urgency(Urgency::Critical)
        .set_sound(Sound::Default)
        .set_badge_count(3)
        .set_group("conversation-42")
        .set_timeout(TimeSpan::from_secs(10))
        .add_metadata("conversation", "42")
        .add_action(Action::button("mark-read", "Mark as read").set_destructive(true))
        .add_action(Action::reply("reply", "Reply").set_placeholder("Type a reply…"));

    assert!(notification.options.validate().is_ok());
}

#[test]
fn settings_scopes_validate_their_ids() {
    assert!(SettingsScope::App.validate().is_ok());
    assert!(SettingsScope::Channel { channel_id: "messages".to_owned() }.validate().is_ok());
    assert!(SettingsScope::Conversation {
        channel_id: "messages".to_owned(),
        conversation_id: "chat-42".to_owned(),
    }
    .validate()
    .is_ok());

    let invalid_scopes = [
        SettingsScope::Channel { channel_id: " ".to_owned() },
        SettingsScope::Conversation {
            channel_id: "messages".to_owned(),
            conversation_id: "".to_owned(),
        },
        SettingsScope::Conversation {
            channel_id: "".to_owned(),
            conversation_id: "chat-42".to_owned(),
        },
    ];
    for scope in invalid_scopes {
        assert!(matches!(scope.validate(), Err(Error::InvalidNotification)));
    }
}

#[test]
fn zero_total_progress_is_invalid() {
    let mut center = Center::new();
    assert!(matches!(
        Notification::new()
            .set_title("t")
            .set_progress(Progress::Determinate { current: 0, total: 0 })
            .options
            .validate(),
        Err(Error::InvalidNotification)
    ));
    assert!(Notification::new()
        .set_title("t")
        .set_progress(Progress::Indeterminate)
        .options
        .validate()
        .is_ok());
    assert!(matches!(
        update_progress(&mut center, "dl", Progress::Determinate { current: 1, total: 0 }),
        Err(Error::InvalidNotification)
    ));
    // Never shown with progress in this run: nothing to update.
    assert!(matches!(
        update_progress(&mut center, "never-shown-progress-id", Progress::Indeterminate),
        Err(Error::InvalidNotification)
    ));
}

fn show_message(center: &mut Center, n: u32) -> NotificationOptions {
    // Preparing and committing is what a successful show does.
    let mut options = Notification::new()
        .set_title(&format!("sender {n}"))
        .set_body(&format!("message {n}"))
        .set_conversation(Conversation::new("history-test", "Chat"))
        .options;
    let pending = center.prepare_conversation_history(&mut options, &now());
    center.commit_conversation_message(pending);
    options
}

#[test]
fn conversation_history_accumulates_and_trims() {
    let mut center = Center::new();
    let first = show_message(&mut center, 0);
    assert_eq!(first.conversation_messages.len(), 1);
    assert_eq!(first.conversation_messages[0].sender, "sender 0");
    assert_eq!(first.conversation_messages[0].text, "message 0");

    let last = (1..=20).map(|n| show_message(&mut center, n)).last().unwrap();
    assert_eq!(last.conversation_messages.len(), CONVERSATION_HISTORY_LIMIT);
    // Oldest entries got trimmed; the newest is last.
    assert_eq!(last.conversation_messages.last().unwrap().text, "message 20");
    assert_eq!(
        last.conversation_messages.first().unwrap().text,
        format!("message {}", 21 - CONVERSATION_HISTORY_LIMIT),
    );

    // A body-less notification adds nothing to the history.
    let mut silent = Notification::new()
        .set_title("sender")
        .set_conversation(Conversation::new("history-test", "Chat"))
        .options;
    assert!(center.prepare_conversation_history(&mut silent, &now()).is_none());
    assert!(silent.conversation_messages.is_empty());

    // An uncommitted prepare (a failed or cancelled show) must not leak into the history that
    // later notifications render.
    let mut failed = Notification::new()
        .set_title("sender")
        .set_body("never shown")
        .set_conversation(Conversation::new("history-test", "Chat"))
        .options;
    let _uncommitted = center.prepare_conversation_history(&mut failed, &now());
    let after = show_message(&mut center, 99);
    assert!(!after
        .conversation_messages
        .iter()
        .any(|message| message.text == "never shown"));
}

#[test]
fn cancel_kills_a_pending_fallback_scheduled_showing() {
    let mut center = Center::new();
    let options = Notification::new()
        .set_id("scheduled-test")
        .set_title("t")
        .set_scheduled_time(at(now().secs + 600))
        .options;
    let step = center.schedule_fallback(options, 600_000_000_000);
    assert!(center.is_scheduled("scheduled-test"));

    let _ = cancel(&mut center, "scheduled-test");
    assert!(!center.is_scheduled("scheduled-test"));

    // The timer fires for nothing.
    let ShowStep::ByTimer { options, generation, delay_nanos } = step else {
        panic!("expected a timer");
    };
    assert_eq!(delay_nanos, 600_000_000_000);
    assert!(center.timer_fired(options, generation, &now()).is_none());
}

#[test]
fn generated_ids_are_unique() {
    let mut center = Center::new();
    assert_ne!(center.generated_id(7), center.generated_id(7));
}

#[test]
fn interactions_are_queued_until_a_handler_is_set() {
    let mut center = Center::new();
    let interaction = Interaction {
        notification_id: "queued".to_owned(),
        kind: InteractionKind::Action { id: "ok".to_owned() },
        metadata: vec![("k".to_owned(), "v".to_owned())],
    };
    assert!(center.deliver_interaction(interaction.clone()).is_none());

    let Some(pending) = center.pending_interactions() else {
        panic!("expected interactions to be queued while no handler is set");
    };
    assert_eq!(pending.last(), Some(&interaction));

    // Setting the handler hands them over; later ones go straight to it.
    assert_eq!(check_handler_unset(&center), Ok(()));
    assert_eq!(set_interaction_handler(&mut center, Ok(())), Ok(vec![interaction.clone()]));
    assert_eq!(center.deliver_interaction(interaction.clone()), Some(interaction));
    assert_eq!(check_handler_unset(&center), Err(Error::HandlerAlreadySet));
    assert_eq!(
        set_interaction_handler(&mut center, Ok(())),
        Err(Error::HandlerAlreadySet)
    );
}

#[test]
fn a_handler_that_cannot_listen_is_not_set() {
    let mut center = Center::new();
    assert_eq!(
        set_interaction_handler(&mut center, Err(Error::NoService)),
        Err(Error::NoService)
    );
    assert_eq!(check_handler_unset(&center), Ok(()));
}

#[test]
fn the_latest_of_two_scheduled_showings_wins() {
    let mut center = Center::new();
    let notification = |title: &str| {
        Notification::new().set_id("n").set_title(title).set_scheduled_time(at(1000))
    };
    let first = notification("first").show(&mut center, false, 1, &at(0)).unwrap();
    let second = notification("second").show(&mut center, false, 1, &at(0)).unwrap();
    let ShowStep::ByTimer { options: early, generation: old, .. } = first else {
        panic!("expected a timer");
    };
    let ShowStep::ByTimer { options: late, generation: new, delay_nanos } = second else {
        panic!("expected a timer");
    };
    assert_eq!(delay_nanos, 1_000_000_000_000);
    assert!(center.timer_fired(early, old, &at(1000)).is_none());
    let showing = center.timer_fired(late, new, &at(1000)).unwrap();
    assert_eq!(showing.options.title.as_deref(), Some("second"));
    assert!(!center.is_scheduled("n"));
}

#[test]
fn showing_now_replaces_a_scheduled_showing() {
    let mut center = Center::new();
    let later = Notification::new().set_id("n").set_title("t").set_scheduled_time(at(1000));
    later.show(&mut center, false, 1, &at(0)).unwrap();
    assert!(center.is_scheduled("n"));
    let step = Notification::new().set_id("n").set_title("t").show(&mut center, false, 1, &at(0));
    shown_now(step, &mut center);
    assert!(!center.is_scheduled("n"));
}

#[test]
fn systems_that_schedule_are_left_to_it() {
    let mut center = Center::new();
    let later = Notification::new().set_title("t").set_scheduled_time(at(1000));
    let step = later.show(&mut center, true, 1, &at(0)).unwrap();
    let ShowStep::BySystem(options) = step else {
        panic!("expected the system to schedule it");
    };
    assert!(!options.id.is_empty());
    // A time that has passed is no schedule.
    let past = Notification::new().set_title("t").set_scheduled_time(at(10));
    shown_now(past.show(&mut center, true, 1, &at(20)), &mut center);
}

#[test]
fn notifications_without_an_id_get_one() {
    let mut center = Center::new();
    let step = Notification::new().set_title("t").show(&mut center, false, 42, &at(0));
    let first = shown_now(step, &mut center);
    let step = Notification::new().set_title("t").show(&mut center, false, 42, &at(0));
    let second = shown_now(step, &mut center);
    assert!(first.id.contains("42"));
    assert_ne!(first.id, second.id);
    assert_eq!(
        Notification::new().show(&mut center, false, 42, &at(0)).err(),
        Some(Error::Empty)
    );
}

#[test]
fn progress_can_be_updated_until_it_is_cancelled() {
    let mut center = Center::new();
    let step = Notification::new()
        .set_id("dl")
        .set_title("Download")
        .set_progress(Progress::Determinate { current: 1, total: 10 })
        .show(&mut center, false, 1, &at(0));
    shown_now(step, &mut center);
    let moved =
        update_progress(&mut center, "dl", Progress::Determinate { current: 5, total: 10 })
            .unwrap();
    assert_eq!(moved.progress, Some(Progress::Determinate { current: 5, total: 10 }));
    assert_eq!(moved.title.as_deref(), Some("Download"));
    assert_eq!(cancel(&mut center, "dl"), Ok(()));
    assert_eq!(
        update_progress(&mut center, "dl", Progress::Indeterminate).err(),
        Some(Error::InvalidNotification)
    );
    assert_eq!(cancel(&mut center, ""), Err(Error::InvalidNotification));
}

#[test]
fn a_showing_that_failed_leaves_no_trace() {
    let mut center = Center::new();
    let step = Notification::new()
        .set_id("dl")
        .set_title("a")
        .set_body("lost")
        .set_progress(Progress::Indeterminate)
        .set_conversation(Conversation::new("c", "Chat"))
        .show(&mut center, false, 1, &at(0))
        .unwrap();
    let ShowStep::Now(showing) = step else {
        panic!("expected to show the notification now");
    };
    assert_eq!(center.shown(showing, Err(Error::Io)), Err(Error::Io));
    assert!(update_progress(&mut center, "dl", Progress::Indeterminate).is_err());
    let step = Notification::new()
        .set_id("next")
        .set_title("a")
        .set_body("kept")
        .set_conversation(Conversation::new("c", "Chat"))
        .show(&mut center, false, 1, &at(0));
    let options = shown_now(step, &mut center);
    assert_eq!(options.conversation_messages.len(), 1);
    assert_eq!(options.conversation_messages[0].text, "kept");
}

#[test]
fn cancelling_all_forgets_timers_and_progress() {
    let mut center = Center::new();
    let later = Notification::new().set_id("n").set_title("t").set_scheduled_time(at(1000));
    later.show(&mut center, false, 1, &at(0)).unwrap();
    let step = Notification::new()
        .set_id("dl")
        .set_title("t")
        .set_progress(Progress::Indeterminate)
        .show(&mut center, false, 1, &at(0));
    shown_now(step, &mut center);
    cancel_all(&mut center);
    assert!(!center.is_scheduled("n"));
    assert!(update_progress(&mut center, "dl", Progress::Indeterminate).is_err());
}

#[test]
fn settings_of_the_application_are_kept() {
    let mut center = Center::new();
    assert_eq!(center.app_id(), None);
    set_app_id(&mut center, "org.example.App");
    assert_eq!(center.app_id().as_deref(), Some("org.example.App"));
    assert!(!center.provides_notification_settings());
    set_provides_notification_settings(&mut center, true);
    assert!(center.provides_notification_settings());
    assert!(!center.uses_critical_alerts());
    set_uses_critical_alerts(&mut center, true);
    assert!(center.uses_critical_alerts());
}

#[test]
fn builders_set_what_they_name() {
    let options = Notification::new()
        .set_title("t")
        .set_image(&FilePath::from_text("/i.png"))
        .set_timestamp(at(5))
        .set_persistent(true)
        .set_lock_screen_visibility(LockScreenVisibility::Secret)
        .set_bypass_do_not_disturb(true)
        .set_sound(Sound::Named("ping".to_owned()))
        .add_action(Action::button("b", "B").set_foreground(true))
        .options;
    assert_eq!(options.image, Some(FilePath::from_text("/i.png")));
    assert_eq!(options.timestamp, Some(at(5)));
    assert!(options.persistent);
    assert_eq!(options.lock_screen_visibility, Some(LockScreenVisibility::Secret));
    assert!(options.bypass_dnd);
    assert!(options.actions[0].foreground);
    let conversation = Conversation::new("c", "n").set_icon(&FilePath::from_text("/c.png"));
    assert_eq!(conversation.icon, Some(FilePath::from_text("/c.png")));
    assert_eq!(NotificationChannel::new("c", "n").importance, Urgency::Normal);
    assert_eq!(Urgency::default(), Urgency::Normal);
    assert_eq!(Sound::default(), Sound::Default);
    assert_eq!(
        NotificationSettings::knowing_enabled(true),
        NotificationSettings {
            enabled: true,
            urgency: None,
            sound_enabled: None,
            badge_enabled: None,
            customized_by_user: None,
            priority_conversation: None,
        }
    );
}

#[test]
fn every_error_has_a_message() {
    let errors = [
        Error::AndroidEnvironment,
        Error::Java,
        Error::Windows,
        Error::DBus,
        Error::Io,
        Error::Empty,
        Error::InvalidNotification,
        Error::PermissionDenied,
        Error::NoAppBundle,
        Error::HandlerAlreadySet,
        Error::NoService,
        Error::Unsupported,
        Error::Unknown,
    ];
    for error in errors {
        assert!(!error.message().is_empty());
    }
}

#[test]
fn requests_go_where_the_platform_sends_them() {
    let center = Center::new();
    assert!(Platform::Apple.native_scheduling());
    assert!(Platform::Windows.native_scheduling());
    assert!(!Platform::Linux.native_scheduling());
    assert!(!Platform::Android.native_scheduling());
    assert_eq!(request_permission(Platform::Linux, &center), Ok(PermissionStep::Granted));
    assert_eq!(request_permission(Platform::Android, &center), Ok(PermissionStep::Prompt));
    assert_eq!(
        request_permission(Platform::Unsupported, &center),
        Err(Error::Unsupported)
    );
    let Ok(PermissionStep::Authorize(request)) =
        request_provisional_permission(Platform::Apple, &center)
    else {
        panic!("expected a request for authorization");
    };
    assert!(request.provisional);
    assert!(!request.critical_alerts);
    assert_eq!(active_notification_ids(Platform::Linux), Ok(ActiveQuery::Remembered));
    assert_eq!(active_notification_ids(Platform::Windows), Ok(ActiveQuery::TranslateTags));
    assert_eq!(active_notification_ids(Platform::Unsupported), Err(Error::Unsupported));
    let channel = SettingsScope::Channel { channel_id: "c".to_owned() };
    assert_eq!(notification_settings(Platform::Android, &channel), Ok(SettingsQuery::Scoped));
    assert_eq!(
        notification_settings(Platform::Linux, &SettingsScope::App),
        Ok(SettingsQuery::ServiceReachable)
    );
    let blank = SettingsScope::Channel { channel_id: " ".to_owned() };
    assert_eq!(
        notification_settings(Platform::Android, &blank),
        Err(Error::InvalidNotification)
    );
    assert_eq!(
        open_notification_settings(Platform::Android, &channel),
        Ok(SettingsPage::Scoped)
    );
    assert_eq!(
        open_notification_settings(Platform::Linux, &SettingsScope::App),
        Err(Error::Unsupported)
    );
}

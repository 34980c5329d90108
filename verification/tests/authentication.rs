use robius::authentication::android;
use robius::authentication::apple;
use robius::authentication::linux;
use robius::authentication::linux::Authorization;
use robius::authentication::prompt::{AndroidText, WindowsText};
use robius::authentication::windows;
use robius::authentication::{BiometricStrength, Error};
use robius::bus::BusError;

#[test]
fn long_texts_are_cut_where_they_must_be() {
    let title = "t".repeat(200);
    let description = "d".repeat(2000);
    assert!(WindowsText::new(&title, "d", true).is_none());
    assert!(WindowsText::new("t", &description, true).is_none());
    let text = WindowsText::new("t", "d", true).unwrap();
    assert_eq!(text.title(), "t");
    assert_eq!(text.description(), "d");
    let text = WindowsText::new_truncated(&title, &description, true);
    assert!(text.title().len() < 200);
    assert!(text.description().len() < 2000);
    assert!(title.starts_with(text.title()));
    assert!(!text.title().is_empty());
}

#[test]
fn polkit_policies_name_their_actions() {
    assert!(linux::PolicyBuilder::new().build().is_none());
    assert!(linux::PolicyBuilder::new().action_ids(vec![]).build().is_none());
    let mut policy = linux::PolicyBuilder::new()
        .biometrics(Some(BiometricStrength::Strong))
        .password(true)
        .companion(true)
        .wrist_detection(true)
        .action_ids(vec!["org.a".to_string(), "org.b".to_string()])
        .build()
        .unwrap();
    assert_eq!(policy.action_id(), "org.a");
    assert!(policy.allows("org.b"));
    assert_eq!(policy.set_action_id("org.b"), Ok(()));
    assert_eq!(policy.action_id(), "org.b");
    assert_eq!(policy.set_action_id("org.c"), Err(Error::InvalidActionId));
    assert_eq!(policy.action_id(), "org.b");
}

#[test]
fn polkit_answers_are_read() {
    let answer = |is_authorized: bool, dismissed: Option<&str>| Authorization {
        is_authorized,
        dismissed: dismissed.map(|text| text.to_string()),
    };
    assert_eq!(linux::decide(&answer(true, None)), Ok(()));
    assert_eq!(linux::decide(&answer(false, None)), Err(Error::Authentication));
    assert_eq!(linux::decide(&answer(false, Some("true"))), Err(Error::UserCanceled));
    assert_eq!(linux::conclude(Err(BusError::Other)), Err(Error::Authentication));
    let cancelled = BusError::Method("org.freedesktop.PolicyKit1.Error.Cancelled".to_string());
    assert_eq!(linux::conclude(Err(cancelled)), Err(Error::UserCanceled));
    let timed_out = zbus::Error::FDO(Box::new(zbus::fdo::Error::TimedOut("late".into())));
    assert_eq!(linux::conclude_call(Err(timed_out)), Err(Error::Unavailable));
    assert_eq!(linux::conclude_call(Ok(answer(true, None))), Ok(()));
}

#[test]
fn apple_policies_combine_methods() {
    let build = |biometrics: bool, password: bool, companion: bool, wrist: bool, system| {
        apple::PolicyBuilder::new()
            .biometrics(if biometrics { Some(BiometricStrength::Strong) } else { None })
            .password(password)
            .companion(companion)
            .wrist_detection(wrist)
            .build(system)
    };
    assert_eq!(
        build(true, true, true, false, apple::AppleSystem::Other),
        Some(apple::Policy::DeviceOwner)
    );
    assert_eq!(
        build(true, false, false, false, apple::AppleSystem::Ios),
        Some(apple::Policy::Biometrics)
    );
    assert_eq!(build(false, false, false, false, apple::AppleSystem::Ios), None);
    assert_eq!(apple::check_reason("because"), Ok(()));
    assert!(apple::check_reason("").is_err());
    assert_eq!(apple::reply(true, None), Ok(()));
    assert_eq!(
        apple::reply(false, Some(apple::LaError::UserCancel)),
        Err(Error::UserCanceled)
    );
    assert_eq!(apple::reply(false, None), Err(Error::Unknown));
    assert_eq!(apple::map_la_error(apple::LaError::Other), Error::Unknown);
}

#[test]
fn android_prompts_depend_on_the_system() {
    let policy = android::PolicyBuilder::new()
        .biometrics(Some(BiometricStrength::Strong))
        .password(true)
        .build()
        .unwrap();
    let text = || AndroidText { title: "t", subtitle: None, description: None };
    let prompt = android::prompt(&policy, text(), 30).unwrap();
    assert_eq!(prompt.allowed_authenticators, Some(android::STRONG | android::CREDENTIAL));
    let prompt = android::prompt(&policy, text(), 29).unwrap();
    assert_eq!(prompt.allowed_authenticators, None);
    assert!(prompt.allow_device_credential);
    let weak = android::PolicyBuilder::new()
        .biometrics(Some(BiometricStrength::Weak))
        .password(false)
        .build()
        .unwrap();
    let prompt = android::prompt(&weak, text(), 30).unwrap();
    assert_eq!(prompt.allowed_authenticators, Some(android::WEAK));
    assert!(prompt.negative_button);
}

#[test]
fn windows_verifications_are_read() {
    assert_eq!(windows::convert(windows::Verification::Verified), Ok(()));
    assert_eq!(
        windows::convert(windows::Verification::RetriesExhausted),
        Err(Error::Exhausted)
    );
    assert_eq!(
        windows::convert(windows::Verification::Canceled),
        Err(Error::UserCanceled)
    );
    assert_eq!(windows::ask_step(Some(true)), windows::AskStep::Verify);
    assert_eq!(windows::ask_step(Some(false)), windows::AskStep::Fallback);
    assert_eq!(windows::availability_step(Ok(Some(true))), Ok(windows::AskStep::Verify));
    assert_eq!(windows::availability_step(Ok(None)), Ok(windows::AskStep::Fallback));
    assert_eq!(windows::availability_step(Err(())), Err(Error::Unknown));
    assert_eq!(windows::conclude(Ok(windows::Verification::Verified)), Ok(()));
    assert_eq!(
        windows::conclude(Ok(windows::Verification::Canceled)),
        Err(Error::UserCanceled)
    );
    assert_eq!(windows::conclude(Err(())), Err(Error::Unknown));
    assert!(windows::PolicyBuilder::new()
        .biometrics(Some(BiometricStrength::Strong))
        .password(true)
        .build()
        .is_some());
    assert_eq!(windows::focus_step(1, false), windows::FocusStep::LookAgain);
    assert_eq!(windows::focus_step(3, true), windows::FocusStep::Focus);
    assert_eq!(windows::focus_step(4, true), windows::FocusStep::GiveUp);
    assert!(windows::holds_alt(0));
    assert!(!windows::holds_alt(-1));
    assert!(!Error::Authentication.message().is_empty());
}

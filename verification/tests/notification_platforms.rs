use robius::bus::BusError;
use robius::notifications::android;
use robius::notifications::apple;
use robius::notifications::linux;
use robius::notifications::linux::{Capabilities, Daemon, HintValue, Signal};
use robius::notifications::options::{Action, Conversation, Notification, NotificationOptions};
use robius::notifications::windows;
use robius::notifications::windows::{
    AfterUpdate, ToastStep, Toasts, UpdateResult, UpdateStep, WaitingToast,
};
use robius::notifications::{
    Error, InteractionKind, Progress, SettingsScope, Sound, Urgency,
};
use robius::path::FilePath;
use robius::time::{TimeSpan, Timestamp};

fn all_capabilities() -> Capabilities {
    Capabilities { actions: true, body_markup: true, inline_reply: true }
}

fn message() -> NotificationOptions {
    Notification::new()
        .set_id("n1")
        .set_title("a <b>")
        .set_body("1 & 2")
        .add_metadata("k", "v")
        .add_action(Action::button("ok", "OK"))
        .add_action(Action::reply("answer", "Answer").set_placeholder("Say something"))
        .options
}

#[test]
fn unpackaged_binary_has_no_app_bundle() {
    assert!(matches!(apple::ensure_app_bundle(false), Err(Error::NoAppBundle)));
    assert!(apple::ensure_app_bundle(true).is_ok());
}

#[test]
fn the_daemon_is_called_with_what_it_understands() {
    let daemon = Daemon::new();
    let options = message();
    let call = daemon.notify_call(
        &options,
        all_capabilities(),
        &Some("org.example.App".to_string()),
        &None,
        &Some(FilePath::from_text("/tmp/i.png")),
    );
    assert_eq!(call.app_name, "org.example.App");
    assert_eq!(call.replaces_id, 0);
    assert_eq!(call.summary, "a <b>");
    assert_eq!(call.body, "1 &amp; 2");
    assert_eq!(call.actions[0], "default");
    assert!(call.actions.contains(&"app.ok".to_string()));
    assert!(call.actions.contains(&"inline-reply".to_string()));
    assert_eq!(call.reply_action_id.as_deref(), Some("answer"));
    assert!(call
        .hints
        .iter()
        .any(|hint| matches!(&hint.value, HintValue::Text(text) if text == "Say something")));
    assert_eq!(call.expire_timeout, -1);

    let plain = Capabilities { actions: false, body_markup: false, inline_reply: false };
    let call = daemon.notify_call(
        &options,
        plain,
        &None,
        &Some(FilePath::from_text("/usr/bin/app")),
        &None,
    );
    assert_eq!(call.app_name, "app");
    assert_eq!(call.body, "1 & 2");
    assert!(call.actions.is_empty());
    assert_eq!(call.reply_action_id, None);
}

#[test]
fn signals_of_the_daemon_become_interactions() {
    let mut daemon = Daemon::new();
    let options = message();
    let call = daemon.notify_call(&options, all_capabilities(), &None, &None, &None);
    daemon.record(&options, &call, 9);
    assert_eq!(daemon.active_notification_ids(), vec!["n1".to_string()]);
    assert_eq!(daemon.to_cancel("n1"), Some(9));
    assert_eq!(daemon.all_to_cancel(), vec![9]);

    let again = daemon.notify_call(&options, all_capabilities(), &None, &None, &None);
    assert_eq!(again.replaces_id, 9);

    let pressed = daemon
        .handle_signal(Signal::ActionInvoked { server_id: 9, key: "app.ok".to_string() })
        .unwrap();
    assert_eq!(pressed.notification_id, "n1");
    assert_eq!(pressed.kind, InteractionKind::Action { id: "ok".to_string() });
    assert_eq!(pressed.metadata, vec![("k".to_string(), "v".to_string())]);

    let tapped = daemon
        .handle_signal(Signal::ActionInvoked { server_id: 9, key: "default".to_string() })
        .unwrap();
    assert_eq!(tapped.kind, InteractionKind::Activated);

    let replied = daemon
        .handle_signal(Signal::NotificationReplied { server_id: 9, text: "hi".to_string() })
        .unwrap();
    assert_eq!(
        replied.kind,
        InteractionKind::Reply { action_id: "answer".to_string(), text: "hi".to_string() }
    );

    let closed = daemon
        .handle_signal(Signal::NotificationClosed { server_id: 9, reason: 2 })
        .unwrap();
    assert_eq!(closed.kind, InteractionKind::Dismissed);
    assert!(daemon.active_notification_ids().is_empty());
    // A notification that is gone says nothing more.
    assert!(daemon
        .handle_signal(Signal::ActionInvoked { server_id: 9, key: "default".to_string() })
        .is_none());
}

#[test]
fn a_notification_that_ran_out_of_time_was_not_dismissed() {
    let mut daemon = Daemon::new();
    let options = message();
    let call = daemon.notify_call(&options, all_capabilities(), &None, &None, &None);
    daemon.record(&options, &call, 9);
    assert!(daemon
        .handle_signal(Signal::NotificationClosed { server_id: 9, reason: 1 })
        .is_none());
    assert!(daemon.active_notification_ids().is_empty());
}

#[test]
fn capabilities_are_asked_for_once() {
    let mut daemon = Daemon::new();
    assert!(daemon.known_capabilities().is_none());
    let learned = daemon.learn_capabilities(&Some(vec![
        "actions".to_string(),
        "body-markup".to_string(),
        "x".to_string(),
    ]));
    assert!(learned.actions && learned.body_markup && !learned.inline_reply);
    assert_eq!(daemon.known_capabilities(), Some(learned));
}

#[test]
fn a_restarted_daemon_knows_nothing_of_ours() {
    let mut daemon = Daemon::new();
    let options = message();
    let call = daemon.notify_call(&options, all_capabilities(), &None, &None, &None);
    daemon.record(&options, &call, 9);
    // The daemon's first start is no restart.
    daemon.owner_changed(Some(false));
    assert_eq!(daemon.to_cancel("n1"), Some(9));
    daemon.owner_changed(Some(true));
    assert_eq!(daemon.to_cancel("n1"), None);
    assert!(daemon.active_notification_ids().is_empty());
}

#[test]
fn progress_is_shown_as_a_percentage() {
    let daemon = Daemon::new();
    let percent = |progress: Progress| {
        let options = Notification::new().set_title("t").set_progress(progress).options;
        let call = daemon.notify_call(&options, all_capabilities(), &None, &None, &None);
        call.hints.into_iter().find_map(|hint| match hint.value {
            HintValue::Number(number) if hint.name == "value" => Some(number),
            _ => None,
        })
    };
    assert_eq!(percent(Progress::Determinate { current: 1, total: 3 }), Some(33));
    assert_eq!(percent(Progress::Determinate { current: 9, total: 3 }), Some(100));
    assert_eq!(percent(Progress::Determinate { current: u32::MAX, total: u32::MAX }), Some(100));
    assert_eq!(percent(Progress::Indeterminate), None);
}

#[test]
fn bus_errors_tell_whether_there_is_a_daemon() {
    let missing = BusError::Method("org.freedesktop.DBus.Error.ServiceUnknown".to_string());
    assert_eq!(linux::map_bus_error(&missing), Error::NoService);
    assert_eq!(linux::map_bus_error(&BusError::Other), Error::DBus);
    assert_eq!(linux::close_outcome(Err(missing)), Err(Error::NoService));
    assert_eq!(linux::close_outcome(Err(BusError::Method("x".to_string()))), Ok(()));
    assert_eq!(linux::close_outcome(Err(BusError::Other)), Err(Error::DBus));
    let fdo = zbus::Error::FDO(Box::new(zbus::fdo::Error::ServiceUnknown("gone".into())));
    assert_eq!(linux::map_zbus_error::<()>(Err(fdo)), Err(Error::NoService));
    assert_eq!(linux::map_zbus_error(Ok(5)), Ok(5));
    let other = zbus::Error::FDO(Box::new(zbus::fdo::Error::Failed("no".into())));
    assert_eq!(linux::map_zbus_error::<()>(Err(other)), Err(Error::DBus));
    assert_eq!(linux::escape_markup("<a> & b"), "&lt;a&gt; &amp; b");
    assert!(linux::notification_settings(Ok(())).unwrap().enabled);
    assert!(!linux::notification_settings(Err(Error::NoService)).unwrap().enabled);
    assert_eq!(linux::notification_settings(Err(Error::DBus)), Err(Error::DBus));
    assert_eq!(linux::app_name(&None, &None), "");
}

#[test]
fn toast_tags_are_hashes() {
    // FNV-1a of the empty text is its offset basis.
    assert_eq!(windows::tag(""), "cbf29ce484222325");
    assert_eq!(windows::tag("a"), "af63dc4c8601ec8c");
    assert_eq!(windows::tag("a long id of a notification").len(), 16);
}

#[test]
fn toast_arguments_come_back() {
    let metadata = vec![("k ö".to_string(), "a&b=c".to_string()), ("".to_string(), "".to_string())];
    let action = "ok".to_string();
    let written = windows::encode_arguments("n&1", Some(&action), &metadata);
    let read = windows::decode_arguments(&written);
    assert_eq!(read.notification_id, "n&1");
    assert_eq!(read.action_id.as_deref(), Some("ok"));
    assert_eq!(read.metadata, metadata);
    let plain = windows::decode_arguments(&windows::encode_arguments("n", None, &vec![]));
    assert_eq!(plain.action_id, None);
    let interaction = windows::activated(plain, None);
    assert_eq!(interaction.kind, InteractionKind::Activated);
    let read = windows::decode_arguments(&written);
    let interaction = windows::activated(read, Some("hello".to_string()));
    assert_eq!(
        interaction.kind,
        InteractionKind::Reply { action_id: "ok".to_string(), text: "hello".to_string() }
    );
}

#[test]
fn bytes_that_are_no_text_are_replaced() {
    let read = windows::decode_arguments("notification=%FFx");
    assert!(!read.notification_id.contains('%'));
}

#[test]
fn toasts_are_written_as_xml() {
    let options = message();
    let xml = windows::build_toast_xml(&options, false, &None, "0.5");
    assert!(xml.starts_with("<toast"));
    assert!(xml.ends_with("</toast>"));
    assert!(xml.contains("a &lt;b&gt;"));
    assert!(xml.contains("1 &amp; 2"));
    assert_eq!(windows::escape_xml("<\"'&>"), "&lt;&quot;&apos;&amp;&gt;");
    assert_eq!(windows::file_uri("C:\\a b.png"), "file:///C:/a%20b.png");
}

#[test]
fn progress_numbers_only_go_up() {
    let mut toasts = Toasts::new();
    let options = Notification::new()
        .set_id("dl")
        .set_title("t")
        .set_progress(Progress::Indeterminate)
        .options;
    assert!(matches!(
        toasts.show(&options, true),
        Ok(ToastStep::Show { quiet: false, .. })
    ));
    assert_eq!(toasts.show(&options, false).err(), Some(Error::PermissionDenied));
    assert!(matches!(toasts.update_progress(&options), Ok(UpdateStep::Drop)));
    assert_eq!(toasts.showing_number(&options), Some(1));
    let plain = Notification::new().set_id("plain").set_title("t").options;
    assert_eq!(toasts.showing_number(&plain), None);
    assert!(!toasts.is_exhausted(&windows::tag("dl")));
    // Shown again, it does not alert the user again.
    assert!(matches!(toasts.show(&options, true), Ok(ToastStep::Show { quiet: true, .. })));
    let Ok(UpdateStep::Send { tag, sequence: first }) = toasts.update_progress(&options) else {
        panic!("expected data to be sent");
    };
    assert_eq!(tag, windows::tag("dl"));
    let Ok(UpdateStep::Send { sequence: second, .. }) = toasts.update_progress(&options) else {
        panic!("expected data to be sent");
    };
    assert!(second > first);
    assert_eq!(
        toasts.active_ids(&vec![Some(tag.clone()), None, Some("other".to_string())]),
        vec!["dl".to_string()]
    );
    assert_eq!(toasts.cancel("dl"), tag);
    assert!(matches!(toasts.update_progress(&options), Ok(UpdateStep::Drop)));
    assert_eq!(windows::after_update(UpdateResult::Succeeded), Ok(AfterUpdate::Done));
    assert_eq!(windows::after_update(UpdateResult::NotFound), Ok(AfterUpdate::ShowQuietly));
    assert_eq!(windows::after_update(UpdateResult::Failed), Err(Error::Unknown));
}

#[test]
fn windows_counts_from_another_epoch() {
    assert_eq!(windows::datetime(&Timestamp { secs: 0, nanos: 0 }), windows::UNIX_EPOCH_TICKS);
    assert_eq!(
        windows::datetime(&Timestamp { secs: 1, nanos: 200 }),
        windows::UNIX_EPOCH_TICKS + 10_000_002
    );
    let later = windows::expiration(
        &Timestamp { secs: 1, nanos: 600_000_000 },
        &TimeSpan { secs: 1, nanos: 600_000_000 },
    );
    assert_eq!(later, Timestamp { secs: 3, nanos: 200_000_000 });
    assert_eq!(windows::ignore_not_found(Err(windows::NOT_FOUND)), Ok(()));
    assert_eq!(windows::ignore_not_found(Err(5)), Err(Error::Windows));
    assert!(windows::permission(Some(true)));
    assert!(!windows::permission(Some(false)));
    assert_eq!(
        windows::aumid(&Some("App".to_string()), &None),
        "App"
    );
    assert_eq!(windows::aumid(&None, &None), windows::POWERSHELL_AUMID);
    assert_eq!(windows::progress_value(Progress::Indeterminate, "0.5"), "indeterminate");
    assert_eq!(
        windows::progress_value(Progress::Determinate { current: 1, total: 2 }, "0.5"),
        "0.5"
    );
}

#[test]
fn android_codes_are_read() {
    assert_eq!(android::check_result(android::RESULT_OK), Ok(()));
    assert_eq!(
        android::check_result(android::RESULT_PERMISSION_DENIED),
        Err(Error::PermissionDenied)
    );
    assert_eq!(android::check_result(99), Err(Error::Unknown));
    assert_eq!(android::settings_bool(1), Some(true));
    assert_eq!(android::settings_bool(0), Some(false));
    assert_eq!(android::settings_bool(-1), None);
    assert_eq!(
        android::scope_ids(&SettingsScope::Channel { channel_id: "c".to_string() }),
        (Some("c".to_string()), None)
    );
    assert_eq!(
        android::active_ids(&Some(vec![Some("a".to_string()), None])),
        Ok(vec!["a".to_string()])
    );
    assert!(android::active_ids(&None).is_err());
}

#[test]
fn android_metadata_comes_back() {
    let options = message();
    let arguments = android::show_arguments(&options, false).unwrap();
    assert_eq!(arguments.id, "n1");
    assert_eq!(arguments.title.as_deref(), Some("a <b>"));
    let keys = Some(vec![Some("k".to_string())]);
    let values = Some(vec![Some("v".to_string())]);
    assert_eq!(
        android::read_metadata(&keys, &values),
        vec![("k".to_string(), "v".to_string())]
    );
    let interaction = android::interaction_from(
        Some("n1".to_string()),
        android::KIND_REPLY,
        Some("answer".to_string()),
        Some("hi".to_string()),
        &keys,
        &values,
    )
    .unwrap();
    assert_eq!(
        interaction.kind,
        InteractionKind::Reply { action_id: "answer".to_string(), text: "hi".to_string() }
    );
    assert!(android::interaction_from(None, android::KIND_ACTIVATED, None, None, &None, &None)
        .is_none());
    assert!(android::interaction_from(Some("n".to_string()), 77, None, None, &None, &None)
        .is_none());
}

#[test]
fn apple_metadata_comes_back() {
    let metadata = vec![
        ("k".to_string(), "v".to_string()),
        ("k".to_string(), "w".to_string()),
    ];
    let flat = apple::flat_metadata(&metadata);
    assert_eq!(flat, vec!["k", "v", "k", "w"]);
    assert_eq!(apple::metadata_from_content(&Some(flat)), metadata);
    assert_eq!(apple::metadata_from_content(&None), vec![]);
}

#[test]
fn apple_categories_are_kept() {
    let mut categories = apple::Categories::new();
    assert!(categories.needs_seeding());
    assert!(!categories.needs_seeding());
    categories.seed(&vec!["old".to_string()]);
    assert!(!categories.register("old"));
    let actions = message().actions;
    let first = categories.ensure_registered(&actions);
    assert!(first.new_base && first.new_category);
    let second = categories.ensure_registered(&actions);
    assert!(!second.new_base && !second.new_category);
    assert_eq!(first.category_id, second.category_id);
    assert_eq!(first.category_id, apple::category_id(&actions));
    assert_ne!(apple::category_id(&actions), apple::category_id(&vec![]));
}

#[test]
fn apple_content_follows_the_options() {
    let options = Notification::new()
        .set_title("t")
        .set_urgency(Urgency::Critical)
        .set_sound(Sound::Silent)
        .set_group("g")
        .options;
    let content = apple::build_content(&options);
    assert_eq!(content.title.as_deref(), Some("t"));
    assert_eq!(content.thread_id.as_deref(), Some("g"));
    assert!(content.sound.is_none());
    assert_eq!(content.metadata, None);
    assert_eq!(
        apple::interruption_level(Some(Urgency::Low), false),
        Some(apple::InterruptionLevel::Passive)
    );
    assert_eq!(
        apple::trigger_nanos(
            Some(Timestamp { secs: 12, nanos: 0 }),
            &Timestamp { secs: 10, nanos: 0 }
        ),
        Some(2_000_000_000)
    );
    assert_eq!(apple::trigger_nanos(None, &Timestamp { secs: 10, nanos: 0 }), None);
    let request = apple::authorization_request(true, true, false);
    assert!(request.alert && request.provides_settings && request.critical_alerts);
    assert_eq!(apple::permission_result(true, None), Ok(true));
    assert_eq!(
        apple::permission_result(false, Some(apple::AuthorizationFailure::NotAllowed)),
        Ok(false)
    );
    assert!(apple::permission_result(false, Some(apple::AuthorizationFailure::Other)).is_err());
    let interaction = apple::interaction_from(
        "n".to_string(),
        "default".to_string(),
        "default",
        "dismiss",
        None,
        &None,
    );
    assert_eq!(interaction.kind, InteractionKind::Activated);
    let settings = apple::open_settings_interaction(None, &None);
    assert_eq!(settings.kind, InteractionKind::OpenSettings);
}

#[test]
fn group_conversations_have_several_recipients() {
    let options = Notification::new()
        .set_title("Ann")
        .set_body("hi")
        .set_conversation(Conversation::new("c", "Team").set_group_conversation(true))
        .options;
    let communication = apple::communication(&options, true).unwrap();
    assert_eq!(communication.conversation_id, "c");
    assert_eq!(communication.sender_name, "Ann");
    assert_eq!(communication.group_name.as_deref(), Some("Team"));
    assert!(communication.recipients.len() > 1);
    assert!(apple::communication(&options, false).is_none());
    let plain = Notification::new().set_title("t").options;
    assert!(apple::communication(&plain, true).is_none());
}

#[test]
fn reported_settings_are_read() {
    let reported = android::ReportedSettings {
        enabled: 1,
        urgency: 2,
        sound: 0,
        badge: -1,
        customized: 1,
        priority: -1,
    };
    let settings = android::settings_from(Some(reported)).unwrap();
    assert!(settings.enabled);
    assert_eq!(settings.urgency, Some(Urgency::Critical));
    assert_eq!(settings.sound_enabled, Some(false));
    assert_eq!(settings.badge_enabled, None);
    assert_eq!(settings.customized_by_user, Some(true));
    assert_eq!(settings.priority_conversation, None);
    assert_eq!(android::settings_from(None), Err(Error::Unknown));

    let settings = apple::map_settings(
        apple::AuthorizationStatus::Provisional,
        apple::SettingState::Enabled,
        apple::SettingState::NotSupported,
    );
    assert!(settings.enabled);
    assert_eq!(settings.sound_enabled, Some(true));
    assert_eq!(settings.badge_enabled, None);
}

#[test]
fn apple_details() {
    assert_eq!(apple::settings_opened(apple::AppleSystem::Ios, true, false), Ok(()));
    assert_eq!(
        apple::settings_opened(apple::AppleSystem::MacOs, true, false),
        Err(Error::Unsupported)
    );
    assert_eq!(
        apple::attachment_copy_name(7, 2, &FilePath::from_text("/a/b.png")),
        "robius-notification-7-2.png"
    );
    assert_eq!(
        apple::attachment_copy_name(7, 2, &FilePath::from_text("/a/b")),
        "robius-notification-7-2"
    );
    let button = apple::build_action(&Action::button("b", "B").set_destructive(true));
    assert!(button.destructive && !button.foreground);
    assert_eq!(button.placeholder, None);
    let reply = apple::build_action(&Action::reply("r", "R"));
    assert_eq!(reply.placeholder.as_deref(), Some(""));
    assert!(apple::presentation_options(true).banner);
    assert!(apple::presentation_options(false).alert);
}

#[test]
fn scheduled_toasts_are_found_again() {
    let tag = Some(windows::tag("n"));
    let ours = Some("robius".to_string());
    let other = Some("other".to_string());
    assert!(windows::is_to_remove(&tag, &tag, &other));
    assert!(!windows::is_to_remove(&tag, &other, &ours));
    assert!(windows::is_to_remove(&None, &other, &ours));
    assert!(windows::is_to_remove(&None, &tag, &None));
    assert!(!windows::is_to_remove(&None, &tag, &other));
    // Showing or scheduling a notification replaces the earlier one that still waits.
    let waiting = |tag: &Option<String>, group: &Option<String>| WaitingToast {
        tag: tag.clone(),
        group: group.clone(),
    };
    let list = vec![
        waiting(&tag, &ours),
        waiting(&other, &ours),
        waiting(&None, &None),
        waiting(&tag, &other),
    ];
    let mut toasts = Toasts::new();
    let mut options = Notification::new().set_id("n").set_title("t").options;
    let now = toasts.show(&options, true).unwrap();
    assert_eq!(now.to_remove_first(&list), vec![0, 3]);
    assert_eq!(now.after_removal(Err(Error::Windows)), Ok(()));
    options.scheduled_time = Some(Timestamp { secs: 9, nanos: 0 });
    let later = toasts.show(&options, true).unwrap();
    assert_eq!(later.to_remove_first(&list), vec![0, 3]);
    assert_eq!(later.after_removal(Err(Error::Windows)), Err(Error::Windows));
    assert_eq!(windows::scheduled_to_remove(&None, &list), vec![0, 1, 2]);
    let quiet = Notification::new().set_title("t").set_urgency(Urgency::Low).options;
    assert!(windows::suppresses_popup(&quiet, false));
    let loud = Notification::new().set_title("t").options;
    assert!(!windows::suppresses_popup(&loud, false));
    assert!(windows::suppresses_popup(&loud, true));
}

#[test]
fn dismissals_are_reported_where_the_user_did_it() {
    let options = message();
    let interaction = windows::dismissed(&options, true).unwrap();
    assert_eq!(interaction.kind, InteractionKind::Dismissed);
    assert_eq!(interaction.notification_id, "n1");
    assert_eq!(interaction.metadata, vec![("k".to_string(), "v".to_string())]);
    assert!(windows::dismissed(&options, false).is_none());
}

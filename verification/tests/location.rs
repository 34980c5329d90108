use std::collections::hash_map::RandomState;
use std::hash::{BuildHasher, Hasher};
use std::sync::Arc;
use std::time::{SystemTime, UNIX_EPOCH};

use robius::location::android;
use robius::location::android::{
    choose_delivery, has_location_permission, last_known_providers, map_android_error,
    pick_last_known,
    requested_permissions, started_result, time_from_millis, Delivery, JavaFailure,
    PermissionState, PermissionStep,
};
use robius::location::apple::{AuthorizationStatus, DelegateState};
use robius::location::backend::{
    after_portal, choose_backend, construction_outcome, direct_fallback_allowed, worker_action,
    worker_wait, BackendKind, BackendStep, Readiness, WorkerAction, WorkerWait,
};
use robius::location::bus_errors::{
    classify_portal_capability_error, classify_session_connection_error, close_outcome,
    is_definitive_start_error, is_gone_error, map_method_error_name, map_zbus_error,
    PortalInitError,
};
use robius::location::callbacks::{
    CallbackEvent, CallbackPhase, CallbackQueue, CallbackSender, DispatchStep, InFlightCallback,
    CALLBACK_QUEUE_CAPACITY,
};
use robius::location::desktop_id::{
    automatic_desktop_id, desktop_id_for_path, desktop_id_from_executable, launched_here,
    sanitize_desktop_id_component, validate_desktop_id, xdg_application_dirs,
};
use robius::location::double;
use robius::location::fix::{parse_location, FixField, FixValue};
use robius::location::geoclue::{
    active_report, geoclue_accuracy, updated_location, ActiveReport, GeoOperation, GeoSignal,
    GeoState, GeoStep, GEOCLUE_ACCURACY_CITY, GEOCLUE_ACCURACY_EXACT,
};
use robius::location::one_shot::{one_shot_is_fresher, OneShot, ONE_SHOT_TIMEOUT};
use robius::location::portal::{
    check_version, portal_accuracy, portal_owner_lost, portal_session_is_active,
    start_response_error, PortalOperation, PortalSignal, PortalState, PortalStep, Session,
    SessionPhase, ACCURACY_CITY, ACCURACY_EXACT,
};
use robius::location::token::{fallback_bytes, make_token, predicted_request_path, token_prefix};
use robius::location::windows::{
    access_result, check_cached_fix, one_shot_error, status_error, system_time_from_winrt,
    AccessStatus, PositionStatus,
};
use robius::location::{
    cached_fix_is_recent, Access, Accuracy, Coordinates, Error, Freshness, Location, LocationData,
    MAX_CACHED_AGE,
};
use robius::bus::BusError;
use robius::path::FilePath;
use robius::time::Timestamp;
use zbus::message::Message;
use zbus::names::OwnedErrorName;

/// Ticks from 1601-01-01 to 1970-01-01.
const EPOCH: i64 = 11_644_473_600 * 10_000_000;

fn at(secs: i64) -> Timestamp {
    Timestamp { secs, nanos: 0 }
}

fn now() -> Timestamp {
    let since = SystemTime::now().duration_since(UNIX_EPOCH).unwrap();
    Timestamp { secs: since.as_secs() as i64, nanos: since.subsec_nanos() }
}

fn shifted(time: Timestamp, secs: i64) -> Timestamp {
    Timestamp { secs: time.secs + secs, nanos: time.nanos }
}

fn field(name: &str, value: f64) -> FixField {
    FixField { name: name.to_string(), value: FixValue::Double(value.to_bits()) }
}

fn valid_values() -> Vec<FixField> {
    vec![
        field("Latitude", 37.7749),
        field("Longitude", -122.4194),
        field("Altitude", 16.25),
        field("Speed", 2.5),
        field("Heading", 270.0),
        FixField {
            name: "Timestamp".to_string(),
            value: FixValue::Pair(1_700_000_000, 123_456),
        },
    ]
}

fn replaced(mut values: Vec<FixField>, name: &str, value: FixValue) -> Vec<FixField> {
    for field in values.iter_mut() {
        if field.name == name {
            field.value = value;
        }
    }
    values
}

fn test_location(latitude: f64) -> LocationData {
    LocationData {
        coordinates: Coordinates { latitude: latitude.to_bits(), longitude: 0.0_f64.to_bits() },
        altitude: None,
        bearing: None,
        speed: None,
        time: None,
        freshness: Freshness::Live,
    }
}

fn test_callback_sender() -> (CallbackSender, CallbackQueue) {
    let queue = CallbackQueue::new();
    (queue.sender(), queue)
}

fn is_location(event: &CallbackEvent) -> bool {
    matches!(event, CallbackEvent::Location { .. })
}

fn in_flight(one_shot: bool, phase: CallbackPhase) -> InFlightCallback {
    InFlightCallback { location: true, one_shot, generation: 0, phase, cancelled: false }
}

fn random_token_prefix() -> String {
    let mut bytes: Vec<u8> = Vec::new();
    for _ in 0..2 {
        let number = RandomState::new().build_hasher().finish();
        bytes.extend_from_slice(&number.to_be_bytes());
    }
    token_prefix(&bytes)
}

fn method_error(name: &str) -> zbus::Error {
    zbus::Error::MethodError(
        OwnedErrorName::try_from(name).unwrap(),
        None,
        Message::method_call("/", "Get").unwrap().build(&()).unwrap(),
    )
}

fn io_error(kind: std::io::ErrorKind, text: &str) -> zbus::Error {
    zbus::Error::InputOutput(Arc::new(std::io::Error::new(kind, text.to_string())))
}

#[test]
fn recent_cached_fixes_are_usable() {
    let age = MAX_CACHED_AGE as i64;
    assert!(cached_fix_is_recent(Some(now()), now()));
    assert!(cached_fix_is_recent(Some(shifted(now(), -30)), now()));
    assert!(cached_fix_is_recent(Some(shifted(now(), -age + 60)), now()));
}

#[test]
fn stale_undated_and_future_fixes_are_not() {
    let age = MAX_CACHED_AGE as i64;
    assert!(!cached_fix_is_recent(Some(shifted(now(), -age - 1)), now()));
    assert!(!cached_fix_is_recent(None, now()));
    assert!(!cached_fix_is_recent(Some(shifted(now(), 60)), now()));
}

#[test]
fn replaying_a_stored_fix_marks_it_cached() {
    let stored = test_location(1.0);
    assert_eq!(stored.as_cached().freshness, Freshness::Cached);
    assert_eq!(stored.freshness, Freshness::Live);
}

#[test]
fn parses_every_location_field() {
    let location = parse_location(&valid_values()).unwrap();
    assert_eq!(f64::from_bits(location.coordinates.latitude), 37.7749);
    assert_eq!(f64::from_bits(location.coordinates.longitude), -122.4194);
    assert_eq!(location.altitude.map(f64::from_bits), Some(16.25));
    assert_eq!(location.speed.map(f64::from_bits), Some(2.5));
    assert_eq!(location.bearing.map(f64::from_bits), Some(270.0));
    assert_eq!(
        location.time,
        Some(Timestamp { secs: 1_700_000_000, nanos: 123_456 * 1000 })
    );
}

#[test]
fn optional_fields_may_be_absent() {
    let values = vec![field("Latitude", 0.0), field("Longitude", 0.0)];
    let location = parse_location(&values).unwrap();
    assert_eq!(location.altitude, None);
    assert_eq!(location.speed, None);
    assert_eq!(location.bearing, None);
    assert_eq!(location.time, None);
}

#[test]
fn geoclue_unknown_sentinels_are_unavailable() {
    let values = replaced(valid_values(), "Altitude", FixValue::Double(f64::MIN.to_bits()));
    let values = replaced(values, "Speed", FixValue::Double((-1.0_f64).to_bits()));
    let values = replaced(values, "Heading", FixValue::Double((-1.0_f64).to_bits()));
    let location = parse_location(&values).unwrap();
    assert_eq!(location.altitude, None);
    assert_eq!(location.speed, None);
    assert_eq!(location.bearing, None);
}

#[test]
fn rejects_missing_or_invalid_coordinates() {
    let mut values = valid_values();
    values.remove(0);
    assert!(matches!(parse_location(&values), Err(Error::Unknown)));

    for (key, invalid) in [
        ("Latitude", 90.000_001),
        ("Latitude", f64::NAN),
        ("Longitude", -180.000_001),
        ("Longitude", f64::INFINITY),
    ] {
        let values = replaced(valid_values(), key, FixValue::Double(invalid.to_bits()));
        assert!(matches!(parse_location(&values), Err(Error::Unknown)));
    }
}

#[test]
fn rejects_malformed_optional_fields_and_timestamps() {
    for (key, invalid) in [
        ("Altitude", f64::NAN),
        ("Speed", -2.0),
        ("Speed", f64::INFINITY),
        ("Heading", 360.0),
        ("Heading", -2.0),
    ] {
        let values = replaced(valid_values(), key, FixValue::Double(invalid.to_bits()));
        assert!(matches!(parse_location(&values), Err(Error::Unknown)));
    }

    // A text such as "fast" is no double.
    let values = replaced(valid_values(), "Speed", FixValue::Other);
    assert!(matches!(parse_location(&values), Err(Error::Unknown)));

    let values = replaced(valid_values(), "Timestamp", FixValue::Pair(1, 1_000_000));
    assert!(matches!(parse_location(&values), Err(Error::Unknown)));
}

#[test]
fn the_edges_of_the_globe_are_accepted() {
    for (key, edge) in [
        ("Latitude", 90.0),
        ("Latitude", -90.0),
        ("Longitude", 180.0),
        ("Longitude", -180.0),
        ("Latitude", -0.0),
        ("Heading", 0.0),
        ("Heading", 359.999),
        ("Speed", 0.0),
    ] {
        let values = replaced(valid_values(), key, FixValue::Double(f64::to_bits(edge)));
        assert!(parse_location(&values).is_ok());
    }
    let values = replaced(valid_values(), "Timestamp", FixValue::Pair(u64::MAX, 0));
    assert!(matches!(parse_location(&values), Err(Error::Unknown)));
}

#[test]
fn maps_accuracy_to_portal_levels() {
    assert_eq!(portal_accuracy(Accuracy::Approximate), ACCURACY_CITY);
    assert_eq!(portal_accuracy(Accuracy::Precise), ACCURACY_EXACT);
}

#[test]
fn maps_portal_response_codes() {
    assert!(start_response_error(0).is_none());
    assert!(matches!(start_response_error(1), Some(Error::AuthorizationDenied)));
    assert!(matches!(start_response_error(2), Some(Error::TemporarilyUnavailable)));
    assert!(matches!(start_response_error(3), Some(Error::Unknown)));
    assert!(matches!(start_response_error(u32::MAX), Some(Error::Unknown)));
}

#[test]
fn maps_transport_and_service_errors() {
    let unavailable = zbus::Error::FDO(Box::new(zbus::fdo::Error::ServiceUnknown(
        "not installed".into(),
    )));
    assert!(matches!(map_zbus_error(unavailable), Error::PermanentlyUnavailable));

    let denied = zbus::Error::FDO(Box::new(zbus::fdo::Error::AccessDenied("denied".into())));
    assert!(matches!(map_zbus_error(denied), Error::AuthorizationDenied));

    let network = zbus::Error::FDO(Box::new(zbus::fdo::Error::NoNetwork("offline".into())));
    assert!(matches!(map_zbus_error(network), Error::Network));

    let io = io_error(std::io::ErrorKind::ConnectionReset, "reset");
    assert!(matches!(map_zbus_error(io), Error::TemporarilyUnavailable));
}

#[test]
fn callback_queue_coalesces_locations_and_stays_bounded() {
    let (sender, mut queue) = test_callback_sender();
    for latitude in 0..100 {
        queue.location(sender, test_location(f64::from(latitude)), false, 0);
    }
    assert_eq!(queue.events.len(), 1);
    let Some(CallbackEvent::Location { location, .. }) = queue.events.front() else {
        panic!("expected a coalesced location");
    };
    assert_eq!(f64::from_bits(location.coordinates.latitude), 99.0);
    assert!(queue.events.len() <= CALLBACK_QUEUE_CAPACITY);
}

#[test]
fn older_continuous_fix_does_not_replace_a_protected_one_shot() {
    let (sender, mut queue) = test_callback_sender();
    let mut newer = test_location(1.0);
    newer.time = Some(at(200));
    let mut older = test_location(2.0);
    older.time = Some(at(100));
    queue.location(sender, newer, true, 0);
    queue.location(sender, older, false, 0);

    let Some(CallbackEvent::Location { location, one_shot, .. }) = queue.events.front() else {
        panic!("expected a protected location");
    };
    assert!(*one_shot);
    assert_eq!(f64::from_bits(location.coordinates.latitude), 1.0);
}

#[test]
fn only_starting_sessions_cancel_their_request_on_cleanup() {
    let handle = "/org/freedesktop/portal/desktop/session/test/one".to_string();
    let request = "/org/freedesktop/portal/desktop/request/test/one".to_string();
    let starting = Session {
        handle: handle.clone(),
        request: request.clone(),
        accuracy: Accuracy::Precise,
        phase: SessionPhase::Starting,
    }
    .into_cleanup();
    assert_eq!(starting.handle, handle);
    assert_eq!(starting.request, Some(request.clone()));

    let active = Session {
        handle,
        request,
        accuracy: Accuracy::Precise,
        phase: SessionPhase::Active,
    }
    .into_cleanup();
    assert!(active.request.is_none());
}

#[test]
fn advancing_callback_generation_cancels_and_rejects_stale_fixes() {
    let (sender, mut queue) = test_callback_sender();
    queue.location(sender, test_location(1.0), false, 0);
    queue.error(sender, Error::Network);
    queue.location(sender, test_location(2.0), true, 0);
    queue.in_flight = Some(in_flight(true, CallbackPhase::Pending));

    assert!(queue.advance_generation(sender, 1));
    assert!(queue.events.iter().all(|event| !is_location(event)));
    assert!(queue.in_flight.as_ref().unwrap().cancelled);
    assert_eq!(queue.accepted_generation, 1);

    queue.location(sender, test_location(3.0), true, 0);
    assert!(queue.events.iter().all(|event| !is_location(event)));
    queue.location(sender, test_location(4.0), true, 1);
    assert!(queue
        .events
        .iter()
        .any(|event| matches!(event, CallbackEvent::Location { generation: 1, .. })));
}

#[test]
fn stopping_continuous_callbacks_preserves_one_shot_results() {
    let (sender, mut queue) = test_callback_sender();
    queue.location(sender, test_location(1.0), false, 0);
    queue.error(sender, Error::Network);
    queue.location(sender, test_location(2.0), true, 0);
    queue.in_flight = Some(in_flight(false, CallbackPhase::Pending));

    queue.discard_continuous_locations(sender);
    assert!(queue.in_flight.as_ref().unwrap().cancelled);
    assert_eq!(queue.events.iter().filter(|event| is_location(event)).count(), 1);
    assert!(queue
        .events
        .iter()
        .any(|event| matches!(event, CallbackEvent::Location { one_shot: true, .. })));
}

#[test]
fn callback_shutdown_cancels_pending_but_not_invoking_work() {
    let (_sender, mut queue) = test_callback_sender();
    queue.events.push_back(CallbackEvent::Error(Error::Network));
    queue.in_flight = Some(in_flight(true, CallbackPhase::Pending));
    queue.shut_down();
    assert!(queue.events.is_empty());
    assert!(queue.in_flight.as_ref().unwrap().cancelled);

    let (_sender, mut queue) = test_callback_sender();
    queue.in_flight = Some(in_flight(true, CallbackPhase::Invoking));
    queue.shut_down();
    assert!(!queue.in_flight.as_ref().unwrap().cancelled);
}

#[test]
fn portal_locations_require_an_active_matching_session() {
    let handle = "/org/freedesktop/portal/desktop/session/test/one";
    let other = "/org/freedesktop/portal/desktop/session/test/two";
    let (sender, _queue) = test_callback_sender();
    let mut state = PortalState::new(sender, "robius_test".to_string());
    state.accuracy = Accuracy::Precise;
    state.authorization_pending = true;
    state.session = Some(Session {
        handle: handle.to_string(),
        request: "/org/freedesktop/portal/desktop/request/test/one".to_string(),
        accuracy: Accuracy::Precise,
        phase: SessionPhase::Starting,
    });
    assert!(!portal_session_is_active(&state, None));
    assert!(!portal_session_is_active(&state, Some(handle)));
    state.session.as_mut().unwrap().phase = SessionPhase::Active;
    assert!(portal_session_is_active(&state, None));
    assert!(portal_session_is_active(&state, Some(handle)));
    assert!(!portal_session_is_active(&state, Some(other)));
}

#[test]
fn direct_fallback_requires_definitive_portal_absence() {
    let refused = io_error(std::io::ErrorKind::ConnectionRefused, "no session bus");
    assert!(classify_session_connection_error(refused).fallback_allowed);

    let reset = io_error(std::io::ErrorKind::ConnectionReset, "portal crashed");
    assert!(!classify_session_connection_error(reset).fallback_allowed);

    let missing = zbus::Error::FDO(Box::new(zbus::fdo::Error::ServiceUnknown(
        "not installed".into(),
    )));
    assert!(classify_portal_capability_error(missing).fallback_allowed);

    let denied = zbus::Error::FDO(Box::new(zbus::fdo::Error::AccessDenied("denied".into())));
    assert!(!classify_portal_capability_error(denied).fallback_allowed);

    // A portal built without the Location backend reports `InvalidArgs`, so fall back.
    let no_location_backend =
        zbus::Error::FDO(Box::new(zbus::fdo::Error::InvalidArgs("no such iface".into())));
    assert!(classify_portal_capability_error(no_location_backend).fallback_allowed);
    let no_location_backend = method_error("org.freedesktop.DBus.Error.InvalidArgs");
    assert!(classify_portal_capability_error(no_location_backend).fallback_allowed);

    // Installed but not starting right now still counts as present, so don't downgrade.
    for transient in [
        "org.freedesktop.DBus.Error.Spawn.ExecFailed",
        "org.freedesktop.DBus.Error.Spawn.ChildExited",
        "org.freedesktop.DBus.Error.Spawn.ChildSignaled",
        "org.freedesktop.DBus.Error.Spawn.Failed",
        "org.freedesktop.DBus.Error.NameHasNoOwner",
    ] {
        let error = method_error(transient);
        assert!(
            !classify_portal_capability_error(error).fallback_allowed,
            "{transient} must not be treated as capability absence"
        );
    }

    // A missing `.service` file, by contrast, does prove the portal is not installed.
    let not_installed = method_error("org.freedesktop.DBus.Error.Spawn.ServiceNotFound");
    assert!(classify_portal_capability_error(not_installed).fallback_allowed);
}

#[test]
fn provider_restart_clears_active_work_and_cache_once() {
    let (sender, mut queue) = test_callback_sender();
    let mut state = PortalState::new(sender, "robius_test".to_string());
    state.accuracy = Accuracy::Precise;
    state.authorization_pending = true;
    state.continuous = true;
    state.one_shot = Some(OneShot::begin(0));
    state.last_location = Some(parse_location(&valid_values()).unwrap());

    state.provider_lost(&mut queue);
    assert!(!state.authorization_pending);
    assert!(!state.continuous);
    assert!(state.one_shot.is_none());
    assert!(state.last_location.is_none());
    let errors: Vec<&CallbackEvent> =
        queue.events.iter().filter(|event| !is_location(event)).collect();
    assert!(matches!(
        errors.as_slice(),
        [CallbackEvent::Error(Error::TemporarilyUnavailable)]
    ));

    // Both portal-owner and message streams can notice one disconnect; only the first reports.
    assert!(matches!(queue.take_next(), DispatchStep::Consider(CallbackEvent::Error(_))));
    assert!(queue.begin_invocation());
    queue.finish_invocation();
    state.provider_lost(&mut queue);
    assert_eq!(queue.events.len(), 0);
}

#[test]
fn terminal_invalidation_replaces_a_queued_one_shot_with_an_error() {
    let (sender, mut queue) = test_callback_sender();
    queue.location(sender, test_location(1.0), true, 0);
    let mut state = PortalState::new(sender, "robius_test".to_string());
    state.accuracy = Accuracy::Precise;
    state.last_location = Some(test_location(1.0));

    state.provider_lost(&mut queue);
    assert!(queue.events.iter().all(|event| !is_location(event)));
    assert!(queue
        .events
        .iter()
        .any(|event| matches!(event, CallbackEvent::Error(Error::TemporarilyUnavailable))));
}

#[test]
fn cached_one_shot_only_redelivers_a_newer_timestamp() {
    let previous = at(100);
    let one_shot = OneShot {
        deadline: ONE_SHOT_TIMEOUT,
        delivered_cached: true,
        newer_than: Some(previous),
    };
    assert!(!one_shot_is_fresher(&one_shot, Some(shifted(previous, -1))));
    assert!(!one_shot_is_fresher(&one_shot, Some(previous)));
    assert!(one_shot_is_fresher(
        &one_shot,
        Some(Timestamp { secs: 100, nanos: 1000 })
    ));
    // If a provider omits timestamps, it is safer to deliver the fix than silently discard it.
    assert!(one_shot_is_fresher(&one_shot, None));
    assert!(one_shot_is_fresher(
        &OneShot { deadline: ONE_SHOT_TIMEOUT, delivered_cached: false, newer_than: None },
        Some(previous)
    ));
}

#[test]
fn location_accessors_report_unavailable_optional_values() {
    let values = vec![field("Latitude", 12.5), field("Longitude", -45.25)];
    let data = parse_location(&values).unwrap();
    let location = Location { inner: &data };
    let coordinates = location.coordinates().unwrap();
    assert_eq!(f64::from_bits(coordinates.latitude), 12.5);
    assert_eq!(f64::from_bits(coordinates.longitude), -45.25);
    assert!(matches!(location.altitude(), Err(Error::TemporarilyUnavailable)));
    assert!(matches!(location.bearing(), Err(Error::TemporarilyUnavailable)));
    assert!(matches!(location.speed(), Err(Error::TemporarilyUnavailable)));
    assert!(matches!(location.time(), Err(Error::TemporarilyUnavailable)));
}

#[test]
fn location_accessors_report_what_there_is() {
    let data = parse_location(&valid_values()).unwrap();
    let location = Location { inner: &data };
    assert_eq!(location.altitude().map(f64::from_bits), Ok(16.25));
    assert_eq!(location.bearing().map(f64::from_bits), Ok(270.0));
    assert_eq!(location.speed().map(f64::from_bits), Ok(2.5));
    assert_eq!(location.time().unwrap().secs, 1_700_000_000);
    assert_eq!(location.freshness(), Freshness::Live);
    assert!(!location.is_cached());
    let replayed = data.as_cached();
    assert!(Location { inner: &replayed }.is_cached());
}

#[test]
fn generated_tokens_are_valid_object_path_elements_and_unique() {
    let first = random_token_prefix();
    let second = random_token_prefix();
    assert_ne!(first, second);
    for token in [first, second] {
        assert!(token.bytes().all(|byte| byte.is_ascii_alphanumeric() || byte == b'_'));
        assert!(zbus::zvariant::ObjectPath::try_from(format!("/{token}")).is_ok());
    }
}

#[test]
fn tokens_are_written_out() {
    let bytes: Vec<u8> = vec![0, 1, 0xab, 0xff];
    let prefix = token_prefix(&bytes);
    assert!(prefix.ends_with("0001abff"));
    let token = make_token(&prefix, "session", 7);
    assert!(token.starts_with(&prefix));
    assert!(token.ends_with('7'));
    assert_ne!(token, make_token(&prefix, "session", 8));
    assert_ne!(token, make_token(&prefix, "request", 7));
    assert_ne!(fallback_bytes(1, 2), fallback_bytes(2, 2));
    assert_ne!(fallback_bytes(1, 2), fallback_bytes(1, 3));
}

#[test]
fn request_paths_follow_the_connection_name() {
    assert_eq!(
        predicted_request_path(Some(":1.42"), "token"),
        Ok("/org/freedesktop/portal/desktop/request/1_42/token".to_string())
    );
    assert!(predicted_request_path(None, "token").is_err());
    // The path has to be one that the bus accepts.
    assert!(predicted_request_path(Some(":1.42"), "to-ken").is_err());
}

#[test]
fn validates_explicit_desktop_ids() {
    for valid in ["firefox", "org.example.Location_App", "vendor-app"] {
        assert_eq!(validate_desktop_id(valid).unwrap(), valid);
    }
    for invalid in [
        "",
        ".desktop",
        "org.example.App.desktop",
        "contains/slash",
        "contains space",
        "unicode-☃",
    ] {
        assert!(matches!(validate_desktop_id(invalid), Err(Error::Unknown)));
    }
    assert!(matches!(validate_desktop_id(&"a".repeat(256)), Err(Error::Unknown)));
    assert!(validate_desktop_id(&"a".repeat(255)).is_ok());
}

#[test]
fn sanitizes_executable_names_for_synthetic_ids() {
    assert_eq!(sanitize_desktop_id_component("my app/location"), "my_app_location");
    assert_eq!(sanitize_desktop_id_component("normal-app"), "normal-app");
    assert!(sanitize_desktop_id_component(&"a".repeat(300)).len() <= 200);
}

#[test]
fn derives_nested_xdg_desktop_file_ids() {
    let root = FilePath::from_text(&format!("/tmp/robius-location-{}", random_token_prefix()));
    let applications = root.join("applications");
    let nested = applications.join("vendor/org.example.App.desktop");

    assert_eq!(
        desktop_id_for_path(&nested, true, &vec![applications.clone()]).as_deref(),
        Some("vendor-org.example.App")
    );
    assert!(desktop_id_for_path(&nested, true, &vec![root.join("elsewhere")]).is_none());
    assert!(desktop_id_for_path(&nested, false, &vec![applications]).is_none());
}

#[test]
fn desktop_files_are_found_below_directories() {
    let id = |path: &str, directories: &[&str]| {
        let directories = directories.iter().map(|text| FilePath::from_text(text)).collect();
        desktop_id_for_path(&FilePath::from_text(path), true, &directories)
    };
    let found = |id: &str| Some(id.to_string());
    // Directories are compared by their components.
    assert_eq!(id("/usr//share/./apps/a.desktop", &["/usr/share/apps/"]), found("a"));
    assert_eq!(id("/apps/.//a.desktop", &["//apps/."]), found("a"));
    assert_eq!(id("/appsx/a.desktop", &["/apps"]), None);
    // What comes below them stays as it is spelled.
    assert_eq!(id("/apps/v//a.desktop", &["/apps"]), found("v--a"));
    assert_eq!(id("/apps/v/./a.desktop", &["/apps"]), found("v-.-a"));
    // A path may not leave the directory, and the next directory is tried.
    assert_eq!(id("/apps/../a.desktop", &["/apps"]), None);
    assert_eq!(id("/apps/v/../a.desktop", &["/apps", "/apps/v/.."]), found("a"));
    // So it is where the id is not valid.
    assert_eq!(id("/apps/v w/a.desktop", &["/apps", "/apps/v w"]), found("a"));
    assert_eq!(id("/apps/a.desktop", &["relative", "", "/apps"]), found("a"));
    assert_eq!(id("apps/a.desktop", &["apps"]), None);
    assert_eq!(id("/apps/a.txt", &["/apps"]), None);
    assert_eq!(id("/apps/.desktop", &["/apps"]), None);
    // A file that is itself listed makes no id, and ends the search.
    assert_eq!(id("/apps/a.desktop", &["/apps/a.desktop", "/apps"]), None);
    let raw = FilePath { bytes: b"/apps/\xff/a.desktop".to_vec() };
    let directories = vec![FilePath::from_text("/apps"), FilePath { bytes: b"/apps/\xff".to_vec() }];
    assert_eq!(desktop_id_for_path(&raw, true, &directories), None);
    assert_eq!(desktop_id_for_path(&raw, true, &directories[1..].to_vec()), found("a"));
}

#[test]
fn desktop_ids_have_fallbacks() {
    let id = desktop_id_from_executable(&FilePath::from_text("/usr/bin/my app"));
    assert_eq!(id.as_deref(), Some("robius.my_app"));
    assert_eq!(desktop_id_from_executable(&FilePath::from_text("/")), None);
    // A name that is no UTF-8 makes no id.
    let raw = FilePath { bytes: vec![b'/', b'a', 0xff, b'b'] };
    assert_eq!(desktop_id_from_executable(&raw), None);
    assert!(launched_here(Some("5"), 5));
    assert!(launched_here(Some("+005"), 5));
    assert!(launched_here(Some("4294967295"), u32::MAX));
    for other in ["6", "", "+", "-5", "5 ", "++5", "4294967301"] {
        assert!(!launched_here(Some(other), 5));
    }
    assert!(!launched_here(None, 5));
    assert_eq!(
        automatic_desktop_id(Some("vendor-app".to_string()), Some("robius.x".to_string())),
        "vendor-app"
    );
    assert_eq!(automatic_desktop_id(None, Some("robius.x".to_string())), "robius.x");
}

#[test]
fn application_directories_come_from_the_environment() {
    let given = |text: &str| Some(FilePath::from_text(text));
    let texts = |directories: Vec<FilePath>| {
        directories.iter().map(|path| path.to_text().unwrap()).collect::<Vec<String>>()
    };
    assert_eq!(
        texts(xdg_application_dirs(&given("/data"), &given("/home/me"), &given("/a:b::/c/"))),
        ["/data/applications", "/a/applications", "/c/applications"]
    );
    assert_eq!(
        texts(xdg_application_dirs(&None, &given("/home/me"), &None)),
        [
            "/home/me/.local/share/applications",
            "/usr/local/share/applications",
            "/usr/share/applications"
        ]
    );
    // Empty values count as none, but for the home, which makes a path that is not absolute.
    assert_eq!(
        texts(xdg_application_dirs(&given(""), &given(""), &given(""))),
        ["/usr/local/share/applications", "/usr/share/applications"]
    );
    assert_eq!(texts(xdg_application_dirs(&given("data"), &given("/home/me"), &given(":"))), [""; 0]);
}

#[test]
fn accuracy_maps_to_geoclue_levels() {
    assert_eq!(geoclue_accuracy(Accuracy::Approximate), GEOCLUE_ACCURACY_CITY);
    assert_eq!(geoclue_accuracy(Accuracy::Precise), GEOCLUE_ACCURACY_EXACT);
}

#[test]
fn cache_rejects_future_and_stale_fixes() {
    let now = now();
    let age = MAX_CACHED_AGE as i64;
    assert!(cached_fix_is_recent(Some(shifted(now, -30)), now));
    assert!(!cached_fix_is_recent(Some(shifted(now, -age - 1)), now));
    assert!(!cached_fix_is_recent(Some(shifted(now, 1)), now));
    assert!(!cached_fix_is_recent(None, now));
}

#[test]
fn cached_one_shot_only_delivers_a_newer_provider_fix() {
    let old = at(100);
    let one_shot = OneShot {
        deadline: ONE_SHOT_TIMEOUT,
        delivered_cached: true,
        newer_than: Some(old),
    };
    assert!(!one_shot_is_fresher(&one_shot, Some(old)));
    assert!(!one_shot_is_fresher(&one_shot, Some(shifted(old, -1))));
    assert!(one_shot_is_fresher(&one_shot, Some(shifted(old, 1))));
    assert!(one_shot_is_fresher(&one_shot, None));
}

#[test]
fn geoclue_and_transport_errors_are_classified() {
    assert!(matches!(
        map_method_error_name("org.freedesktop.GeoClue2.Error.NotAuthorized"),
        Error::AuthorizationDenied
    ));
    assert!(matches!(
        map_method_error_name("org.freedesktop.DBus.Error.NoNetwork"),
        Error::Network
    ));
    assert!(matches!(
        map_method_error_name("org.freedesktop.GeoClue2.Error.NotAvailable"),
        Error::TemporarilyUnavailable
    ));
    assert!(matches!(
        map_method_error_name("org.freedesktop.DBus.Error.ServiceUnknown"),
        Error::PermanentlyUnavailable
    ));
    assert!(matches!(map_method_error_name("org.example.Unrecognized"), Error::Unknown));
}

#[test]
fn gone_objects_count_as_closed() {
    let gone = BusError::Method("org.freedesktop.DBus.Error.UnknownObject".to_string());
    assert!(is_gone_error(&gone));
    assert_eq!(close_outcome(Err(gone)), Ok(()));
    let missing = BusError::Standard("org.freedesktop.DBus.Error.ServiceUnknown".to_string());
    assert!(is_gone_error(&missing));
    assert_eq!(close_outcome(Err(missing)), Err(Error::PermanentlyUnavailable));
    assert_eq!(close_outcome(Ok(())), Ok(()));
    assert_eq!(close_outcome(Err(BusError::Other)), Err(Error::Unknown));
    assert!(!is_definitive_start_error(&BusError::Other));
}

#[test]
fn unix_epoch_round_trips() {
    assert_eq!(system_time_from_winrt(EPOCH), Some(at(0)));
}

#[test]
fn converts_a_real_timestamp() {
    // 2024-01-01T00:00:00Z.
    let ticks = EPOCH + 1_704_067_200 * 10_000_000;
    assert_eq!(system_time_from_winrt(ticks), Some(at(1_704_067_200)));
}

#[test]
fn keeps_sub_second_precision() {
    let time = system_time_from_winrt(EPOCH + 1_234_567).unwrap();
    assert_eq!(time, Timestamp { secs: 0, nanos: 123_456_700 });
}

#[test]
fn handles_times_before_the_unix_epoch() {
    // Tick 0 is 1601-01-01, the start of the WinRT epoch.
    assert_eq!(system_time_from_winrt(0), Some(at(-11_644_473_600)));
}

#[test]
fn rejects_values_that_cannot_be_shifted() {
    assert_eq!(system_time_from_winrt(i64::MIN), None);
}

#[test]
fn windows_statuses_become_errors() {
    assert_eq!(status_error(PositionStatus::Ready), None);
    assert_eq!(status_error(PositionStatus::Disabled), Some(Error::AuthorizationDenied));
    assert_eq!(status_error(PositionStatus::NotAvailable), Some(Error::PermanentlyUnavailable));
    assert_eq!(access_result(AccessStatus::Allowed), Ok(()));
    assert_eq!(access_result(AccessStatus::Denied), Err(Error::AuthorizationDenied));
    assert_eq!(check_cached_fix(Some(EPOCH), at(MAX_CACHED_AGE as i64)), Ok(()));
    assert_eq!(
        check_cached_fix(Some(EPOCH), at(MAX_CACHED_AGE as i64 + 1)),
        Err(Error::TemporarilyUnavailable)
    );
    assert_eq!(check_cached_fix(None, at(0)), Err(Error::TemporarilyUnavailable));
    assert_eq!(one_shot_error(true, Error::Network), None);
    assert_eq!(one_shot_error(false, Error::Network), Some(Error::Network));
}

#[test]
fn a_backend_is_kept_once_it_is_pinned() {
    assert_eq!(choose_backend(None, true), BackendStep::TryPortal);
    assert_eq!(choose_backend(Some(BackendKind::GeoClue), true), BackendStep::TryGeoClue);
    let absent = PortalInitError::unavailable(Error::PermanentlyUnavailable);
    assert_eq!(after_portal(None, absent, true), BackendStep::TryGeoClue);
    assert_eq!(
        after_portal(None, absent, false),
        BackendStep::Fail(Error::PermanentlyUnavailable)
    );
    assert_eq!(
        after_portal(Some(BackendKind::Portal), absent, true),
        BackendStep::Fail(Error::PermanentlyUnavailable)
    );
    let broken = PortalInitError::other(Error::Network);
    assert_eq!(after_portal(None, broken, true), BackendStep::Fail(Error::Network));
    assert!(direct_fallback_allowed(false, false, false, false));
    assert!(!direct_fallback_allowed(true, false, false, false));
    assert!(!direct_fallback_allowed(false, false, false, true));
}

#[test]
fn the_worker_waits_no_longer_than_the_deadline() {
    assert_eq!(worker_wait(None, 5), WorkerWait::Command);
    assert_eq!(worker_wait(Some(5), 5), WorkerWait::ExpireNow);
    assert_eq!(worker_wait(Some(8), 5), WorkerWait::CommandFor(3));
    assert_eq!(
        worker_action(true, false, true, BackendKind::Portal),
        WorkerAction::Quit { confirm: false }
    );
    assert_eq!(
        worker_action(false, true, true, BackendKind::Portal),
        WorkerAction::Quit { confirm: true }
    );
    assert_eq!(
        worker_action(false, false, false, BackendKind::GeoClue),
        WorkerAction::Rebuild(BackendKind::GeoClue)
    );
    assert_eq!(worker_action(false, false, true, BackendKind::Portal), WorkerAction::Serve);
    assert_eq!(construction_outcome(Readiness::Ready).0, Ok(()));
    assert_eq!(construction_outcome(Readiness::Failed(Error::Network)).0, Err(Error::Network));
}

#[test]
fn portal_versions_and_owners_are_checked() {
    assert!(check_version(1).is_ok());
    assert!(check_version(0).unwrap_err().fallback_allowed);
    let owner = ":1.7";
    let name = "org.freedesktop.portal.Desktop";
    assert!(portal_owner_lost(owner, Some("org.freedesktop.DBus"), name, owner, ""));
    assert!(!portal_owner_lost(owner, Some(":1.9"), name, owner, ""));
    assert!(!portal_owner_lost(owner, Some("org.freedesktop.DBus"), name, owner, owner));
}

fn started_session(
    state: &mut PortalState,
    queue: &mut CallbackQueue,
    operation: PortalOperation,
    step: PortalStep,
) -> (String, String) {
    let PortalStep::CreateSession { token, accuracy } = step else {
        panic!("expected a session to be created");
    };
    assert_eq!(accuracy, ACCURACY_CITY);
    let handle = format!("/org/freedesktop/portal/desktop/session/1_5/{token}");
    let step = state.session_created(operation, Ok(handle.clone()), Some(":1.5"));
    let PortalStep::StartSession { request, .. } = step else {
        panic!("expected the session to be started");
    };
    let step = state.session_started(
        queue,
        operation,
        handle.clone(),
        request.clone(),
        Ok(request.clone()),
        at(0),
    );
    assert!(matches!(step, PortalStep::Finished(Ok(()))));
    (handle, request)
}

#[test]
fn a_portal_request_runs_from_session_to_fix() {
    let (sender, mut queue) = test_callback_sender();
    let mut state = PortalState::new(sender, "robius_test".to_string());
    let (operation, step) = state.update_once(&mut queue, 1, at(0));
    let (handle, request) = started_session(&mut state, &mut queue, operation, step);
    assert!(state.one_shot.is_some());
    // A fix before the user has agreed is not ours.
    assert!(state.handle_location(&mut queue, &handle, &valid_values()).is_none());
    assert!(queue.events.is_empty());
    assert!(state.handle_start_response(&mut queue, &request, 0).is_none());
    let cleanup = state.handle_location(&mut queue, &handle, &valid_values());
    // Nothing else needs the session, so it is closed.
    assert_eq!(cleanup.unwrap().handle, handle);
    assert_eq!(queue.events.len(), 1);
    assert!(matches!(
        queue.events.front(),
        Some(CallbackEvent::Location { one_shot: true, .. })
    ));
    assert!(state.one_shot.is_none());
}

#[test]
fn a_refused_portal_request_ends_with_an_error() {
    let (sender, mut queue) = test_callback_sender();
    let mut state = PortalState::new(sender, "robius_test".to_string());
    let (operation, step) = state.start_updates(&mut queue, at(0));
    let (handle, request) = started_session(&mut state, &mut queue, operation, step);
    let cleanup = state.handle_start_response(&mut queue, &request, 1).unwrap();
    assert_eq!(cleanup.handle, handle);
    assert!(!state.continuous);
    assert!(matches!(
        queue.events.front(),
        Some(CallbackEvent::Error(Error::AuthorizationDenied))
    ));
}

#[test]
fn a_session_closed_by_the_portal_takes_its_requests_along() {
    let (sender, mut queue) = test_callback_sender();
    let mut state = PortalState::new(sender, "robius_test".to_string());
    let (operation, step) = state.start_updates(&mut queue, at(0));
    let (handle, request) = started_session(&mut state, &mut queue, operation, step);
    state.handle_start_response(&mut queue, &request, 0);
    state.handle_session_closed(&mut queue, "/other");
    assert!(state.continuous);
    state.handle_session_closed(&mut queue, &handle);
    assert!(!state.continuous);
    assert!(state.session.is_none());
}

#[test]
fn an_expired_request_reports_that_there_is_no_fix() {
    let (sender, mut queue) = test_callback_sender();
    let mut state = PortalState::new(sender, "robius_test".to_string());
    let (operation, step) = state.update_once(&mut queue, 1, at(0));
    let (handle, request) = started_session(&mut state, &mut queue, operation, step);
    assert!(state.expire_one_shot(&mut queue, ONE_SHOT_TIMEOUT).is_none());
    assert!(state.one_shot.is_some());
    assert!(state.handle_start_response(&mut queue, &request, 0).is_none());
    let cleanup = state.expire_one_shot(&mut queue, ONE_SHOT_TIMEOUT + 1).unwrap();
    assert_eq!(cleanup.handle, handle);
    assert!(cleanup.request.is_none());
    assert!(state.one_shot.is_none());
    assert!(matches!(
        queue.events.front(),
        Some(CallbackEvent::Error(Error::TemporarilyUnavailable))
    ));
}

#[test]
fn portal_signals_are_told_apart() {
    let (sender, _queue) = test_callback_sender();
    let state = PortalState::new(sender, "robius_test".to_string());
    let owner = ":1.7";
    assert_eq!(
        state.classify_signal(
            owner,
            Some(owner),
            Some("org.freedesktop.portal.Location"),
            Some("LocationUpdated")
        ),
        PortalSignal::LocationUpdated
    );
    assert_eq!(
        state.classify_signal(
            owner,
            Some(":1.8"),
            Some("org.freedesktop.portal.Location"),
            Some("LocationUpdated")
        ),
        PortalSignal::Ignored
    );
}

#[test]
fn a_lost_geoclue_client_is_replaced() {
    let (sender, mut queue) = test_callback_sender();
    let mut state = GeoState::new(sender);
    let step = state.construct();
    assert!(matches!(step, GeoStep::GetClient(GeoOperation::Construct)));
    let step = state.client_obtained(
        GeoOperation::Construct,
        Ok((Some(":1.9".to_string()), "/client/1".to_string())),
    );
    let GeoStep::Configure { operation, client } = step else {
        panic!("expected the client to be configured");
    };
    let step = state.client_configured(&mut queue, operation, client, Ok(()), at(0));
    assert!(matches!(step, GeoStep::Finished(Ok(()))));
    let client = state.client.as_ref().unwrap().copy();
    assert!(state.client_is_current(&client));
    assert_eq!(
        state.classify_signal(
            Some("/client/1"),
            Some(":1.9"),
            Some("org.freedesktop.GeoClue2.Client"),
            Some("LocationUpdated")
        ),
        GeoSignal::LocationUpdated
    );
    assert!(state.owner_lost(
        Some("org.freedesktop.DBus"),
        "org.freedesktop.GeoClue2",
        ":1.9",
        ""
    ));

    let step = state.start_updates(&mut queue, at(0));
    let GeoStep::Start { operation, client } = step else {
        panic!("expected the client to be started");
    };
    let step = state.client_started(&mut queue, operation, &client, Ok(()), at(0));
    assert!(matches!(step, GeoStep::Finished(Ok(()))));
    state.handle_location(&mut queue, &client, Ok(valid_values()));
    assert_eq!(queue.events.len(), 1);

    state.provider_lost(&mut queue);
    assert!(!state.client_is_current(&client));
    // A restarted daemon may be asked for a new client.
    assert!(state.is_usable());
    assert!(state.client.is_none());
    assert!(state.last_location.is_none());
    assert!(matches!(
        queue.events.front(),
        Some(CallbackEvent::Error(Error::TemporarilyUnavailable))
    ));
}

#[test]
fn a_cached_geoclue_fix_answers_a_request_at_once() {
    let (sender, mut queue) = test_callback_sender();
    let mut state = GeoState::new(sender);
    state.construct();
    let step = state.client_obtained(
        GeoOperation::Construct,
        Ok((Some(":1.9".to_string()), "/client/1".to_string())),
    );
    let GeoStep::Configure { operation, client } = step else {
        panic!("expected the client to be configured");
    };
    state.client_configured(&mut queue, operation, client, Ok(()), at(0));
    let GeoStep::Start { operation, client } = state.start_updates(&mut queue, at(0)) else {
        panic!("expected the client to be started");
    };
    state.client_started(&mut queue, operation, &client, Ok(()), at(0));
    state.handle_location(&mut queue, &client, Ok(valid_values()));
    queue.take_next();
    queue.begin_invocation();
    queue.finish_invocation();

    let wall = at(1_700_000_100);
    state.update_once(&mut queue, 1, wall);
    let Some(CallbackEvent::Location { location, .. }) = queue.events.front() else {
        panic!("expected the cached fix");
    };
    assert_eq!(location.freshness, Freshness::Cached);
    assert!(state.one_shot.unwrap().delivered_cached);

    // The very same fix completes the request without being delivered to it again.
    state.handle_location(&mut queue, &client, Ok(valid_values()));
    assert!(state.one_shot.is_none());
}

#[test]
fn geoclue_reports_are_read() {
    assert_eq!(updated_location(Some("/loc/1".to_string())), Ok("/loc/1".to_string()));
    assert!(updated_location(None).is_err());
    let client_interface = "org.freedesktop.GeoClue2.Client";
    assert_eq!(active_report(client_interface, Some(false), &vec![]), ActiveReport::Is(false));
    assert_eq!(active_report("other", Some(false), &vec![]), ActiveReport::Silent);
    assert_eq!(
        active_report(client_interface, None, &vec!["Active".to_string()]),
        ActiveReport::Ask
    );
}

#[test]
fn events_are_delivered_one_at_a_time() {
    let (sender, mut queue) = test_callback_sender();
    assert!(matches!(queue.take_next(), DispatchStep::Wait));
    assert!(queue.error(sender, Error::Network));
    queue.error(sender, Error::Network);
    assert_eq!(queue.events.len(), 1);
    assert!(matches!(
        queue.take_next(),
        DispatchStep::Consider(CallbackEvent::Error(Error::Network))
    ));
    assert!(queue.begin_invocation());
    queue.finish_invocation();
    queue.retire_senders();
    // A retired provider's fixes are worth nothing, but its errors are.
    queue.location(sender, test_location(1.0), true, 0);
    assert!(queue.events.is_empty());
    assert!(queue.error(sender, Error::Network));
    let fresh = queue.sender();
    assert!(queue.location(fresh, test_location(1.0), true, 0));
    assert_eq!(queue.events.len(), 2);
    queue.shut_down();
    assert!(matches!(queue.take_next(), DispatchStep::Stop));
}

#[test]
fn android_asks_before_it_measures() {
    let mut state = PermissionState::new();
    assert_eq!(state.update_once(true), PermissionStep::Run);
    assert_eq!(
        state.request_authorization(Accuracy::Precise, false),
        PermissionStep::Prompt(Accuracy::Precise)
    );
    assert_eq!(state.update_once(false), PermissionStep::Settled);
    let outcome = state.handle_permission_result(true);
    assert!(outcome.run_update_once);
    assert!(!outcome.run_start_updates);
    assert_eq!(outcome.error, None);

    assert_eq!(state.start_updates(false), PermissionStep::Prompt(Accuracy::Precise));
    let outcome = state.handle_permission_result(false);
    assert!(!outcome.run_start_updates);
    assert_eq!(outcome.error, Some(Error::AuthorizationDenied));

    assert!(!state.drop_listener());
    assert!(state.dropped);

    assert!(has_location_permission(android::PERMISSION_GRANTED, -1));
    assert!(has_location_permission(-1, android::PERMISSION_GRANTED));
    assert!(!has_location_permission(-1, -1));
    assert_eq!(
        requested_permissions(Accuracy::Approximate),
        vec![android::COARSE_LOCATION_PERMISSION]
    );
    assert_eq!(requested_permissions(Accuracy::Precise).len(), 2);
    assert_eq!(started_result(true), Ok(()));
    assert!(started_result(false).is_err());
}

#[test]
fn android_falls_back_to_a_recent_fix() {
    let now = at(10_000);
    assert_eq!(choose_delivery(true, Ok(None), now), Delivery::Live);
    assert_eq!(choose_delivery(false, Ok(Some(9_000_000)), now), Delivery::LastKnown);
    assert_eq!(
        choose_delivery(false, Ok(Some(1_000_000)), now),
        Delivery::Fail(Error::TemporarilyUnavailable)
    );
    assert_eq!(
        choose_delivery(false, Err(Error::Network), now),
        Delivery::Fail(Error::TemporarilyUnavailable)
    );
    assert_eq!(time_from_millis(1_500), Timestamp { secs: 1, nanos: 500_000_000 });
    // A negative count is a time before the epoch.
    assert_eq!(time_from_millis(-500), Timestamp { secs: -1, nanos: 500_000_000 });
    assert_eq!(time_from_millis(-2_000), Timestamp { secs: -2, nanos: 0 });
    assert_eq!(
        time_from_millis(i64::MIN),
        Timestamp { secs: -9_223_372_036_854_776, nanos: 192_000_000 }
    );
    assert_eq!(map_android_error(JavaFailure::SecurityException), Error::AuthorizationDenied);
    assert_eq!(map_android_error(JavaFailure::Other), Error::Unknown);
    assert_eq!(last_known_providers(), ["fused", "gps", "network"]);
    assert_eq!(pick_last_known(&vec![None, None, None]), None);
    assert_eq!(pick_last_known(&vec![Some(5), None, Some(9)]), Some(2));
    assert_eq!(pick_last_known(&vec![Some(9), Some(9), Some(-1)]), Some(0));
    assert_eq!(pick_last_known(&vec![None, Some(i64::MIN), None]), Some(1));
}

#[test]
fn apple_fixes_only_move_forward() {
    let mut state = DelegateState::new();
    assert!(state.update_once(AuthorizationStatus::AuthorizedAlways));
    assert!(state.begin_one_shot(Some(at(100)), at(200)));
    assert!(!state.location_updated(at(100)));
    assert!(state.location_updated(at(101)));
    assert!(!state.location_updated(at(101)));
    assert_eq!(state.failed(0), None);

    let mut state = DelegateState::new();
    assert!(!state.begin_one_shot(Some(at(0)), at(MAX_CACHED_AGE as i64 + 1)));
    assert_eq!(state.failed(1), Some(Error::AuthorizationDenied));

    let mut state = DelegateState::new();
    assert!(!state.start_updates(AuthorizationStatus::NotDetermined));
    let outcome = state.authorization_changed(AuthorizationStatus::AuthorizedWhenInUse);
    assert!(outcome.start_updating);
    assert!(!outcome.request_location);
    // Nothing is held any more, so a refusal is not reported.
    let outcome = state.authorization_changed(AuthorizationStatus::Denied);
    assert_eq!(outcome.error, None);
    assert!(!state.update_once(AuthorizationStatus::NotDetermined));
    let outcome = state.authorization_changed(AuthorizationStatus::Denied);
    assert_eq!(outcome.error, Some(Error::AuthorizationDenied));
}

#[test]
fn asking_for_more_accuracy_starts_a_new_session() {
    let (sender, mut queue) = test_callback_sender();
    let mut state = PortalState::new(sender, "robius_test".to_string());
    let (operation, step) = state.start_updates(&mut queue, at(0));
    let (handle, request) = started_session(&mut state, &mut queue, operation, step);
    state.handle_start_response(&mut queue, &request, 0);
    let step = state.request_authorization(
        &mut queue,
        Access::Foreground,
        Accuracy::Precise,
        1,
        at(0),
    );
    let PortalStep::CloseSession(cleanup) = step else {
        panic!("expected the old session to be closed");
    };
    assert_eq!(cleanup.handle, handle);
    let step = state.authorization_session_closed(&mut queue, Ok(()), at(0));
    assert!(matches!(step, PortalStep::CreateSession { accuracy: ACCURACY_EXACT, .. }));
}

#[test]
fn bit_patterns_compare_like_the_numbers() {
    let numbers = [
        0.0,
        -0.0,
        1.0,
        -1.0,
        89.999,
        90.0,
        90.000_001,
        -90.0,
        -90.000_001,
        180.0,
        359.999,
        360.0,
        f64::MIN,
        f64::MAX,
        f64::MIN_POSITIVE,
        f64::INFINITY,
        f64::NEG_INFINITY,
        f64::NAN,
        -f64::NAN,
    ];
    for number in numbers {
        let bits = number.to_bits();
        assert_eq!(double::is_finite(bits), number.is_finite());
        if number.is_finite() {
            assert_eq!(double::is_within(bits, double::NINETY), (-90.0..=90.0).contains(&number));
            assert_eq!(
                double::is_nonnegative_below(bits, double::FULL_TURN),
                (0.0..360.0).contains(&number)
            );
            assert_eq!(double::is_negative(bits), number < 0.0);
        }
    }
    assert_eq!(double::MINUS_ONE, (-1.0_f64).to_bits());
    assert_eq!(double::LEAST, f64::MIN.to_bits());
    assert_eq!(double::HALF_TURN, 180.0_f64.to_bits());
}

use robius::bus::IoFailure;
use robius::camera;
use robius::camera::{
    android_result, capture_photo, ios_answer_step, ios_authorization_step, ios_camera_step,
    ios_outcome, ios_photo, is_available, windows_photo, windows_step, CameraAuthorization, CameraPosition,
    CaptureBegin, CaptureStart, CaptureStatus, IosStep, PhotoData, Platform, StageOutcome, WindowsStage,
    WindowsStep,
};
use robius::open;
use robius::open::{android_opened, android_outcome, linux_opened, linux_outcome, ActivityStart, Uri};

#[test]
fn photos_hold_what_was_taken() {
    let photo = PhotoData::new(vec![1, 2, 3], 4, 5);
    assert_eq!(photo.jpeg_data(), &[1, 2, 3]);
    assert_eq!((photo.width(), photo.height()), (4, 5));
    assert_eq!(photo.into_jpeg_data(), vec![1, 2, 3]);
    assert_eq!(CameraPosition::default(), CameraPosition::Back);
}

#[test]
fn captures_start_as_the_platform_has_it() {
    let begun = |start| CaptureBegin { completion: None, result: Ok(start) };
    assert_eq!(
        capture_photo(Platform::Android, CameraPosition::Front),
        begun(CaptureStart::RequestPermission { use_front_camera: true })
    );
    assert_eq!(
        capture_photo(Platform::Ios, CameraPosition::Back),
        begun(CaptureStart::CheckAuthorization)
    );
    assert_eq!(
        capture_photo(Platform::Windows, CameraPosition::Back),
        begun(CaptureStart::ShowCaptureScreen)
    );
    for position in [CameraPosition::Back, CameraPosition::Front] {
        let begin = capture_photo(Platform::Unsupported, position);
        assert_eq!(begin.completion, Some(camera::Error::Unsupported));
        assert_eq!(begin.result, Err(camera::Error::Unsupported));
    }
    assert!(is_available(Platform::Android, Some(true)));
    assert!(!is_available(Platform::Unsupported, Some(true)));
}

#[test]
fn android_captures_end_with_a_code() {
    let photo = android_result(camera::ANDROID_OK, Some(vec![9]), 2, 3).unwrap();
    assert_eq!(photo.jpeg_data(), &[9]);
    assert_eq!(
        android_result(camera::ANDROID_CANCELLED, None, 0, 0).err(),
        Some(camera::Error::Cancelled)
    );
    assert_eq!(
        android_result(camera::ANDROID_DENIED, None, 0, 0).err(),
        Some(camera::Error::PermissionDenied)
    );
    assert!(android_result(camera::ANDROID_FAILED, None, 0, 0).is_err());
    assert!(android_result(camera::ANDROID_OK, None, 0, 0).is_err());
}

#[test]
fn ios_captures_go_step_by_step() {
    assert_eq!(ios_authorization_step(CameraAuthorization::Authorized), IosStep::Capture);
    assert_eq!(ios_authorization_step(CameraAuthorization::NotDetermined), IosStep::AskUser);
    assert_eq!(
        ios_authorization_step(CameraAuthorization::Denied),
        IosStep::Fail(camera::Error::PermissionDenied)
    );
    assert_eq!(ios_answer_step(true), IosStep::Capture);
    assert_eq!(ios_answer_step(false), IosStep::Fail(camera::Error::PermissionDenied));
    assert_eq!(
        ios_camera_step(false, true),
        IosStep::Fail(camera::Error::CameraUnavailable)
    );
    assert_eq!(
        ios_camera_step(true, false),
        IosStep::Fail(camera::Error::RequestedCameraUnavailable)
    );
    let denied = ios_outcome(IosStep::Fail(camera::Error::PermissionDenied), true);
    assert_eq!(denied.completion, Some(camera::Error::PermissionDenied));
    assert_eq!(denied.result, Ok(()));
    assert_eq!(ios_outcome(IosStep::AskUser, false).result, Ok(()));
    assert_eq!(ios_outcome(IosStep::Capture, true).result, Ok(()));
    let hidden = ios_outcome(IosStep::Capture, false);
    assert_eq!((hidden.completion, hidden.result), (None, Err(camera::Error::Unknown)));
    assert!(ios_photo(Some(vec![1]), 1, 1).is_ok());
    assert_eq!(ios_photo(None, 1, 1).err(), Some(camera::Error::ProcessingFailed));
}

#[test]
fn windows_captures_wait_for_a_file() {
    let mut stage = WindowsStage::PrepareThread;
    let mut stages = 1;
    while stage != WindowsStage::CheckStatus {
        let Ok(WindowsStep::Perform(next)) = windows_step(stage, StageOutcome::Done) else {
            panic!("expected another stage");
        };
        stage = next;
        stages += 1;
    }
    assert_eq!(stages, 6);
    let status = |status| windows_step(WindowsStage::CheckStatus, StageOutcome::Status(status));
    assert_eq!(status(CaptureStatus::Started), Ok(WindowsStep::PumpMessages));
    assert_eq!(status(CaptureStatus::Other), Ok(WindowsStep::Wait));
    assert_eq!(
        status(CaptureStatus::Completed),
        Ok(WindowsStep::Perform(WindowsStage::TakeFile))
    );
    assert_eq!(status(CaptureStatus::Canceled), Err(camera::Error::Cancelled));
    assert_eq!(status(CaptureStatus::Error), Err(camera::Error::Unknown));
    assert_eq!(
        windows_step(WindowsStage::GetPath, StageOutcome::Path { empty: false }),
        Ok(WindowsStep::Perform(WindowsStage::ReadFile))
    );
    assert_eq!(
        windows_step(WindowsStage::GetPath, StageOutcome::Path { empty: true }),
        Err(camera::Error::Cancelled)
    );
    assert_eq!(
        windows_step(WindowsStage::MakeScreen, StageOutcome::Failed),
        Err(camera::Error::CameraUnavailable)
    );
    assert_eq!(
        windows_step(WindowsStage::ReadFile, StageOutcome::Failed),
        Err(camera::Error::ProcessingFailed)
    );
    assert_eq!(
        windows_step(WindowsStage::ReadFile, StageOutcome::Done),
        Ok(WindowsStep::Finish)
    );
    let photo = windows_photo(vec![1], Some(3), None);
    assert_eq!((photo.width(), photo.height()), (3, 0));
    assert!(!camera::Error::Unknown.message().is_empty());
}

#[test]
fn uris_keep_their_action() {
    let uri = Uri::new("https://example.org");
    assert_eq!(uri.as_str(), "https://example.org");
    assert_eq!(uri.android_action(), "ACTION_VIEW");
    let uri = uri.action("ACTION_DIAL");
    assert_eq!(uri.android_action(), "ACTION_DIAL");
    assert!(!uri.is_empty());
    assert!(Uri::new("").is_empty());
    assert_eq!(uri.check(), Ok(()));
    assert_eq!(Uri::new("").action("ACTION_DIAL").check(), Err(open::Error::MalformedUri));
    // Linux is given the URI alone.
    assert_eq!(uri.linux_argument(), Uri::new("https://example.org").linux_argument());
    assert_eq!(uri.linux_argument(), "https://example.org");
}

#[test]
fn opening_reports_what_the_system_says() {
    assert_eq!(linux_outcome(Ok(())), Ok(()));
    assert!(linux_outcome(Err(IoFailure::NotFound)).is_err());
    assert!(linux_opened(Some(true)));
    assert!(!linux_opened(Some(false)));
    assert!(!linux_opened(None));
    assert_eq!(android_opened(ActivityStart::Started), Ok(true));
    assert_eq!(android_opened(ActivityStart::Exception), Ok(false));
    assert!(android_opened(ActivityStart::CallFailed).is_err());
    let outcome = android_outcome(Err(()));
    assert_eq!(outcome.result, Err(open::Error::AndroidEnvironment));
    assert_eq!(outcome.completion, None);
    let outcome = android_outcome(Ok(Ok(true)));
    assert_eq!(outcome.completion, Some(true));
    assert_eq!(outcome.result, Ok(()));
}

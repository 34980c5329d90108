//! Photos from the system's own camera screen.

use vstd::prelude::*;

verus! {

/// What can go wrong while taking a photo.
#[derive(Clone, Copy, Debug, PartialEq, Eq, Structural)]
pub enum Error {
    /// The Android environment could not be reached.
    AndroidEnvironment,
    /// A call into Java failed.
    Java,
    /// There is no camera.
    CameraUnavailable,
    /// There is no such camera.
    RequestedCameraUnavailable,
    /// The user changed their mind.
    Cancelled,
    /// The user does not allow this application to use the camera.
    PermissionDenied,
    /// The photo could not be processed.
    ProcessingFailed,
    /// The call has to be made on the main thread.
    NotMainThread,
    /// This platform is not supported.
    Unsupported,
    /// Anything else.
    Unknown,
}

pub type Result<T> = std::result::Result<T, Error>;

/// What each error says. Where a system has more to say, its words come after these.
pub open spec fn error_text(error: Error) -> Seq<char> {
    match error {
        Error::AndroidEnvironment => "could not acquire Android environment: "@,
        Error::Java => "JNI error: "@,
        Error::CameraUnavailable => "camera hardware is not available"@,
        Error::RequestedCameraUnavailable => "requested camera is not available"@,
        Error::Cancelled => "user cancelled the capture"@,
        Error::PermissionDenied => "camera permission denied"@,
        Error::ProcessingFailed => "failed to process captured image"@,
        Error::NotMainThread => "must be called on main thread"@,
        Error::Unsupported => "platform not supported"@,
        Error::Unknown => "unknown error"@,
    }
}

impl Error {
    /// What the error says. Where a system has more to say, its words come after these.
    pub fn message(self) -> (r: &'static str)
        ensures
            r@ == error_text(self),
    {
        match self {
            Error::AndroidEnvironment => "could not acquire Android environment: ",
            Error::Java => "JNI error: ",
            Error::CameraUnavailable => "camera hardware is not available",
            Error::RequestedCameraUnavailable => "requested camera is not available",
            Error::Cancelled => "user cancelled the capture",
            Error::PermissionDenied => "camera permission denied",
            Error::ProcessingFailed => "failed to process captured image",
            Error::NotMainThread => "must be called on main thread",
            Error::Unsupported => "platform not supported",
            Error::Unknown => "unknown error",
        }
    }
}

/// Which camera to use.
#[derive(Clone, Copy, Debug, PartialEq, Eq, Structural)]
pub enum CameraPosition {
    /// The camera on the back.
    Back,
    /// The camera on the front.
    Front,
}

impl Default for CameraPosition {
    fn default() -> (r: CameraPosition)
        ensures
            r == CameraPosition::Back,
    {
        CameraPosition::Back
    }
}

/// A photo, as JPEG data.
#[derive(Debug)]
pub struct PhotoData {
    jpeg_data: Vec<u8>,
    width: u32,
    height: u32,
}

pub struct PhotoModel {
    pub jpeg_data: Seq<u8>,
    pub width: u32,
    pub height: u32,
}

impl View for PhotoData {
    type V = PhotoModel;

    closed spec fn view(&self) -> PhotoModel {
        PhotoModel { jpeg_data: self.jpeg_data@, width: self.width, height: self.height }
    }
}

impl PhotoData {
    pub fn new(jpeg_data: Vec<u8>, width: u32, height: u32) -> (r: PhotoData)
        ensures
            r@ == (PhotoModel { jpeg_data: jpeg_data@, width, height }),
    {
        PhotoData { jpeg_data, width, height }
    }

    pub fn jpeg_data(&self) -> (r: &[u8])
        ensures
            r@ == self@.jpeg_data,
    {
        self.jpeg_data.as_slice()
    }

    /// The width in pixels.
    pub fn width(&self) -> (r: u32)
        ensures
            r == self@.width,
    {
        self.width
    }

    /// The height in pixels.
    pub fn height(&self) -> (r: u32)
        ensures
            r == self@.height,
    {
        self.height
    }

    pub fn into_jpeg_data(self) -> (r: Vec<u8>)
        ensures
            r@ == self@.jpeg_data,
    {
        self.jpeg_data
    }
}

/// The systems that cameras differ by.
#[derive(Clone, Copy, Debug, PartialEq, Eq, Structural)]
pub enum Platform {
    Ios,
    Android,
    Windows,
    Unsupported,
}

/// How taking a photo begins.
#[derive(Clone, Copy, Debug, PartialEq, Eq, Structural)]
pub enum CaptureStart {
    /// Find out whether the user allows it.
    CheckAuthorization,
    /// Have the system ask the user and start the camera.
    RequestPermission { use_front_camera: bool },
    /// Show the system's camera screen, on which the user chooses the camera.
    ShowCaptureScreen,
}

/// What beginning to take a photo comes to.
#[derive(Clone, Copy, Debug, PartialEq, Eq)]
pub struct CaptureBegin {
    /// The error that the completion callback is called with before anything is returned, once. It
    /// is not called then where there is none.
    pub completion: Option<Error>,
    pub result: Result<CaptureStart>,
}

/// Begins to take a photo. Where that cannot be done at all, the completion callback is told before
/// the caller is.
pub fn capture_photo(platform: Platform, position: CameraPosition) -> (r: CaptureBegin)
    ensures
        r == match platform {
            Platform::Ios => CaptureBegin {
                completion: None,
                result: Ok(CaptureStart::CheckAuthorization),
            },
            Platform::Android => CaptureBegin {
                completion: None,
                result: Ok(
                    CaptureStart::RequestPermission {
                        use_front_camera: position == CameraPosition::Front,
                    },
                ),
            },
            Platform::Windows => CaptureBegin {
                completion: None,
                result: Ok(CaptureStart::ShowCaptureScreen),
            },
            Platform::Unsupported => CaptureBegin {
                completion: Some(Error::Unsupported),
                result: Err(Error::Unsupported),
            },
        },
{
    match platform {
        Platform::Ios => CaptureBegin {
            completion: None,
            result: Ok(CaptureStart::CheckAuthorization),
        },
        Platform::Android => CaptureBegin {
            completion: None,
            result: Ok(
                CaptureStart::RequestPermission {
                    use_front_camera: position == CameraPosition::Front,
                },
            ),
        },
        Platform::Windows => CaptureBegin {
            completion: None,
            result: Ok(CaptureStart::ShowCaptureScreen),
        },
        Platform::Unsupported => CaptureBegin {
            completion: Some(Error::Unsupported),
            result: Err(Error::Unsupported),
        },
    }
}

/// Whether a photo can be taken: only where the system could be asked and says so.
pub fn is_available(platform: Platform, answer: Option<bool>) -> (r: bool)
    ensures
        r == (platform != Platform::Unsupported && answer == Some(true)),
{
    match platform {
        Platform::Unsupported => false,
        _ => match answer {
            Some(available) => available,
            None => false,
        },
    }
}

/// What Android reports where all went well.
pub const ANDROID_OK: i32 = 0;

/// What Android reports where the user changed their mind.
pub const ANDROID_CANCELLED: i32 = 1;

/// What Android reports where the camera could not be used.
pub const ANDROID_FAILED: i32 = 2;

/// What Android reports where the user does not allow it.
pub const ANDROID_DENIED: i32 = 3;

/// The photo that Android reports.
pub fn android_result(code: i32, jpeg_data: Option<Vec<u8>>, width: i32, height: i32) -> (r: Result<
    PhotoData,
>)
    ensures
        match r {
            Ok(photo) => code == ANDROID_OK && (jpeg_data matches Some(data) && photo@ == (
            PhotoModel { jpeg_data: data@, width: width as u32, height: height as u32 })),
            Err(error) => (code != ANDROID_OK || jpeg_data is None) && error == if code
                == ANDROID_OK {
                Error::ProcessingFailed
            } else if code == ANDROID_CANCELLED {
                Error::Cancelled
            } else if code == ANDROID_DENIED {
                Error::PermissionDenied
            } else {
                Error::Unknown
            },
        },
{
    if code == ANDROID_OK {
        match jpeg_data {
            Some(data) => Ok(PhotoData::new(data, width as u32, height as u32)),
            None => Err(Error::ProcessingFailed),
        }
    } else if code == ANDROID_CANCELLED {
        Err(Error::Cancelled)
    } else if code == ANDROID_DENIED {
        Err(Error::PermissionDenied)
    } else {
        Err(Error::Unknown)
    }
}

/// What iOS says about the user's permission.
#[derive(Clone, Copy, Debug, PartialEq, Eq, Structural)]
pub enum CameraAuthorization {
    Authorized,
    NotDetermined,
    Denied,
    Restricted,
    /// Something unheard of, or nothing.
    Other,
}

/// How taking a photo goes on, on iOS.
#[derive(Clone, Copy, Debug, PartialEq, Eq, Structural)]
pub enum IosStep {
    /// Show the camera screen.
    Capture,
    /// Have the system ask the user.
    AskUser,
    /// Tell the application that there will be no photo.
    Fail(Error),
}

/// How taking a photo goes on, given the user's permission.
pub fn ios_authorization_step(status: CameraAuthorization) -> (r: IosStep)
    ensures
        r == match status {
            CameraAuthorization::Authorized => IosStep::Capture,
            CameraAuthorization::NotDetermined => IosStep::AskUser,
            CameraAuthorization::Denied | CameraAuthorization::Restricted => IosStep::Fail(
                Error::PermissionDenied,
            ),
            CameraAuthorization::Other => IosStep::Fail(Error::Unknown),
        },
{
    match status {
        CameraAuthorization::Authorized => IosStep::Capture,
        CameraAuthorization::NotDetermined => IosStep::AskUser,
        CameraAuthorization::Denied => IosStep::Fail(Error::PermissionDenied),
        CameraAuthorization::Restricted => IosStep::Fail(Error::PermissionDenied),
        CameraAuthorization::Other => IosStep::Fail(Error::Unknown),
    }
}

/// How taking a photo goes on, once the user has answered.
pub fn ios_answer_step(granted: bool) -> (r: IosStep)
    ensures
        r == if granted {
            IosStep::Capture
        } else {
            IosStep::Fail(Error::PermissionDenied)
        },
{
    if granted {
        IosStep::Capture
    } else {
        IosStep::Fail(Error::PermissionDenied)
    }
}

/// Whether the camera screen can be shown. There has to be a camera, and the one that was asked
/// for.
pub fn ios_camera_step(has_camera: bool, has_requested: bool) -> (r: IosStep)
    ensures
        r == if !has_camera {
            IosStep::Fail(Error::CameraUnavailable)
        } else if !has_requested {
            IosStep::Fail(Error::RequestedCameraUnavailable)
        } else {
            IosStep::Capture
        },
{
    if !has_camera {
        IosStep::Fail(Error::CameraUnavailable)
    } else if !has_requested {
        IosStep::Fail(Error::RequestedCameraUnavailable)
    } else {
        IosStep::Capture
    }
}

/// What the caller and the completion callback are told of a photo before it is taken.
#[derive(Clone, Copy, Debug, PartialEq, Eq)]
pub struct CaptureOutcome {
    /// The error that the completion callback is called with, if it is called.
    pub completion: Option<Error>,
    pub result: Result<()>,
}

/// What a call comes to on iOS, with `presented` for whether there was a window to show the camera
/// screen in. What the completion callback is told of is no error to the caller.
pub fn ios_outcome(step: IosStep, presented: bool) -> (r: CaptureOutcome)
    ensures
        r == match step {
            IosStep::Fail(error) => CaptureOutcome { completion: Some(error), result: Ok(()) },
            IosStep::AskUser => CaptureOutcome { completion: None, result: Ok(()) },
            IosStep::Capture => CaptureOutcome {
                completion: None,
                result: if presented {
                    Ok(())
                } else {
                    Err(Error::Unknown)
                },
            },
        },
{
    match step {
        IosStep::Fail(error) => CaptureOutcome { completion: Some(error), result: Ok(()) },
        IosStep::AskUser => CaptureOutcome { completion: None, result: Ok(()) },
        IosStep::Capture => CaptureOutcome {
            completion: None,
            result: if presented {
                Ok(())
            } else {
                Err(Error::Unknown)
            },
        },
    }
}

/// The photo that iOS hands over: an image that can be written as JPEG data.
pub fn ios_photo(jpeg_data: Option<Vec<u8>>, width: u32, height: u32) -> (r: Result<PhotoData>)
    ensures
        match jpeg_data {
            Some(data) => r matches Ok(photo) && photo@ == (PhotoModel {
                jpeg_data: data@,
                width,
                height,
            }),
            None => r matches Err(error) && error == Error::ProcessingFailed,
        },
{
    match jpeg_data {
        Some(data) => Ok(PhotoData::new(data, width, height)),
        None => Err(Error::ProcessingFailed),
    }
}

/// How far the Windows camera screen is.
#[derive(Clone, Copy, Debug, PartialEq, Eq, Structural)]
pub enum CaptureStatus {
    Started,
    Completed,
    Canceled,
    Error,
    /// Something unheard of.
    Other,
}

/// The work that taking a photo on Windows is made of, in this order.
#[derive(Clone, Copy, Debug, PartialEq, Eq, Structural)]
pub enum WindowsStage {
    /// Get the thread ready for the system's objects.
    PrepareThread,
    /// Make the camera screen. Tell it the window in front, where it takes one.
    MakeScreen,
    /// Get the settings of its photos.
    GetSettings,
    /// Have photos written as JPEG data.
    ChooseFormat,
    /// Show the screen.
    ShowScreen,
    /// See how far the user is.
    CheckStatus,
    /// Take the file of the photo.
    TakeFile,
    /// Get the file's path.
    GetPath,
    /// Read the file, and have the system measure the image.
    ReadFile,
}

/// What came of a stage.
#[derive(Clone, Copy, Debug, PartialEq, Eq, Structural)]
pub enum StageOutcome {
    /// It is done.
    Done,
    /// How far the user is.
    Status(CaptureStatus),
    /// Whether the file has a path.
    Path { empty: bool },
    /// It failed.
    Failed,
}

/// How taking a photo goes on, on Windows.
#[derive(Clone, Copy, Debug, PartialEq, Eq, Structural)]
pub enum WindowsStep {
    /// Go on with this stage.
    Perform(WindowsStage),
    /// Handle the window's messages and wait a moment, then check the status again.
    PumpMessages,
    /// Wait a moment, then check the status again.
    Wait,
    /// Hand the photo over.
    Finish,
}

/// What the application is told where a stage fails.
pub open spec fn stage_failure(stage: WindowsStage) -> Error {
    match stage {
        WindowsStage::MakeScreen | WindowsStage::ShowScreen => Error::CameraUnavailable,
        WindowsStage::GetPath => Error::Cancelled,
        WindowsStage::ReadFile => Error::ProcessingFailed,
        _ => Error::Unknown,
    }
}

/// How taking a photo goes on after a stage that went well.
pub open spec fn stage_after(stage: WindowsStage) -> WindowsStep {
    match stage {
        WindowsStage::PrepareThread => WindowsStep::Perform(WindowsStage::MakeScreen),
        WindowsStage::MakeScreen => WindowsStep::Perform(WindowsStage::GetSettings),
        WindowsStage::GetSettings => WindowsStep::Perform(WindowsStage::ChooseFormat),
        WindowsStage::ChooseFormat => WindowsStep::Perform(WindowsStage::ShowScreen),
        WindowsStage::ShowScreen => WindowsStep::Perform(WindowsStage::CheckStatus),
        WindowsStage::CheckStatus => WindowsStep::Perform(WindowsStage::TakeFile),
        WindowsStage::TakeFile => WindowsStep::Perform(WindowsStage::GetPath),
        WindowsStage::GetPath => WindowsStep::Perform(WindowsStage::ReadFile),
        WindowsStage::ReadFile => WindowsStep::Finish,
    }
}

/// How taking a photo goes on, on Windows. The user may take as long as they like over the screen;
/// a file without a path means that they changed their mind.
pub open spec fn next_step(stage: WindowsStage, outcome: StageOutcome) -> Result<WindowsStep> {
    match outcome {
        StageOutcome::Done => Ok(stage_after(stage)),
        StageOutcome::Status(CaptureStatus::Completed) => Ok(stage_after(stage)),
        StageOutcome::Status(CaptureStatus::Started) => Ok(WindowsStep::PumpMessages),
        StageOutcome::Status(CaptureStatus::Other) => Ok(WindowsStep::Wait),
        StageOutcome::Status(CaptureStatus::Canceled) => Err(Error::Cancelled),
        StageOutcome::Status(CaptureStatus::Error) => Err(Error::Unknown),
        StageOutcome::Path { empty } => if empty {
            Err(Error::Cancelled)
        } else {
            Ok(stage_after(stage))
        },
        StageOutcome::Failed => Err(stage_failure(stage)),
    }
}

fn failure_of(stage: WindowsStage) -> (r: Error)
    ensures
        r == stage_failure(stage),
{
    match stage {
        WindowsStage::MakeScreen => Error::CameraUnavailable,
        WindowsStage::ShowScreen => Error::CameraUnavailable,
        WindowsStage::GetPath => Error::Cancelled,
        WindowsStage::ReadFile => Error::ProcessingFailed,
        _ => Error::Unknown,
    }
}

fn following(stage: WindowsStage) -> (r: WindowsStep)
    ensures
        r == stage_after(stage),
{
    match stage {
        WindowsStage::PrepareThread => WindowsStep::Perform(WindowsStage::MakeScreen),
        WindowsStage::MakeScreen => WindowsStep::Perform(WindowsStage::GetSettings),
        WindowsStage::GetSettings => WindowsStep::Perform(WindowsStage::ChooseFormat),
        WindowsStage::ChooseFormat => WindowsStep::Perform(WindowsStage::ShowScreen),
        WindowsStage::ShowScreen => WindowsStep::Perform(WindowsStage::CheckStatus),
        WindowsStage::CheckStatus => WindowsStep::Perform(WindowsStage::TakeFile),
        WindowsStage::TakeFile => WindowsStep::Perform(WindowsStage::GetPath),
        WindowsStage::GetPath => WindowsStep::Perform(WindowsStage::ReadFile),
        WindowsStage::ReadFile => WindowsStep::Finish,
    }
}

/// How taking a photo goes on, on Windows.
pub fn windows_step(stage: WindowsStage, outcome: StageOutcome) -> (r: Result<WindowsStep>)
    ensures
        r == next_step(stage, outcome),
{
    match outcome {
        StageOutcome::Done => Ok(following(stage)),
        StageOutcome::Status(status) => match status {
            CaptureStatus::Started => Ok(WindowsStep::PumpMessages),
            CaptureStatus::Other => Ok(WindowsStep::Wait),
            CaptureStatus::Completed => Ok(following(stage)),
            CaptureStatus::Canceled => Err(Error::Cancelled),
            CaptureStatus::Error => Err(Error::Unknown),
        },
        StageOutcome::Path { empty } => if empty {
            Err(Error::Cancelled)
        } else {
            Ok(following(stage))
        },
        StageOutcome::Failed => Err(failure_of(stage)),
    }
}

/// The photo of the file. A side that could not be measured counts as zero.
pub fn windows_photo(jpeg_data: Vec<u8>, width: Option<u32>, height: Option<u32>) -> (r: PhotoData)
    ensures
        r@ == (PhotoModel {
            jpeg_data: jpeg_data@,
            width: match width {
                Some(width) => width,
                None => 0,
            },
            height: match height {
                Some(height) => height,
                None => 0,
            },
        }),
{
    let width: u32 = match width {
        Some(width) => width,
        None => 0,
    };
    let height: u32 = match height {
        Some(height) => height,
        None => 0,
    };
    PhotoData::new(jpeg_data, width, height)
}

/// Taking a photo goes through its stages one after another, up to reading the file; each goes well or
/// ends it.
pub proof fn stages_follow_one_another()
    ensures
        stage_after(WindowsStage::PrepareThread) == WindowsStep::Perform(WindowsStage::MakeScreen),
        stage_after(WindowsStage::MakeScreen) == WindowsStep::Perform(WindowsStage::GetSettings),
        stage_after(WindowsStage::GetSettings) == WindowsStep::Perform(WindowsStage::ChooseFormat),
        stage_after(WindowsStage::ChooseFormat) == WindowsStep::Perform(WindowsStage::ShowScreen),
        stage_after(WindowsStage::ShowScreen) == WindowsStep::Perform(WindowsStage::CheckStatus),
        stage_after(WindowsStage::CheckStatus) == WindowsStep::Perform(WindowsStage::TakeFile),
        stage_after(WindowsStage::TakeFile) == WindowsStep::Perform(WindowsStage::GetPath),
        stage_after(WindowsStage::GetPath) == WindowsStep::Perform(WindowsStage::ReadFile),
        stage_after(WindowsStage::ReadFile) == WindowsStep::Finish,
{
}

/// What comes of a stage decides how it goes on: a stage that went well leads to the next, a user who is
/// not done is waited for, and one who is gone has changed their mind.
pub proof fn outcomes_decide(stage: WindowsStage, outcome: StageOutcome)
    ensures
        next_step(stage, outcome) == Ok::<WindowsStep, Error>(stage_after(stage)) <==> {
            ||| outcome == StageOutcome::Done
            ||| outcome == StageOutcome::Status(CaptureStatus::Completed)
            ||| outcome == (StageOutcome::Path { empty: false })
        },
        next_step(stage, outcome) == Ok::<WindowsStep, Error>(WindowsStep::PumpMessages) <==> outcome
            == StageOutcome::Status(CaptureStatus::Started),
        next_step(stage, outcome) == Ok::<WindowsStep, Error>(WindowsStep::Wait) <==> outcome
            == StageOutcome::Status(CaptureStatus::Other),
        next_step(stage, outcome) == Err::<WindowsStep, Error>(Error::Cancelled) <==> {
            ||| outcome == StageOutcome::Status(CaptureStatus::Canceled)
            ||| outcome == (StageOutcome::Path { empty: true })
            ||| outcome == StageOutcome::Failed && stage == WindowsStage::GetPath
        },
        outcome == StageOutcome::Status(CaptureStatus::Error) ==> next_step(stage, outcome) == Err::<
            WindowsStep,
            Error,
        >(Error::Unknown),
        next_step(stage, outcome) == Err::<WindowsStep, Error>(Error::CameraUnavailable) <==> outcome
            == StageOutcome::Failed && (stage == WindowsStage::MakeScreen || stage
            == WindowsStage::ShowScreen),
        next_step(stage, outcome) == Err::<WindowsStep, Error>(Error::ProcessingFailed) <==> outcome
            == StageOutcome::Failed && stage == WindowsStage::ReadFile,
        next_step(stage, outcome) is Err && outcome == StageOutcome::Failed && stage
            != WindowsStage::MakeScreen && stage != WindowsStage::ShowScreen && stage
            != WindowsStage::GetPath && stage != WindowsStage::ReadFile ==> next_step(stage, outcome)
            == Err::<WindowsStep, Error>(Error::Unknown),
{
}

/// A user who leaves the camera screen, or comes back without a photo, is told of no failure but
/// that they changed their mind.
pub proof fn leaving_is_no_failure()
    ensures
        next_step(WindowsStage::CheckStatus, StageOutcome::Status(CaptureStatus::Canceled)) == Err::<
            WindowsStep,
            Error,
        >(Error::Cancelled),
        next_step(WindowsStage::GetPath, StageOutcome::Path { empty: true }) == Err::<
            WindowsStep,
            Error,
        >(Error::Cancelled),
        next_step(WindowsStage::GetPath, StageOutcome::Failed) == Err::<WindowsStep, Error>(
            Error::Cancelled,
        ),
{
}

} // verus!

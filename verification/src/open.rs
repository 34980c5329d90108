//! URIs, opened in whatever application the system has for them.

use crate::bus::IoFailure;
use vstd::prelude::*;

verus! {

/// What can go wrong while opening a URI.
#[derive(Clone, Copy, Debug, PartialEq, Eq, Structural)]
pub enum Error {
    /// The Android environment could not be reached.
    AndroidEnvironment,
    /// A call into Java failed.
    Java,
    /// The URI cannot be handed to the system.
    MalformedUri,
    /// Nothing on the system opens such a URI.
    NoHandler,
    /// Anything else.
    Unknown,
}

pub type Result<T> = std::result::Result<T, Error>;

/// What Android is asked to do with a URI unless something else is set.
pub const DEFAULT_ACTION: &'static str = "ACTION_VIEW";

/// The program that opens URIs on Linux.
pub const LINUX_OPENER: &'static str = "xdg-open";

/// A URI to open, and what to do with it where the system takes that.
#[derive(Clone, Copy, Debug)]
pub struct Uri<'a, 'b> {
    inner: &'a str,
    action: &'b str,
}

pub struct UriModel {
    pub inner: Seq<char>,
    pub action: Seq<char>,
}

impl UriModel {
    /// A URI with nothing else set.
    pub open spec fn plain(inner: Seq<char>) -> UriModel {
        UriModel { inner, action: DEFAULT_ACTION@ }
    }

    /// The URI with something else to do.
    pub open spec fn with_action(self, action: Seq<char>) -> UriModel {
        UriModel { action, ..self }
    }

    /// What the program that opens URIs on Linux is given.
    pub open spec fn linux_argument(self) -> Seq<char> {
        self.inner
    }
}

impl<'a, 'b> View for Uri<'a, 'b> {
    type V = UriModel;

    closed spec fn view(&self) -> UriModel {
        UriModel { inner: self.inner@, action: self.action@ }
    }
}

impl<'a, 'b> Uri<'a, 'b> {
    pub fn new(inner: &'a str) -> (r: Uri<'a, 'b>)
        ensures
            r@ == UriModel::plain(inner@),
    {
        Uri { inner, action: DEFAULT_ACTION }
    }

    pub fn is_empty(&self) -> (r: bool)
        ensures
            r == (self@.inner.len() == 0),
    {
        self.inner.is_empty()
    }

    /// Sets what the system is asked to do, where it takes that.
    pub fn action(self, action: &'b str) -> (r: Uri<'a, 'b>)
        ensures
            r@ == self@.with_action(action@),
    {
        Uri { inner: self.inner, action }
    }

    pub fn as_str(&self) -> (r: &'a str)
        ensures
            r@ == self@.inner,
    {
        self.inner
    }

    /// Whether the URI can be handed to the system: an empty one cannot.
    pub fn check(&self) -> (r: Result<()>)
        ensures
            r == if self@.inner.len() == 0 {
                Err::<(), Error>(Error::MalformedUri)
            } else {
                Ok(())
            },
    {
        if self.inner.is_empty() {
            Err(Error::MalformedUri)
        } else {
            Ok(())
        }
    }

    /// What the program that opens URIs on Linux is given: the URI, and nothing of the action.
    pub fn linux_argument(&self) -> (r: &'a str)
        ensures
            r@ == self@.linux_argument(),
    {
        self.inner
    }

    /// What Android is asked to do.
    pub fn android_action(&self) -> (r: &'b str)
        ensures
            r@ == self@.action,
    {
        self.action
    }
}

/// A URI is viewed unless something else is asked for, the last thing that is asked for counts, and the
/// URI itself never changes.
pub proof fn the_last_action_counts(inner: Seq<char>, first: Seq<char>, second: Seq<char>)
    ensures
        UriModel::plain(inner).inner == inner,
        UriModel::plain(inner).action == "ACTION_VIEW"@,
        UriModel::plain(inner).with_action(first).inner == inner,
        UriModel::plain(inner).with_action(first).action == first,
        UriModel::plain(inner).with_action(first).with_action(second).action == second,
        UriModel::plain(inner).with_action(first).linux_argument() == inner,
{
}

/// Linux takes no action: whatever is set, its program is given exactly the URI, and an empty URI
/// stays an empty one.
pub proof fn actions_make_no_difference_on_linux(inner: Seq<char>, action: Seq<char>)
    ensures
        UriModel::plain(inner).with_action(action).linux_argument() == UriModel::plain(
            inner,
        ).linux_argument(),
        UriModel::plain(inner).with_action(action).linux_argument() == inner,
        UriModel::plain(inner).with_action(action).inner.len() == 0 <==> inner.len() == 0,
{
}

/// What came of starting the program that opens URIs.
pub fn linux_outcome(started: std::result::Result<(), IoFailure>) -> (r: Result<()>)
    ensures
        r == match started {
            Ok(_) => Ok::<(), Error>(()),
            Err(IoFailure::NotFound) => Err(Error::NoHandler),
            Err(_) => Err(Error::Unknown),
        },
{
    match started {
        Ok(_) => Ok(()),
        Err(IoFailure::NotFound) => Err(Error::NoHandler),
        Err(_) => Err(Error::Unknown),
    }
}

/// Whether the program that opens URIs did so, by how it ended, if it did.
pub fn linux_opened(succeeded: Option<bool>) -> (r: bool)
    ensures
        r == (succeeded == Some(true)),
{
    match succeeded {
        Some(succeeded) => succeeded,
        None => false,
    }
}

/// What Android says to being asked to start an activity.
#[derive(Clone, Copy, Debug, PartialEq, Eq, Structural)]
pub enum ActivityStart {
    Started,
    /// It threw an exception: there is nothing to start.
    Exception,
    /// The call itself failed.
    CallFailed,
}

/// Whether something opened the URI.
pub fn android_opened(start: ActivityStart) -> (r: Result<bool>)
    ensures
        r == match start {
            ActivityStart::Started => Ok::<bool, Error>(true),
            ActivityStart::Exception => Ok(false),
            ActivityStart::CallFailed => Err(Error::Java),
        },
{
    match start {
        ActivityStart::Started => Ok(true),
        ActivityStart::Exception => Ok(false),
        ActivityStart::CallFailed => Err(Error::Java),
    }
}

/// What is to be told after Android was asked.
#[derive(Clone, Copy, Debug, PartialEq, Eq)]
pub struct AndroidOutcome {
    /// What the completion callback is called with, if it is called.
    pub completion: Option<bool>,
    pub result: Result<()>,
}

/// What is to be told after Android was asked. The completion callback learns whether something
/// opened the URI; it is not called where asking failed.
pub fn android_outcome(asked: std::result::Result<Result<bool>, ()>) -> (r: AndroidOutcome)
    ensures
        r == match asked {
            Ok(Ok(opened)) => AndroidOutcome {
                completion: Some(opened),
                result: if opened {
                    Ok(())
                } else {
                    Err(Error::NoHandler)
                },
            },
            Ok(Err(error)) => AndroidOutcome { completion: None, result: Err(error) },
            Err(_) => AndroidOutcome { completion: None, result: Err(Error::AndroidEnvironment) },
        },
{
    match asked {
        Ok(Ok(opened)) => AndroidOutcome {
            completion: Some(opened),
            result: if opened {
                Ok(())
            } else {
                Err(Error::NoHandler)
            },
        },
        Ok(Err(error)) => AndroidOutcome { completion: None, result: Err(error) },
        Err(_) => AndroidOutcome { completion: None, result: Err(Error::AndroidEnvironment) },
    }
}

} // verus!

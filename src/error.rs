use vstd::prelude::*;
use vstd::string::StringExecFns;

verus! {

/// Separator placed between a context message and the rendering of the
/// underlying error.
pub open spec fn arrow() -> Seq<char> {
    seq![' ', '-', '>', ' ']
}

/// Message of an error that wraps an underlying error: the context first,
/// then the rendering of the underlying error.
pub open spec fn wrapped_message(context: Seq<char>, detail: Seq<char>) -> Seq<char> {
    context + arrow() + detail
}

/// `context`, then `" -> "`, then `detail`, as a new string.
fn join_message(context: &str, detail: &str) -> (r: String)
    ensures
        r@ == wrapped_message(context@, detail@),
{
    let mut out = String::from_str(context);
    out.append(" -> ");
    proof {
        reveal_strlit(" -> ");
    }
    out.append(detail);
    out
}

/// An error raised inside the service process.
#[derive(Clone, Debug)]
pub struct ServiceError {
    pub message: String,
}

impl ServiceError {
    pub fn new(message: &str) -> (r: ServiceError)
        ensures
            r.message@ == message@,
    {
        ServiceError { message: String::from_str(message) }
    }

    /// Wraps an underlying error, given by its rendering `error`, under the
    /// context `message`.
    pub fn with(error: &str, message: &str) -> (r: ServiceError)
        ensures
            r.message@ == wrapped_message(message@, error@),
    {
        ServiceError { message: join_message(message, error) }
    }
}

/// An error raised on the administrative side.
#[derive(Clone, Debug)]
pub struct InstallerError {
    pub message: String,
}

impl InstallerError {
    pub fn new(message: &str) -> (r: InstallerError)
        ensures
            r.message@ == message@,
    {
        InstallerError { message: String::from_str(message) }
    }

    /// Wraps an underlying error, given by its rendering `error`, under the
    /// context `message`.
    pub fn with(error: &str, message: &str) -> (r: InstallerError)
        ensures
            r.message@ == wrapped_message(message@, error@),
    {
        InstallerError { message: join_message(message, error) }
    }
}

} // verus!

verus! {

/// The kinds of failure the administrative side reports. None is retried
/// automatically.
#[derive(Clone, Copy, Debug, PartialEq, Eq, Structural)]
pub enum AdminErrorKind {
    ConnectFailed,
    OpenFailed,
    CreateFailed,
    QueryFailed,
    StartFailed,
    StopFailed,
    DeleteFailed,
    /// The awaited state was not observed in time: the service may still be
    /// in transition.
    Timeout,
    /// The service is in a state from which no safe removal is defined.
    UnsupportedState,
}

} // verus!

//! What the services have in common: response codes, errors and the outcome of an export.

use vstd::prelude::*;

use crate::text::join;

verus! {

/// The call succeeded.
pub const RESPONSE_SUCCESS: u32 = 0;

/// The user or the caller cancelled the request.
pub const RESPONSE_CANCELLED: u32 = 1;

/// The request failed.
pub const RESPONSE_ERROR: u32 = 2;

/// An error that a method call answers with.
#[derive(Debug, PartialEq, Eq)]
pub enum BusError {
    Failed(String),
    AccessDenied(String),
    InvalidArgs(String),
}

/// A [`BusError`] as a mathematical value.
pub enum Fault {
    Failed(Seq<char>),
    AccessDenied(Seq<char>),
    InvalidArgs(Seq<char>),
}

impl View for BusError {
    type V = Fault;

    open spec fn view(&self) -> Fault {
        match self {
            BusError::Failed(text) => Fault::Failed(text@),
            BusError::AccessDenied(text) => Fault::AccessDenied(text@),
            BusError::InvalidArgs(text) => Fault::InvalidArgs(text@),
        }
    }
}

impl BusError {
    /// A generic failure with the given message.
    pub fn failed(text: &str) -> (err: BusError)
        ensures
            err@ == Fault::Failed(text@),
    {
        BusError::Failed(text.to_owned())
    }

    /// A refusal with the given message.
    pub fn access_denied(text: &str) -> (err: BusError)
        ensures
            err@ == Fault::AccessDenied(text@),
    {
        BusError::AccessDenied(text.to_owned())
    }

    /// A complaint about the arguments with the given message.
    pub fn invalid_args(text: &str) -> (err: BusError)
        ensures
            err@ == Fault::InvalidArgs(text@),
    {
        BusError::InvalidArgs(text.to_owned())
    }

    /// A generic failure whose message is `what` followed by the details in `why`.
    pub fn failed_because(what: &str, why: &str) -> (err: BusError)
        ensures
            err@ == Fault::Failed(what@ + why@),
    {
        BusError::Failed(join(what, why))
    }
}

/// How exporting an object at a path of the object server ended.
#[derive(Debug, PartialEq, Eq)]
pub enum ExportOutcome {
    /// The object is there now.
    Added,
    /// The path was taken.
    Exists,
    /// The object server failed; the text describes why.
    Failed(String),
}

/// The unique name of the client that sent a call, or an error if the call has no sender.
pub fn sender_from_header(sender: Option<String>) -> (r: Result<String, BusError>)
    ensures
        match sender {
            Some(name) => r == Ok::<String, BusError>(name),
            None => r is Err && r->Err_0@ == Fault::Failed("D-Bus call has no sender"@),
        },
{
    match sender {
        Some(name) => Ok(name),
        None => Err(BusError::failed("D-Bus call has no sender")),
    }
}

/// The client that left the bus, when a name-owner change says that one did: the name had an
/// owner and has none now.
pub fn disappeared_client(old_owner: Option<String>, new_owner: Option<String>) -> (r: Option<
    String,
>)
    ensures
        r == (if new_owner is None {
            old_owner
        } else {
            None
        }),
{
    if new_owner.is_some() {
        return None;
    }
    old_owner
}

} // verus!

//! The kinds of failure that the bridge reports.
use crate::codec::Codec;
use crate::value::Value;
use vstd::prelude::*;

verus! {

/// A failure of the bridge, returned as an ordinary result, never fatal.
#[derive(Debug, PartialEq)]
pub enum Error {
    /// The host explicitly rejected a fallible call; carries the host's payload.
    Command(Value),
    /// A host-provided value did not decode into the expected type; carries it.
    Decoding(Value),
    /// A local value could not be put into the host's encoded form.
    Encoding(String),
    /// Registration with the host failed before any message could flow.
    Registration(Value),
    /// A pending one-shot wait was torn down from elsewhere.
    Canceled,
}

impl Error {
    /// The payload of a host rejection decoded as `E`: `None` for any other
    /// kind of failure, or when the payload does not decode.
    pub fn command_payload<E: Codec>(&self) -> (r: Option<E>)
        ensures
            r matches Some(x) ==> (*self matches Error::Command(p) && E::decoded(p) == Some(
                x.deep_view(),
            )),
            r is None <==> !(*self matches Error::Command(p) && E::decoded(p) is Some),
    {
        match self {
            Error::Command(p) => E::from_value(p),
            _ => None,
        }
    }
}

} // verus!

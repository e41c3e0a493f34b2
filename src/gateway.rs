//! The host call gateway and resource handles.
use crate::codec::Codec;
use crate::error::Error;
use crate::value::{Value, field_of, text};
use vstd::prelude::*;

verus! {

/// An outbound request: a command name and its encoded arguments.
pub struct Invocation {
    pub command: String,
    pub args: Value,
}

/// Prepares the invocation of the host command `command` with `args`.
pub fn invoke(command: &str, args: Value) -> (r: Invocation)
    ensures
        r.command@ == command@,
        r.args == args,
{
    Invocation { command: text(command), args }
}

/// What an infallible call gives for the host's reply `reply`: the reply
/// decoded as `T`, or a decoding failure that carries it.
pub open spec fn invoke_outcome<T: Codec>(reply: Value) -> Result<T::V, Value> {
    match T::decoded(reply) {
        Some(m) => Ok(m),
        None => Err(reply),
    }
}

/// Completes an infallible call from the host's reply.
pub fn complete_invoke<T: Codec>(reply: Value) -> (r: Result<T, Error>)
    ensures
        r matches Ok(x) ==> invoke_outcome::<T>(reply) == Ok::<T::V, Value>(x.deep_view()),
        r matches Err(e) ==> e == Error::Decoding(reply) && T::decoded(reply) is None,
{
    match T::from_value(&reply) {
        Some(x) => Ok(x),
        None => Err(Error::Decoding(reply)),
    }
}

/// Completes a fallible call from the host's reply: a rejection becomes a
/// command failure carrying the host's payload, distinct from a reply that
/// does not decode.
pub fn complete_invoke_result<T: Codec>(reply: Result<Value, Value>) -> (r: Result<T, Error>)
    ensures
        reply matches Err(p) ==> r == Err::<T, Error>(Error::Command(p)),
        reply matches Ok(v) ==> (match r {
            Ok(x) => T::decoded(v) == Some(x.deep_view()),
            Err(e) => e == Error::Decoding(v) && T::decoded(v) is None,
        }),
{
    match reply {
        Ok(v) => complete_invoke(v),
        Err(p) => Err(Error::Command(p)),
    }
}

/// The arguments `{ rid }` that address the host object `rid`.
pub open spec fn rid_args(rid: u64, v: Value) -> bool {
    &&& v is Object
    &&& (field_of(v, "rid"@) matches Some(f) && u64::encodes(rid, f))
}

/// An object `{ rid }`.
pub fn rid_value(rid: u64) -> (v: Value)
    ensures
        rid_args(rid, v),
{
    let mut fields: Vec<(String, Value)> = Vec::new();
    crate::value::push_field(&mut fields, "rid", rid.to_value());
    Value::Object(fields)
}

/// A reference to a host-side object, identified by the id the host gave it.
///
/// Closing consumes the handle, so it is released at most once; nothing
/// closes it implicitly.
#[derive(Clone)]
pub struct Resource {
    rid: u64,
}

impl View for Resource {
    type V = u64;

    closed spec fn view(&self) -> u64 {
        self.rid
    }
}

impl Resource {
    pub fn new(rid: u64) -> (r: Resource)
        ensures
            r@ == rid,
    {
        Resource { rid }
    }

    pub fn rid(&self) -> (r: u64)
        ensures
            r == self@,
    {
        self.rid
    }

    /// The single invocation that releases the host object.
    pub fn close(self) -> (r: Invocation)
        ensures
            r.command@ == "plugin:resources|close"@,
            rid_args(self@, r.args),
    {
        invoke("plugin:resources|close", rid_value(self.rid))
    }
}

} // verus!

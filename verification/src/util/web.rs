//! JSON replies as plain values: a status and a body that is either the
//! success side or the error side of the envelope.

use crate::util::{w_err, w_ok};
use vstd::prelude::*;

verus! {

/// A JSON reply: the HTTP status and the enveloped body.
#[derive(Debug)]
pub struct JsonReply<T, E> {
    pub status: u16,
    pub body: Result<T, E>,
}

/// A JSON error reply with the given status.
pub fn json_err<E>(status: u16, json: E) -> (reply: JsonReply<(), E>)
    ensures
        reply.status == status,
        reply.body == Err::<(), E>(json),
{
    JsonReply { status, body: w_err(json) }
}

/// A JSON success reply with status 200.
pub fn json_ok<T>(json: T) -> (reply: JsonReply<T, ()>)
    ensures
        reply.status == 200,
        reply.body == Ok::<T, ()>(json),
{
    JsonReply { status: 200, body: w_ok(json) }
}

/// A JSON success reply with the given status, for answers that are valid
/// data although their status is not 200.
pub fn json_ok_status<T>(status: u16, json: T) -> (reply: JsonReply<T, ()>)
    ensures
        reply.status == status,
        reply.body == Ok::<T, ()>(json),
{
    JsonReply { status, body: w_ok(json) }
}

} // verus!

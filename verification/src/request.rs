//! The client's request payload: the source code to run and a wall-clock
//! budget, carried inside the session's first frame.

use vstd::prelude::*;

verus! {

/// What a session runs: the full source text, and the caller-requested
/// wall-clock budget in milliseconds for the run phase, enforced as a hard
/// deadline.
pub struct ExecRequest {
    pub code: Vec<u8>,
    pub timeout_ms: u64,
}

/// The serialized form of a request payload: `code` then `timeout_ms`, in
/// the binary encoding the wire protocol fixes. The decoder below is the
/// only authority on this byte sequence; the codec never inspects it.
pub uninterp spec fn exec_request_bytes(code: Seq<u8>, timeout_ms: u64) -> Seq<u8>;

/// Relies on `bincode::decode_from_slice` with `bincode::config::standard()`:
/// decoding is deterministic and returns exactly the value a standard-config
/// encoding of `(code, timeout_ms)` was made from, so a payload equal to such
/// an encoding decodes to that pair and to nothing else.
#[verifier::external_body]
fn decode_request_payload(payload: &[u8]) -> (r: Option<(Vec<u8>, u64)>)
    ensures
        forall|c: Seq<u8>, t: u64|
            payload@ == exec_request_bytes(c, t) ==> (r is Some && (r->0).0@ == c && (r->0).1
                == t),
{
    match bincode::decode_from_slice::<(Vec<u8>, u64), _>(payload, bincode::config::standard()) {
        Ok(((code, timeout_ms), _)) => Some((code, timeout_ms)),
        Err(_) => None,
    }
}

/// Parse the payload of the session's first frame.
///
/// A payload that is the serialized form of some request yields exactly that
/// request; `None` marks a malformed payload, fatal to the session.
pub fn parse_exec_request(payload: &[u8]) -> (r: Option<ExecRequest>)
    ensures
        forall|c: Seq<u8>, t: u64|
            payload@ == exec_request_bytes(c, t) ==> (r is Some && r->0.code@ == c
                && r->0.timeout_ms == t),
{
    match decode_request_payload(payload) {
        Some((code, timeout_ms)) => Some(ExecRequest { code, timeout_ms }),
        None => None,
    }
}

} // verus!

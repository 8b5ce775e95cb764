//! The binary call gateway: how request and response payloads travel in
//! buffers, under two conventions that differ in nothing but the way a
//! buffer tells where its payload ends.

use vstd::prelude::*;
use vstd::slice::{slice_subrange, slice_to_vec};
use crate::boundary::{
    CallResponse, CallResponseView, Mode, Outcome, Settlement, SettlementView,
};
use crate::dispatch::{dispatch, served, Decoded};
use crate::error::{spec_message, ErrorKind, ServiceError, ServiceErrorView};
use crate::method::Method;
use crate::plugin::{PluginCallback, ServiceHandle};

verus! {

/// The byte that ends a terminator-delimited buffer.
pub const TERMINATOR: u8 = 0;

/// A payload can travel terminator-delimited exactly when it holds no
/// terminator byte.
pub open spec fn terminator_free(payload: Seq<u8>) -> bool {
    forall|i: int| 0 <= i < payload.len() ==> payload[i] != TERMINATOR
}

/// `payload` is what a terminator-delimited buffer carries: the bytes
/// before its first terminator.
pub open spec fn is_terminated_payload(buffer: Seq<u8>, payload: Seq<u8>) -> bool {
    &&& payload.len() < buffer.len()
    &&& buffer[payload.len() as int] == TERMINATOR
    &&& payload == buffer.subrange(0, payload.len() as int)
    &&& terminator_free(payload)
}

/// The terminator-delimited buffer that carries `payload`.
pub open spec fn spec_terminated(payload: Seq<u8>) -> Seq<u8> {
    payload.push(TERMINATOR)
}

/// Whether `payload` can be sent in a terminator-delimited buffer.
pub fn fits_terminated(payload: &[u8]) -> (fits: bool)
    ensures
        fits == terminator_free(payload@),
{
    let mut i: usize = 0;
    while i < payload.len()
        invariant
            i <= payload.len(),
            forall|j: int| 0 <= j < i ==> payload@[j] != TERMINATOR,
        decreases payload.len() - i,
    {
        if payload[i] == TERMINATOR {
            return false;
        }
        i += 1;
    }
    true
}

/// Reads the payload of a terminator-delimited buffer: the bytes before
/// its first terminator. A buffer without a terminator carries nothing.
pub fn read_terminated(buffer: &[u8]) -> (payload: Option<Vec<u8>>)
    ensures
        match payload {
            Some(p) => is_terminated_payload(buffer@, p@),
            None => terminator_free(buffer@),
        },
{
    let mut i: usize = 0;
    while i < buffer.len()
        invariant
            i <= buffer.len(),
            forall|j: int| 0 <= j < i ==> buffer@[j] != TERMINATOR,
        decreases buffer.len() - i,
    {
        if buffer[i] == TERMINATOR {
            let payload = slice_to_vec(slice_subrange(buffer, 0, i));
            return Some(payload);
        }
        i += 1;
    }
    None
}

/// Reads the payload of an explicit-length buffer: its first `length`
/// bytes, whatever they are. A buffer shorter than `length` carries
/// nothing.
pub fn read_with_length(buffer: &[u8], length: usize) -> (payload: Option<Vec<u8>>)
    ensures
        match payload {
            Some(p) => length <= buffer@.len() && p@ == buffer@.subrange(0, length as int),
            None => length > buffer@.len(),
        },
{
    if length <= buffer.len() {
        Some(slice_to_vec(slice_subrange(buffer, 0, length)))
    } else {
        None
    }
}

/// Writes `payload` into a terminator-delimited buffer, if it can travel
/// that way.
pub fn write_terminated(payload: &[u8]) -> (buffer: Option<Vec<u8>>)
    ensures
        match buffer {
            Some(b) => terminator_free(payload@) && b@ == spec_terminated(payload@),
            None => !terminator_free(payload@),
        },
{
    if fits_terminated(payload) {
        let mut buffer = slice_to_vec(payload);
        buffer.push(TERMINATOR);
        Some(buffer)
    } else {
        None
    }
}

/// What a call hands to the host.
#[derive(Clone, Debug, PartialEq, Eq)]
pub enum Returned {
    /// A complete response. The host owns the buffer from here on and
    /// gives it back through the release operation that goes with the
    /// call, once.
    Buffer { bytes: Vec<u8>, length: usize },
    /// The call failed. There is no payload.
    Error(String),
    /// A fault is to go on with this text. There is no response.
    Resurface(String),
}

/// What a call hands to the host, as contracts see it.
pub enum ReturnedView {
    Buffer { bytes: Seq<u8>, length: nat },
    Error(Seq<char>),
    Resurface(Seq<char>),
}

impl View for Returned {
    type V = ReturnedView;

    open spec fn view(&self) -> ReturnedView {
        match self {
            Returned::Buffer { bytes, length } => ReturnedView::Buffer {
                bytes: bytes@,
                length: *length as nat,
            },
            Returned::Error(text) => ReturnedView::Error(text@),
            Returned::Resurface(text) => ReturnedView::Resurface(text@),
        }
    }
}

/// The failure for a response that holds the terminator byte and so
/// cannot travel terminator-delimited.
pub open spec fn spec_unfit_response() -> ServiceErrorView {
    ServiceErrorView {
        kind: ErrorKind::MalformedPayload,
        detail: "the response holds the terminator byte"@,
    }
}

/// The failure for a request buffer without a terminator.
pub open spec fn spec_unterminated_request() -> ServiceErrorView {
    ServiceErrorView {
        kind: ErrorKind::MalformedPayload,
        detail: "the request has no terminator"@,
    }
}

/// What the host gets for a settlement when responses travel with their
/// length: every payload, whole, with its length beside it.
pub open spec fn spec_deliver_with_length(settlement: SettlementView) -> ReturnedView {
    match settlement {
        SettlementView::Reply(CallResponseView::Payload(p)) => ReturnedView::Buffer {
            bytes: p,
            length: p.len(),
        },
        SettlementView::Reply(CallResponseView::Error(text)) => ReturnedView::Error(text),
        SettlementView::Resurface(text) => ReturnedView::Resurface(text),
    }
}

/// What the host gets for a settlement when responses travel
/// terminator-delimited: a payload without terminator byte, whole and
/// closed by the terminator; for any other payload an error and no part
/// of it.
pub open spec fn spec_deliver_terminated(settlement: SettlementView) -> ReturnedView {
    match settlement {
        SettlementView::Reply(CallResponseView::Payload(p)) => if terminator_free(p) {
            ReturnedView::Buffer { bytes: spec_terminated(p), length: p.len() }
        } else {
            ReturnedView::Error(spec_message(spec_unfit_response()))
        },
        SettlementView::Reply(CallResponseView::Error(text)) => ReturnedView::Error(text),
        SettlementView::Resurface(text) => ReturnedView::Resurface(text),
    }
}

/// Hands a settlement to the host, the response with its length.
pub fn deliver_with_length(settlement: Settlement) -> (returned: Returned)
    ensures
        returned@ == spec_deliver_with_length(settlement@),
{
    match settlement {
        Settlement::Reply(CallResponse::Payload(bytes)) => {
            let length = bytes.len();
            Returned::Buffer { bytes, length }
        },
        Settlement::Reply(CallResponse::Error(text)) => Returned::Error(text),
        Settlement::Resurface(text) => Returned::Resurface(text),
    }
}

/// Hands a settlement to the host, the response terminator-delimited.
pub fn deliver_terminated(settlement: Settlement) -> (returned: Returned)
    ensures
        returned@ == spec_deliver_terminated(settlement@),
{
    match settlement {
        Settlement::Reply(CallResponse::Payload(payload)) => {
            match write_terminated(payload.as_slice()) {
                Some(bytes) => Returned::Buffer { bytes, length: payload.len() },
                None => {
                    let e = ServiceError::new(
                        ErrorKind::MalformedPayload,
                        "the response holds the terminator byte",
                    );
                    Returned::Error(e.message())
                },
            }
        },
        Settlement::Reply(CallResponse::Error(text)) => Returned::Error(text),
        Settlement::Resurface(text) => Returned::Resurface(text),
    }
}

/// Serves a call whose request and response travel terminator-delimited.
///
/// The request is the bytes of `buffer` before its first terminator; a
/// buffer without one is answered as malformed and nothing is run.
pub fn call<P, R, D, H>(
    handle: &ServiceHandle<P>,
    name: &str,
    buffer: &[u8],
    decode: D,
    run: H,
) -> (returned: Returned)
    where
        P: PluginCallback,
        D: FnOnce(Method, &[u8]) -> Result<Decoded<R>, String>,
        H: FnOnce(&ServiceHandle<P>, Method, R, Mode) -> Outcome,
    requires
        forall|m: Method, payload: &[u8]| call_requires(decode, (m, payload)),
        forall|m: Method, request: R, mode: Mode| call_requires(run, (handle, m, request, mode)),
    ensures
        terminator_free(buffer@) ==> returned@ == ReturnedView::Error(
            spec_message(spec_unterminated_request()),
        ),
        !terminator_free(buffer@) ==> exists|payload: &[u8], settlement: SettlementView|
            #![trigger served(handle, name@, payload, decode, run, settlement)]
            is_terminated_payload(buffer@, payload@) && served(
                handle,
                name@,
                payload,
                decode,
                run,
                settlement,
            ) && returned@ == spec_deliver_terminated(settlement),
{
    match read_terminated(buffer) {
        None => {
            let e = ServiceError::new(ErrorKind::MalformedPayload, "the request has no terminator");
            Returned::Error(e.message())
        },
        Some(payload) => {
            let request: &[u8] = payload.as_slice();
            let settlement = dispatch(handle, name, request, decode, run);
            proof {
                assert(served(handle, name@, request, decode, run, settlement@));
            }
            deliver_terminated(settlement)
        },
    }
}

/// Serves a call whose request is `payload`, every byte of it, and whose
/// response travels with its length.
pub fn call_with_length<P, R, D, H>(
    handle: &ServiceHandle<P>,
    name: &str,
    payload: &[u8],
    decode: D,
    run: H,
) -> (returned: Returned)
    where
        P: PluginCallback,
        D: FnOnce(Method, &[u8]) -> Result<Decoded<R>, String>,
        H: FnOnce(&ServiceHandle<P>, Method, R, Mode) -> Outcome,
    requires
        forall|m: Method| call_requires(decode, (m, payload)),
        forall|m: Method, request: R, mode: Mode| call_requires(run, (handle, m, request, mode)),
    ensures
        exists|settlement: SettlementView|
            #![trigger served(handle, name@, payload, decode, run, settlement)]
            served(handle, name@, payload, decode, run, settlement) && returned@
                == spec_deliver_with_length(settlement),
{
    let settlement = dispatch(handle, name, payload, decode, run);
    proof {
        assert(served(handle, name@, payload, decode, run, settlement@));
    }
    deliver_with_length(settlement)
}

/// A terminator-delimited buffer carries one payload and no other.
pub proof fn lemma_terminated_payload_is_unique(buffer: Seq<u8>, p: Seq<u8>, q: Seq<u8>)
    requires
        is_terminated_payload(buffer, p),
        is_terminated_payload(buffer, q),
    ensures
        p == q,
{
    if p.len() < q.len() {
        assert(q[p.len() as int] == buffer[p.len() as int]);
    } else if q.len() < p.len() {
        assert(p[q.len() as int] == buffer[q.len() as int]);
    }
}

/// What is written terminator-delimited is read back as it was, and a
/// buffer without a terminator in its payload is the same payload under
/// both conventions. With its length beside it every payload is read back
/// as it was, whatever bytes it holds.
pub proof fn lemma_conventions_agree(payload: Seq<u8>)
    ensures
        terminator_free(payload) ==> is_terminated_payload(spec_terminated(payload), payload),
        spec_terminated(payload).subrange(0, payload.len() as int) == payload,
        payload.subrange(0, payload.len() as int) == payload,
        !terminator_free(payload) ==> !is_terminated_payload(spec_terminated(payload), payload),
{
    assert(spec_terminated(payload).subrange(0, payload.len() as int) =~= payload);
    assert(payload.subrange(0, payload.len() as int) =~= payload);
}

/// The two conventions hand the host the same thing for every settlement
/// whose payload holds no terminator byte, but for the closing terminator:
/// the same payload of the same length, the same error, the same fault.
pub proof fn lemma_deliveries_agree(settlement: SettlementView)
    requires
        settlement matches SettlementView::Reply(CallResponseView::Payload(p)) ==> terminator_free(
            p,
        ),
    ensures
        match (spec_deliver_terminated(settlement), spec_deliver_with_length(settlement)) {
            (
                ReturnedView::Buffer { bytes: a, length: n },
                ReturnedView::Buffer { bytes: b, length: k },
            ) => n == k && a == spec_terminated(b) && is_terminated_payload(a, b),
            (a, b) => a == b,
        },
{
    if let SettlementView::Reply(CallResponseView::Payload(p)) = settlement {
        lemma_conventions_agree(p);
    }
}

} // verus!

//! The dispatcher: from a method name and a request payload to what the
//! host gets back.

use vstd::prelude::*;
use crate::boundary::{
    error_response, mode_for, settle, spec_error_response, spec_mode_for, spec_settle,
    CallResponseView, Mode, Outcome, OutcomeView, Settlement, SettlementView,
};
use crate::error::{ErrorKind, ServiceError, ServiceErrorView};
use crate::method::{lemma_names_are_distinct, Method};
use crate::plugin::{PluginCallback, ServiceHandle};

verus! {

/// The payload of a request in one of its two encodings. Both decode to
/// the same logical request.
#[derive(Clone, Debug, PartialEq, Eq)]
pub enum Payload {
    /// The encoding of the call boundary.
    Binary(Vec<u8>),
    /// The encoding of fixtures and configuration.
    Text(String),
}

/// A request as a host makes it: the name of a method and a payload that
/// the service layer does not look into.
#[derive(Clone, Debug, PartialEq, Eq)]
pub struct CallRequest {
    pub method: String,
    pub payload: Payload,
}

/// A request after decoding: the logical request, and whether it asks for
/// compilation only.
pub struct Decoded<R> {
    pub request: R,
    pub compile_only: bool,
}

/// The reply to a name that names no operation.
pub open spec fn spec_unknown_method(name: Seq<char>) -> SettlementView {
    SettlementView::Reply(
        spec_error_response(ServiceErrorView { kind: ErrorKind::UnknownMethod, detail: name }),
    )
}

/// The reply to a payload that does not decode; `why` is what the decoder
/// said.
pub open spec fn spec_malformed_payload(why: Seq<char>) -> SettlementView {
    SettlementView::Reply(
        spec_error_response(ServiceErrorView { kind: ErrorKind::MalformedPayload, detail: why }),
    )
}

/// Finds the operation that `name` names.
///
/// Fails with `UnknownMethod` about `name` exactly when the registry holds
/// no operation of that name.
pub fn route(name: &str) -> (routed: Result<Method, ServiceError>)
    ensures
        match routed {
            Ok(m) => m.spec_name() == name@,
            Err(e) => !Method::is_registered(name@) && e@ == (ServiceErrorView {
                kind: ErrorKind::UnknownMethod,
                detail: name@,
            }),
        },
{
    match Method::from_name(name) {
        Some(m) => Ok(m),
        None => Err(ServiceError::new(ErrorKind::UnknownMethod, name)),
    }
}

/// What `dispatch` may hand back for a call.
///
/// A name that names no operation is answered as unknown. Otherwise
/// `decode` is asked for the logical request of the operation; what it
/// cannot decode is answered as malformed. Otherwise the reply is what the
/// boundary settles for an outcome of `run` on the operation, the logical
/// request and the mode the request asks for.
pub open spec fn served<P, R, A, D, H>(
    handle: &ServiceHandle<P>,
    name: Seq<char>,
    payload: A,
    decode: D,
    run: H,
    settlement: SettlementView,
) -> bool where
    P: PluginCallback,
    D: FnOnce(Method, A) -> Result<Decoded<R>, String>,
    H: FnOnce(&ServiceHandle<P>, Method, R, Mode) -> Outcome,
 {
    if Method::is_registered(name) {
        exists|decoded: Result<Decoded<R>, String>|
            #![trigger call_ensures(decode, (Method::spec_lookup(name), payload), decoded)]
            call_ensures(decode, (Method::spec_lookup(name), payload), decoded) && match decoded {
                Err(why) => settlement == spec_malformed_payload(why@),
                Ok(d) => ran(handle, Method::spec_lookup(name), d, run, settlement),
            }
    } else {
        settlement == spec_unknown_method(name)
    }
}

/// What `dispatch` may hand back once the request is decoded: what the
/// boundary settles for an outcome of `run`.
pub open spec fn ran<P, R, H>(
    handle: &ServiceHandle<P>,
    m: Method,
    d: Decoded<R>,
    run: H,
    settlement: SettlementView,
) -> bool where
    P: PluginCallback,
    H: FnOnce(&ServiceHandle<P>, Method, R, Mode) -> Outcome,
 {
    exists|outcome: Outcome|
        #![trigger call_ensures(run, (handle, m, d.request, spec_mode_for(d.compile_only)), outcome)]
        call_ensures(run, (handle, m, d.request, spec_mode_for(d.compile_only)), outcome) && settlement
            == spec_settle(spec_mode_for(d.compile_only), outcome@)
}

/// What `serve` may hand back for a request: what `dispatch` may hand back
/// for its method name and its payload, read by the decoder of the
/// encoding the payload is in.
pub open spec fn served_request<P, R, B, T, H>(
    handle: &ServiceHandle<P>,
    request: &CallRequest,
    decode_binary: B,
    decode_text: T,
    run: H,
    settlement: SettlementView,
) -> bool where
    P: PluginCallback,
    B: FnOnce(Method, &[u8]) -> Result<Decoded<R>, String>,
    T: FnOnce(Method, &str) -> Result<Decoded<R>, String>,
    H: FnOnce(&ServiceHandle<P>, Method, R, Mode) -> Outcome,
 {
    match request.payload {
        Payload::Binary(bytes) => exists|payload: &[u8]|
            #![trigger served(handle, request.method@, payload, decode_binary, run, settlement)]
            payload@ == bytes@ && served(
                handle,
                request.method@,
                payload,
                decode_binary,
                run,
                settlement,
            ),
        Payload::Text(text) => exists|payload: &str|
            #![trigger served(handle, request.method@, payload, decode_text, run, settlement)]
            payload@ == text@ && served(
                handle,
                request.method@,
                payload,
                decode_text,
                run,
                settlement,
            ),
    }
}

/// Serves one call.
///
/// The name is routed first: for a name that names no operation neither
/// `decode` nor `run` is called. Then `decode` turns the payload into the
/// logical request of that operation; if it cannot, `run` is not called.
/// Then `run` performs the operation on the logical request alone, in the
/// mode the request asks for, and the boundary settles what it returns.
pub fn dispatch<P, R, A, D, H>(
    handle: &ServiceHandle<P>,
    name: &str,
    payload: A,
    decode: D,
    run: H,
) -> (settlement: Settlement)
    where
        P: PluginCallback,
        D: FnOnce(Method, A) -> Result<Decoded<R>, String>,
        H: FnOnce(&ServiceHandle<P>, Method, R, Mode) -> Outcome,
    requires
        forall|m: Method| call_requires(decode, (m, payload)),
        forall|m: Method, request: R, mode: Mode| call_requires(run, (handle, m, request, mode)),
    ensures
        served(handle, name@, payload, decode, run, settlement@),
{
    match route(name) {
        Err(e) => Settlement::Reply(error_response(&e)),
        Ok(m) => {
            proof {
                lemma_names_are_distinct(m, Method::spec_lookup(name@));
            }
            match decode(m, payload) {
                Err(why) => {
                    let e = ServiceError { kind: ErrorKind::MalformedPayload, detail: why };
                    Settlement::Reply(error_response(&e))
                },
                Ok(d) => {
                    let mode = mode_for(d.compile_only);
                    let outcome = run(handle, m, d.request, mode);
                    settle(mode, outcome)
                },
            }
        },
    }
}

/// Serves one request, in whichever encoding its payload is.
///
/// A binary payload is read by `decode_binary` and a text payload by
/// `decode_text`; from there on the two are served in one way, by
/// `dispatch`.
pub fn serve<P, R, B, T, H>(
    handle: &ServiceHandle<P>,
    request: &CallRequest,
    decode_binary: B,
    decode_text: T,
    run: H,
) -> (settlement: Settlement)
    where
        P: PluginCallback,
        B: FnOnce(Method, &[u8]) -> Result<Decoded<R>, String>,
        T: FnOnce(Method, &str) -> Result<Decoded<R>, String>,
        H: FnOnce(&ServiceHandle<P>, Method, R, Mode) -> Outcome,
    requires
        forall|m: Method, payload: &[u8]| call_requires(decode_binary, (m, payload)),
        forall|m: Method, payload: &str| call_requires(decode_text, (m, payload)),
        forall|m: Method, request: R, mode: Mode| call_requires(run, (handle, m, request, mode)),
    ensures
        served_request(handle, request, decode_binary, decode_text, run, settlement@),
{
    match &request.payload {
        Payload::Binary(bytes) => {
            let payload: &[u8] = bytes.as_slice();
            let settlement = dispatch(handle, request.method.as_str(), payload, decode_binary, run);
            proof {
                assert(served(handle, request.method@, payload, decode_binary, run, settlement@));
            }
            settlement
        },
        Payload::Text(text) => {
            let payload: &str = text.as_str();
            let settlement = dispatch(handle, request.method.as_str(), payload, decode_text, run);
            proof {
                assert(served(handle, request.method@, payload, decode_text, run, settlement@));
            }
            settlement
        },
    }
}

/// Calling through the dispatcher gives what calling the operation itself
/// gives. Let the payload decode to the logical request `d` and no other,
/// and let the operation, run on `d`, complete with `result` and nothing
/// else. Then the reply to the call is the payload `result`, byte for
/// byte, so every decoder `read` reads the same value from both.
pub proof fn lemma_dispatch_matches_direct_call<P, R, A, D, H, V>(
    handle: &ServiceHandle<P>,
    m: Method,
    payload: A,
    decode: D,
    run: H,
    d: Decoded<R>,
    result: Seq<u8>,
    settlement: SettlementView,
    read: spec_fn(Seq<u8>) -> V,
) where
    P: PluginCallback,
    D: FnOnce(Method, A) -> Result<Decoded<R>, String>,
    H: FnOnce(&ServiceHandle<P>, Method, R, Mode) -> Outcome,

    requires
        served(handle, m.spec_name(), payload, decode, run, settlement),
        forall|decoded: Result<Decoded<R>, String>|
            call_ensures(decode, (m, payload), decoded) ==> decoded == Ok::<Decoded<R>, String>(d),
        forall|outcome: Outcome|
            call_ensures(run, (handle, m, d.request, spec_mode_for(d.compile_only)), outcome) ==> outcome@
                == OutcomeView::Completed(result),
    ensures
        settlement matches SettlementView::Reply(CallResponseView::Payload(reply)) && reply
            == result && read(reply) == read(result),
{
    lemma_names_are_distinct(m, Method::spec_lookup(m.spec_name()));
}

/// The encoding of a request does not reach the engine. Let a binary
/// payload, read by the one decoder, and a text payload, read by the
/// other, decode to the same logical request `d` and no other. Then
/// whatever may be handed back for the one request may be handed back for
/// the other: the operation is run on `d` for both.
pub proof fn lemma_encodings_are_served_alike<P, R, B, T, H>(
    handle: &ServiceHandle<P>,
    m: Method,
    binary: &[u8],
    decode_binary: B,
    text: &str,
    decode_text: T,
    run: H,
    d: Decoded<R>,
    settlement: SettlementView,
) where
    P: PluginCallback,
    B: FnOnce(Method, &[u8]) -> Result<Decoded<R>, String>,
    T: FnOnce(Method, &str) -> Result<Decoded<R>, String>,
    H: FnOnce(&ServiceHandle<P>, Method, R, Mode) -> Outcome,

    requires
        call_ensures(decode_binary, (m, binary), Ok::<Decoded<R>, String>(d)),
        call_ensures(decode_text, (m, text), Ok::<Decoded<R>, String>(d)),
        forall|decoded: Result<Decoded<R>, String>|
            call_ensures(decode_binary, (m, binary), decoded) ==> decoded == Ok::<
                Decoded<R>,
                String,
            >(d),
        forall|decoded: Result<Decoded<R>, String>|
            call_ensures(decode_text, (m, text), decoded) ==> decoded == Ok::<Decoded<R>, String>(
                d,
            ),
    ensures
        served(handle, m.spec_name(), binary, decode_binary, run, settlement) <==> served(
            handle,
            m.spec_name(),
            text,
            decode_text,
            run,
            settlement,
        ),
        served(handle, m.spec_name(), binary, decode_binary, run, settlement) <==> ran(
            handle,
            m,
            d,
            run,
            settlement,
        ),
{
    lemma_names_are_distinct(m, Method::spec_lookup(m.spec_name()));
}

} // verus!

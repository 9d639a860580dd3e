//! The two-tier JSON fetch and the store-by-CID exchange.
//!
//! A fetch normalizes the CID to lowercase, tries a GET of the CID on the
//! mirror first, and falls back to the gateway's `cat` endpoint exactly when
//! the mirror's transport failed; a mirror body that will not decode is
//! terminal. A store submits a CID to the uploader and accepts only an
//! echo of the very same CID, byte for byte.
//!
//! The transport reports each exchange back as a [`LegOutcome`]; the
//! functions here turn those outcomes into the operation's result and
//! classify every error for the retry driver.

use vstd::prelude::*;
use vstd::string::StringExecFns;

use crate::http_client::{HttpClientError, LegOutcome, Method, PlannedRequest};
use crate::retry::ErrorClass;

verus! {

/// What `str::to_lowercase` yields: a function of the characters alone.
pub uninterp spec fn lower_of(s: Seq<char>) -> Seq<char>;

/// Relies on `str::to_lowercase`: the result depends on the input characters
/// alone, and an empty string stays empty.
#[verifier::external_body]
fn to_lowercase(s: &str) -> (r: String)
    ensures
        r@ == lower_of(s@),
        s@.len() == 0 ==> r@.len() == 0,
{
    s.to_lowercase()
}

/// The gateway path that streams the JSON document stored under a CID.
pub open spec fn cat_path_spec(cid: Seq<char>) -> Seq<char> {
    "/api/v0/cat?arg="@ + cid
}

/// Build the gateway `cat` path for a CID.
pub fn cat_path(cid: &str) -> (r: String)
    ensures
        r@ == cat_path_spec(cid@),
{
    let prefix: String = "/api/v0/cat?arg=".to_owned();
    prefix.concat(cid)
}

/// Why a two-tier fetch failed.
#[derive(Debug)]
pub enum FetchJsonError<E> {
    /// The request could not be constructed (the CID did not join onto the
    /// chosen base URL).
    RequestConstruction(HttpClientError),
    /// The HTTP exchange failed at the transport level.
    Request(E),
    /// The responding upstream's body did not decode as the requested shape.
    Deserialization(E),
}

/// The two requests a fetch of `cid` may make: a GET of the lowercased CID on
/// the mirror, and the gateway's fallback POST for the same lowercased CID.
pub fn fetch_requests(cid: &str) -> (r: (PlannedRequest, PlannedRequest))
    ensures
        r.0.method == Method::Get,
        r.0.path@ == lower_of(cid@),
        r.1.method == Method::Post,
        r.1.path@ == cat_path_spec(lower_of(cid@)),
{
    let lower = to_lowercase(cid);
    let fallback_path = cat_path(lower.as_str());
    (
        PlannedRequest { method: Method::Get, path: lower },
        PlannedRequest { method: Method::Post, path: fallback_path },
    )
}

/// What the mirror's outcome decides: the fetch is over, or the gateway is
/// consulted.
#[derive(Debug)]
pub enum MirrorStep<J, E> {
    /// The fetch ends here with this result; the gateway is never contacted.
    Done(Result<J, FetchJsonError<E>>),
    /// The mirror's transport failed: fall back to the gateway.
    FallBack,
}

/// The fetch's deliberate asymmetry, as a function of the mirror's outcome:
/// a construction failure is terminal, a transport failure falls back, and a
/// completed exchange is terminal — its decoded value on success, a
/// deserialization failure otherwise, with no fallback.
pub open spec fn fetch_mirror_step_spec<J, E>(leg: LegOutcome<J, E>) -> MirrorStep<J, E> {
    match leg {
        LegOutcome::Construction(e) => MirrorStep::Done(
            Err(FetchJsonError::RequestConstruction(e)),
        ),
        LegOutcome::Transport(_) => MirrorStep::FallBack,
        LegOutcome::Decoded(Ok(j)) => MirrorStep::Done(Ok(j)),
        LegOutcome::Decoded(Err(e)) => MirrorStep::Done(Err(FetchJsonError::Deserialization(e))),
    }
}

/// Decide how the fetch goes on after the mirror's exchange.
pub fn fetch_mirror_step<J, E>(leg: LegOutcome<J, E>) -> (r: MirrorStep<J, E>)
    ensures
        r == fetch_mirror_step_spec(leg),
{
    match leg {
        LegOutcome::Construction(e) => MirrorStep::Done(
            Err(FetchJsonError::RequestConstruction(e)),
        ),
        LegOutcome::Transport(_) => MirrorStep::FallBack,
        LegOutcome::Decoded(Ok(j)) => MirrorStep::Done(Ok(j)),
        LegOutcome::Decoded(Err(e)) => MirrorStep::Done(Err(FetchJsonError::Deserialization(e))),
    }
}

/// The gateway leg's result: every stage's failure keeps its own cause, and a
/// decoded body is the fetch's value.
pub open spec fn fetch_gateway_step_spec<J, E>(leg: LegOutcome<J, E>) -> Result<
    J,
    FetchJsonError<E>,
> {
    match leg {
        LegOutcome::Construction(e) => Err(FetchJsonError::RequestConstruction(e)),
        LegOutcome::Transport(e) => Err(FetchJsonError::Request(e)),
        LegOutcome::Decoded(Ok(j)) => Ok(j),
        LegOutcome::Decoded(Err(e)) => Err(FetchJsonError::Deserialization(e)),
    }
}

/// Turn the gateway's exchange into the fetch's result.
pub fn fetch_gateway_step<J, E>(leg: LegOutcome<J, E>) -> (r: Result<J, FetchJsonError<E>>)
    ensures
        r == fetch_gateway_step_spec(leg),
{
    match leg {
        LegOutcome::Construction(e) => Err(FetchJsonError::RequestConstruction(e)),
        LegOutcome::Transport(e) => Err(FetchJsonError::Request(e)),
        LegOutcome::Decoded(Ok(j)) => Ok(j),
        LegOutcome::Decoded(Err(e)) => Err(FetchJsonError::Deserialization(e)),
    }
}

/// How the retry driver treats each fetch failure: construction and transport
/// are worth repeating, a deserialization failure is not.
pub open spec fn classify_fetch_error_spec<E>(e: FetchJsonError<E>) -> ErrorClass {
    match e {
        FetchJsonError::Deserialization(_) => ErrorClass::Permanent,
        _ => ErrorClass::Transient,
    }
}

/// Classify a fetch failure for the retry driver.
pub fn classify_fetch_error<E>(e: &FetchJsonError<E>) -> (c: ErrorClass)
    ensures
        c == classify_fetch_error_spec(*e),
        c is Permanent <==> *e is Deserialization,
{
    match e {
        FetchJsonError::Deserialization(_) => ErrorClass::Permanent,
        _ => ErrorClass::Transient,
    }
}

/// A successful fetch hands back exactly the value decoded from the upstream
/// that responded: the mirror when its transport succeeded, the gateway when
/// the mirror's transport failed.
pub proof fn lemma_fetch_value_from_responding_upstream<J, E>(
    mirror_leg: LegOutcome<J, E>,
    gateway_leg: LegOutcome<J, E>,
    j: J,
)
    ensures
        fetch_mirror_step_spec(mirror_leg) == MirrorStep::<J, E>::Done(
            Ok::<J, FetchJsonError<E>>(j),
        ) ==> mirror_leg == LegOutcome::<J, E>::Decoded(Ok::<J, E>(j)),
        fetch_gateway_step_spec(gateway_leg) == Ok::<J, FetchJsonError<E>>(j) ==> gateway_leg
            == LegOutcome::<J, E>::Decoded(Ok::<J, E>(j)),
{
}

/// The two-tier fetch's asymmetry: the gateway is consulted exactly when the
/// mirror's transport failed, and a mirror body that completed the exchange
/// but failed to decode is a terminal deserialization failure — no fallback.
pub proof fn lemma_fetch_fallback_asymmetry<J, E>(mirror_leg: LegOutcome<J, E>)
    ensures
        fetch_mirror_step_spec(mirror_leg) == MirrorStep::<J, E>::FallBack <==> mirror_leg
            is Transport,
        mirror_leg matches LegOutcome::Decoded(Err(e)) ==> fetch_mirror_step_spec(mirror_leg)
            == MirrorStep::<J, E>::Done(
            Err::<J, FetchJsonError<E>>(FetchJsonError::Deserialization(e)),
        ),
{
}

/// Why a store of a CID failed.
#[derive(Debug)]
pub enum StoreCidIpfsError<E> {
    /// The request could not be constructed.
    RequestConstruction(HttpClientError),
    /// The HTTP exchange failed at the transport level.
    Request(E),
    /// The uploader's response did not decode as a single CID.
    Deserialization(E),
    /// The uploader echoed a different CID: got, then expected.
    CidMismatch(String, String),
}

/// The JSON body submitted to the uploader when storing a CID, and the shape
/// its response decodes to: a single CID.
#[derive(Debug, Clone)]
pub struct StoreCidRequestResponse {
    pub cid: String,
}

/// The request a store of `cid` makes against the uploader, with its body.
pub fn store_cid_request(cid: &str) -> (r: (PlannedRequest, StoreCidRequestResponse))
    ensures
        r.0.method == Method::Post,
        r.0.path@ == "/data/ipfs"@,
        r.1.cid@ == cid@,
{
    (
        PlannedRequest { method: Method::Post, path: "/data/ipfs".to_owned() },
        StoreCidRequestResponse { cid: cid.to_owned() },
    )
}

/// The request a store of a serialized JSON payload makes against the
/// uploader; the caller attaches the payload as the body and validates the
/// echoed CID with [`store_exchange_result`] against the expected CID.
pub fn store_json_request() -> (r: PlannedRequest)
    ensures
        r.method == Method::Post,
        r.path@ == "/data/json/ipfs"@,
{
    PlannedRequest { method: Method::Post, path: "/data/json/ipfs".to_owned() }
}

/// Turn the uploader's exchange into the store's result: every stage's
/// failure keeps its cause, and a completed exchange succeeds exactly when
/// the echoed CID equals the expected one byte for byte — neither side is
/// normalized.
pub fn store_exchange_result<E>(
    leg: LegOutcome<StoreCidRequestResponse, E>,
    expected_cid: &str,
) -> (r: Result<(), StoreCidIpfsError<E>>)
    ensures
        leg matches LegOutcome::Construction(e) ==> r == Err::<(), StoreCidIpfsError<E>>(
            StoreCidIpfsError::RequestConstruction(e),
        ),
        leg matches LegOutcome::Transport(e) ==> r == Err::<(), StoreCidIpfsError<E>>(
            StoreCidIpfsError::Request(e),
        ),
        leg matches LegOutcome::Decoded(Err(e)) ==> r == Err::<(), StoreCidIpfsError<E>>(
            StoreCidIpfsError::Deserialization(e),
        ),
        leg matches LegOutcome::Decoded(Ok(echoed)) ==> {
            &&& r is Ok <==> echoed.cid@ == expected_cid@
            &&& r is Err ==> (r->Err_0 matches StoreCidIpfsError::CidMismatch(got, exp) && got@
                == echoed.cid@ && exp@ == expected_cid@)
        },
{
    match leg {
        LegOutcome::Construction(e) => Err(StoreCidIpfsError::RequestConstruction(e)),
        LegOutcome::Transport(e) => Err(StoreCidIpfsError::Request(e)),
        LegOutcome::Decoded(Err(e)) => Err(StoreCidIpfsError::Deserialization(e)),
        LegOutcome::Decoded(Ok(echoed)) => {
            let expected: String = expected_cid.to_owned();
            if echoed.cid == expected {
                Ok(())
            } else {
                Err(StoreCidIpfsError::CidMismatch(echoed.cid, expected))
            }
        },
    }
}

/// How the retry driver treats each store failure: construction and transport
/// are worth repeating; a deserialization failure or a CID mismatch is not.
pub open spec fn classify_store_error_spec<E>(e: StoreCidIpfsError<E>) -> ErrorClass {
    match e {
        StoreCidIpfsError::Deserialization(_) => ErrorClass::Permanent,
        StoreCidIpfsError::CidMismatch(_, _) => ErrorClass::Permanent,
        _ => ErrorClass::Transient,
    }
}

/// Classify a store failure for the retry driver.
pub fn classify_store_error<E>(e: &StoreCidIpfsError<E>) -> (c: ErrorClass)
    ensures
        c == classify_store_error_spec(*e),
        c is Permanent <==> (*e is Deserialization || *e is CidMismatch),
{
    match e {
        StoreCidIpfsError::Deserialization(_) => ErrorClass::Permanent,
        StoreCidIpfsError::CidMismatch(_, _) => ErrorClass::Permanent,
        _ => ErrorClass::Transient,
    }
}

} // verus!

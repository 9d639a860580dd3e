//! Gateway-side operations: a single-tier JSON fetch through the gateway's
//! `cat` endpoint, pinning a CID on the gateway, and re-pinning a CID on a
//! third-party service by exporting its content archive and re-uploading it.
//!
//! A pin is accepted only when the gateway reports exactly one pinned CID and
//! it equals the requested one; a re-upload is accepted only when the service
//! echoes the exported CID. Unlike the fetch and store operations, a pin
//! retries even on a deserialization failure — only the semantic checks are
//! permanent here.

use vstd::prelude::*;
use vstd::string::StringExecFns;

use crate::data::cat_path_spec;
use crate::data::cat_path;
use crate::http_client::{HttpClientError, LegOutcome, Method, PlannedRequest};
use crate::retry::ErrorClass;

verus! {

/// Why a gateway fetch failed.
#[derive(Debug)]
pub enum FetchJsonError<E> {
    /// The request could not be constructed.
    RequestConstruction(HttpClientError),
    /// The HTTP exchange failed at the transport level.
    Request(E),
    /// The gateway's body did not decode as the requested shape.
    Deserialization(E),
}

/// The request a gateway fetch of `cid` makes: a POST of the `cat` path for
/// the CID exactly as given — no normalization here.
pub fn gateway_fetch_request(cid: &str) -> (r: PlannedRequest)
    ensures
        r.method == Method::Post,
        r.path@ == cat_path_spec(cid@),
{
    PlannedRequest { method: Method::Post, path: cat_path(cid) }
}

/// The gateway fetch's result as a function of its one exchange.
pub open spec fn gateway_fetch_result_spec<J, E>(leg: LegOutcome<J, E>) -> Result<
    J,
    FetchJsonError<E>,
> {
    match leg {
        LegOutcome::Construction(e) => Err(FetchJsonError::RequestConstruction(e)),
        LegOutcome::Transport(e) => Err(FetchJsonError::Request(e)),
        LegOutcome::Decoded(Ok(j)) => Ok(j),
        LegOutcome::Decoded(Err(e)) => Err(FetchJsonError::Deserialization(e)),
    }
}

/// Turn the gateway's exchange into the fetch's result: a decoded body is
/// handed back unchanged, every failure keeps its own cause.
pub fn gateway_fetch_result<J, E>(leg: LegOutcome<J, E>) -> (r: Result<J, FetchJsonError<E>>)
    ensures
        r == gateway_fetch_result_spec(leg),
{
    match leg {
        LegOutcome::Construction(e) => Err(FetchJsonError::RequestConstruction(e)),
        LegOutcome::Transport(e) => Err(FetchJsonError::Request(e)),
        LegOutcome::Decoded(Ok(j)) => Ok(j),
        LegOutcome::Decoded(Err(e)) => Err(FetchJsonError::Deserialization(e)),
    }
}

/// How the retry driver treats each gateway-fetch failure: only a
/// deserialization failure is permanent.
pub fn classify_fetch_error<E>(e: &FetchJsonError<E>) -> (c: ErrorClass)
    ensures
        c is Permanent <==> *e is Deserialization,
{
    match e {
        FetchJsonError::Deserialization(_) => ErrorClass::Permanent,
        _ => ErrorClass::Transient,
    }
}

/// Why a pin failed.
#[derive(Debug)]
pub enum IpfsPinError<E> {
    /// The request could not be constructed.
    RequestConstruction(HttpClientError),
    /// The HTTP exchange failed at the transport level.
    Request(E),
    /// The gateway's body did not decode as a pin response.
    Deserialization(E),
    /// The gateway reported this many pinned CIDs instead of exactly one.
    InconsistentPinnedCidsAmount(usize),
    /// The single pinned CID differs from the requested one: got, expected.
    CidMismatch(String, String),
}

/// The shape a pin response decodes to: the CIDs the gateway pinned
/// (`Pins` on the wire).
#[derive(Debug, Clone)]
pub struct PinResponse {
    pub pins: Vec<String>,
}

/// The gateway path that pins a CID.
pub open spec fn pin_add_path_spec(cid: Seq<char>) -> Seq<char> {
    "/api/v0/pin/add?arg="@ + cid
}

/// The request a pin of `cid` makes, for the CID exactly as given.
pub fn pin_request(cid: &str) -> (r: PlannedRequest)
    ensures
        r.method == Method::Post,
        r.path@ == pin_add_path_spec(cid@),
{
    let prefix: String = "/api/v0/pin/add?arg=".to_owned();
    PlannedRequest { method: Method::Post, path: prefix.concat(cid) }
}

/// A pin response is accepted for `cid` exactly when it reports one pinned
/// CID and that CID is `cid`.
pub open spec fn pin_accepted(pins: Seq<Seq<char>>, cid: Seq<char>) -> bool {
    pins.len() == 1 && pins[0] == cid
}

/// Validate a decoded pin response against the requested CID: a cardinality
/// other than one is reported as such; a single differing CID is a mismatch,
/// compared byte for byte.
pub fn check_pin_response<E>(response: PinResponse, cid: &str) -> (r: Result<(), IpfsPinError<E>>)
    ensures
        r is Ok <==> pin_accepted(response.pins.deep_view(), cid@),
        response.pins@.len() != 1 ==> (r matches Err(IpfsPinError::InconsistentPinnedCidsAmount(n))
            && n == response.pins@.len()),
        response.pins@.len() == 1 && response.pins.deep_view()[0] != cid@ ==> (r matches Err(
            IpfsPinError::CidMismatch(got, exp),
        ) && got@ == response.pins.deep_view()[0] && exp@ == cid@),
{
    if response.pins.len() != 1 {
        Err(IpfsPinError::InconsistentPinnedCidsAmount(response.pins.len()))
    } else {
        let pin: String = response.pins[0].clone();
        let expected: String = cid.to_owned();
        if pin == expected {
            Ok(())
        } else {
            Err(IpfsPinError::CidMismatch(pin, expected))
        }
    }
}

/// Turn the gateway's pin exchange into the pin's result.
pub fn pin_exchange_result<E>(leg: LegOutcome<PinResponse, E>, cid: &str) -> (r: Result<
    (),
    IpfsPinError<E>,
>)
    ensures
        leg matches LegOutcome::Construction(e) ==> r == Err::<(), IpfsPinError<E>>(
            IpfsPinError::RequestConstruction(e),
        ),
        leg matches LegOutcome::Transport(e) ==> r == Err::<(), IpfsPinError<E>>(
            IpfsPinError::Request(e),
        ),
        leg matches LegOutcome::Decoded(Err(e)) ==> r == Err::<(), IpfsPinError<E>>(
            IpfsPinError::Deserialization(e),
        ),
        leg matches LegOutcome::Decoded(Ok(response)) ==> {
            &&& r is Ok <==> pin_accepted(response.pins.deep_view(), cid@)
            &&& response.pins@.len() != 1 ==> (r matches Err(
                IpfsPinError::InconsistentPinnedCidsAmount(n),
            ) && n == response.pins@.len())
            &&& response.pins@.len() == 1 && response.pins.deep_view()[0] != cid@ ==> (r matches Err(
                IpfsPinError::CidMismatch(got, exp),
            ) && got@ == response.pins.deep_view()[0] && exp@ == cid@)
        },
{
    match leg {
        LegOutcome::Construction(e) => Err(IpfsPinError::RequestConstruction(e)),
        LegOutcome::Transport(e) => Err(IpfsPinError::Request(e)),
        LegOutcome::Decoded(Err(e)) => Err(IpfsPinError::Deserialization(e)),
        LegOutcome::Decoded(Ok(response)) => check_pin_response(response, cid),
    }
}

/// How the retry driver treats each pin failure: construction, transport and
/// even deserialization are worth repeating; only the semantic checks — the
/// pin cardinality and the CID mismatch — are permanent.
pub fn classify_pin_error<E>(e: &IpfsPinError<E>) -> (c: ErrorClass)
    ensures
        c is Permanent <==> (*e is InconsistentPinnedCidsAmount || *e is CidMismatch),
{
    match e {
        IpfsPinError::InconsistentPinnedCidsAmount(_) => ErrorClass::Permanent,
        IpfsPinError::CidMismatch(_, _) => ErrorClass::Permanent,
        _ => ErrorClass::Transient,
    }
}

/// A pin response is accepted exactly when the gateway pinned precisely the
/// requested CID and nothing else. Acceptance depends on nothing but the
/// response and the CID, so an identical pin of the same CID is accepted
/// again, and the cardinality check still sees exactly one pin.
pub proof fn lemma_pin_accepted_exactly_one(pins: Seq<Seq<char>>, cid: Seq<char>)
    ensures
        pin_accepted(pins, cid) <==> pins =~= seq![cid],
{
}

/// Why a re-pin on the third-party service failed.
#[derive(Debug)]
pub enum Web3StoragePinError<E> {
    /// The archive-export request could not be constructed.
    GetCarRequestConstruction(HttpClientError),
    /// The archive export failed at the transport level.
    GetCarRequest(E),
    /// The archive-upload request could not be constructed.
    UploadCarRequestConstruction(HttpClientError),
    /// The archive upload failed at the transport level.
    UploadCarRequest(E),
    /// The upload response did not decode as a single CID.
    UploadCarDeserialization(E),
    /// The service echoed a different CID than the exported one: got,
    /// expected.
    CidMismatch(String, String),
}

/// The shape the third-party upload response decodes to: the CID of the
/// uploaded content archive.
#[derive(Debug, Clone)]
pub struct CARUploadResponse {
    pub cid: String,
}

/// The gateway path that exports the content archive of a CID.
pub open spec fn dag_export_path_spec(cid: Seq<char>) -> Seq<char> {
    "/api/v0/dag/export?arg="@ + cid + "&progress=false"@
}

/// The two requests a re-pin of `cid` makes: the gateway's archive export,
/// and the third-party upload the archive bytes are streamed into.
pub fn repin_requests(cid: &str) -> (r: (PlannedRequest, PlannedRequest))
    ensures
        r.0.method == Method::Post,
        r.0.path@ == dag_export_path_spec(cid@),
        r.1.method == Method::Post,
        r.1.path@ == "/car"@,
{
    let prefix: String = "/api/v0/dag/export?arg=".to_owned();
    let export_path = prefix.concat(cid).concat("&progress=false");
    (
        PlannedRequest { method: Method::Post, path: export_path },
        PlannedRequest { method: Method::Post, path: "/car".to_owned() },
    )
}

/// Move past the archive export: a successful export hands its response —
/// the archive stream — to the upload leg unchanged; each failure keeps its
/// own cause. `R` is the transport's response handle.
pub fn repin_export_step<R, E>(outcome: Result<Result<R, E>, HttpClientError>) -> (r: Result<
    R,
    Web3StoragePinError<E>,
>)
    ensures
        outcome matches Err(e) ==> r == Err::<R, Web3StoragePinError<E>>(
            Web3StoragePinError::GetCarRequestConstruction(e),
        ),
        outcome matches Ok(Err(e)) ==> r == Err::<R, Web3StoragePinError<E>>(
            Web3StoragePinError::GetCarRequest(e),
        ),
        outcome matches Ok(Ok(body)) ==> r == Ok::<R, Web3StoragePinError<E>>(body),
{
    match outcome {
        Err(e) => Err(Web3StoragePinError::GetCarRequestConstruction(e)),
        Ok(Err(e)) => Err(Web3StoragePinError::GetCarRequest(e)),
        Ok(Ok(body)) => Ok(body),
    }
}

/// Turn the third-party upload exchange into the re-pin's result: a completed
/// exchange succeeds exactly when the echoed CID equals the exported one byte
/// for byte.
pub fn repin_upload_result<E>(leg: LegOutcome<CARUploadResponse, E>, cid: &str) -> (r: Result<
    (),
    Web3StoragePinError<E>,
>)
    ensures
        leg matches LegOutcome::Construction(e) ==> r == Err::<(), Web3StoragePinError<E>>(
            Web3StoragePinError::UploadCarRequestConstruction(e),
        ),
        leg matches LegOutcome::Transport(e) ==> r == Err::<(), Web3StoragePinError<E>>(
            Web3StoragePinError::UploadCarRequest(e),
        ),
        leg matches LegOutcome::Decoded(Err(e)) ==> r == Err::<(), Web3StoragePinError<E>>(
            Web3StoragePinError::UploadCarDeserialization(e),
        ),
        leg matches LegOutcome::Decoded(Ok(echoed)) ==> {
            &&& r is Ok <==> echoed.cid@ == cid@
            &&& r is Err ==> (r->Err_0 matches Web3StoragePinError::CidMismatch(got, exp) && got@
                == echoed.cid@ && exp@ == cid@)
        },
{
    match leg {
        LegOutcome::Construction(e) => Err(Web3StoragePinError::UploadCarRequestConstruction(e)),
        LegOutcome::Transport(e) => Err(Web3StoragePinError::UploadCarRequest(e)),
        LegOutcome::Decoded(Err(e)) => Err(Web3StoragePinError::UploadCarDeserialization(e)),
        LegOutcome::Decoded(Ok(echoed)) => {
            let expected: String = cid.to_owned();
            if echoed.cid == expected {
                Ok(())
            } else {
                Err(Web3StoragePinError::CidMismatch(echoed.cid, expected))
            }
        },
    }
}

/// How the retry driver treats each re-pin failure: everything is worth
/// repeating except the CID mismatch.
pub fn classify_web3_pin_error<E>(e: &Web3StoragePinError<E>) -> (c: ErrorClass)
    ensures
        c is Permanent <==> *e is CidMismatch,
{
    match e {
        Web3StoragePinError::CidMismatch(_, _) => ErrorClass::Permanent,
        _ => ErrorClass::Transient,
    }
}

} // verus!

use cid_client::data::{
    classify_store_error, fetch_mirror_step, fetch_requests, store_cid_request,
    store_exchange_result, store_json_request, MirrorStep, StoreCidIpfsError,
    StoreCidRequestResponse,
};
use cid_client::http_client::{LegOutcome, Method};
use cid_client::ipfs::{
    check_pin_response, classify_pin_error, classify_web3_pin_error, pin_exchange_result,
    pin_request, repin_export_step, repin_requests, repin_upload_result, CARUploadResponse,
    IpfsPinError, PinResponse, Web3StoragePinError,
};
use cid_client::retry::ErrorClass;

#[derive(Debug, Clone, PartialEq)]
struct Payload {
    name: String,
    n: u64,
}

#[test]
fn store_plans_the_uploader_request() {
    let (request, body) = store_cid_request("abc");
    assert_eq!(request.method, Method::Post);
    assert_eq!(request.path, "/data/ipfs");
    assert_eq!(body.cid, "abc");
    let json_request = store_json_request();
    assert_eq!(json_request.method, Method::Post);
    assert_eq!(json_request.path, "/data/json/ipfs");
}

#[test]
fn store_accepts_the_exact_echo() {
    let leg = LegOutcome::Decoded(Ok(StoreCidRequestResponse { cid: "abc".to_string() }));
    assert!(store_exchange_result::<String>(leg, "abc").is_ok());
}

#[test]
fn store_cid_mismatch_is_permanent() {
    let leg = LegOutcome::Decoded(Ok(StoreCidRequestResponse { cid: "abd".to_string() }));
    let result = store_exchange_result::<String>(leg, "abc");
    match result {
        Err(error) => {
            assert!(matches!(
                &error,
                StoreCidIpfsError::CidMismatch(got, expected) if got == "abd" && expected == "abc"
            ));
            assert_eq!(classify_store_error(&error), ErrorClass::Permanent);
        }
        Ok(()) => panic!("a differing echo cannot be accepted"),
    }
}

#[test]
fn store_does_not_normalize_case() {
    let leg = LegOutcome::Decoded(Ok(StoreCidRequestResponse { cid: "ABC".to_string() }));
    let result = store_exchange_result::<String>(leg, "abc");
    assert!(matches!(
        result,
        Err(StoreCidIpfsError::CidMismatch(got, expected)) if got == "ABC" && expected == "abc"
    ));
}

#[test]
fn store_transport_failure_is_transient() {
    let leg: LegOutcome<StoreCidRequestResponse, String> =
        LegOutcome::Transport("connection reset".to_string());
    let result = store_exchange_result(leg, "abc");
    match result {
        Err(error) => assert_eq!(classify_store_error(&error), ErrorClass::Transient),
        Ok(()) => panic!("a transport failure cannot succeed"),
    }
}

#[test]
fn stored_payload_round_trips_through_fetch() {
    let payload = Payload { name: "doc".to_string(), n: 42 };
    // the uploader echoes the expected CID, so the store succeeds
    let stored = store_exchange_result::<String>(
        LegOutcome::Decoded(Ok(StoreCidRequestResponse { cid: "bafyabc".to_string() })),
        "bafyabc",
    );
    assert!(stored.is_ok());
    // a later fetch of that CID decodes the upstream's copy of the payload
    let (mirror, _) = fetch_requests("bafyabc");
    assert_eq!(mirror.path, "bafyabc");
    let step = fetch_mirror_step::<Payload, String>(LegOutcome::Decoded(Ok(payload.clone())));
    match step {
        MirrorStep::Done(Ok(fetched)) => assert_eq!(fetched, payload),
        _ => panic!("the fetch must hand back the decoded payload"),
    }
}

#[test]
fn pin_plans_the_gateway_request() {
    let request = pin_request("abc");
    assert_eq!(request.method, Method::Post);
    assert_eq!(request.path, "/api/v0/pin/add?arg=abc");
}

#[test]
fn pin_with_empty_pin_set_is_permanent() {
    let result = check_pin_response::<String>(PinResponse { pins: vec![] }, "abc");
    match result {
        Err(error) => {
            assert!(matches!(error, IpfsPinError::InconsistentPinnedCidsAmount(0)));
            assert_eq!(classify_pin_error(&error), ErrorClass::Permanent);
        }
        Ok(()) => panic!("an empty pin set cannot be accepted"),
    }
}

#[test]
fn pin_with_two_pins_is_permanent() {
    let pins = vec!["X".to_string(), "Y".to_string()];
    let result = check_pin_response::<String>(PinResponse { pins }, "abc");
    match result {
        Err(error) => {
            assert!(matches!(error, IpfsPinError::InconsistentPinnedCidsAmount(2)));
            assert_eq!(classify_pin_error(&error), ErrorClass::Permanent);
        }
        Ok(()) => panic!("two pins cannot be accepted"),
    }
}

#[test]
fn pin_with_duplicated_cid_is_permanent() {
    let pins = vec!["abc".to_string(), "abc".to_string()];
    let leg = LegOutcome::Decoded(Ok(PinResponse { pins }));
    let result = pin_exchange_result::<String>(leg, "abc");
    match result {
        Err(error) => {
            assert!(matches!(error, IpfsPinError::InconsistentPinnedCidsAmount(2)));
            assert_eq!(classify_pin_error(&error), ErrorClass::Permanent);
        }
        Ok(()) => panic!("a duplicated pin cannot be accepted"),
    }
}

#[test]
fn pin_cid_mismatch_is_permanent() {
    let result =
        check_pin_response::<String>(PinResponse { pins: vec!["abd".to_string()] }, "abc");
    match result {
        Err(error) => {
            assert!(matches!(
                &error,
                IpfsPinError::CidMismatch(got, expected) if got == "abd" && expected == "abc"
            ));
            assert_eq!(classify_pin_error(&error), ErrorClass::Permanent);
        }
        Ok(()) => panic!("a differing pin cannot be accepted"),
    }
}

#[test]
fn pin_deserialization_failure_is_transient() {
    let leg: LegOutcome<PinResponse, String> =
        LegOutcome::Decoded(Err("malformed".to_string()));
    let result = pin_exchange_result(leg, "abc");
    match result {
        Err(error) => {
            assert!(matches!(&error, IpfsPinError::Deserialization(m) if m == "malformed"));
            assert_eq!(classify_pin_error(&error), ErrorClass::Transient);
        }
        Ok(()) => panic!("a malformed pin response cannot be accepted"),
    }
}

#[test]
fn pin_is_idempotent_on_identical_responses() {
    for _ in 0..2 {
        let leg = LegOutcome::Decoded(Ok(PinResponse { pins: vec!["abc".to_string()] }));
        let result = pin_exchange_result::<String>(leg, "abc");
        assert!(result.is_ok());
    }
}

#[test]
fn repin_plans_both_requests() {
    let (export, upload) = repin_requests("abc");
    assert_eq!(export.method, Method::Post);
    assert_eq!(export.path, "/api/v0/dag/export?arg=abc&progress=false");
    assert_eq!(upload.method, Method::Post);
    assert_eq!(upload.path, "/car");
}

#[test]
fn repin_streams_the_exported_archive_into_the_upload() {
    let body = repin_export_step::<&str, String>(Ok(Ok("archive bytes"))).unwrap();
    assert_eq!(body, "archive bytes");
    let failed = repin_export_step::<&str, String>(Ok(Err("timed out".to_string())));
    match failed {
        Err(error) => {
            assert!(matches!(&error, Web3StoragePinError::GetCarRequest(m) if m == "timed out"));
            assert_eq!(classify_web3_pin_error(&error), ErrorClass::Transient);
        }
        Ok(_) => panic!("a failed export cannot hand out an archive"),
    }
}

#[test]
fn repin_accepts_only_the_exported_cid() {
    let ok = repin_upload_result::<String>(
        LegOutcome::Decoded(Ok(CARUploadResponse { cid: "abc".to_string() })),
        "abc",
    );
    assert!(ok.is_ok());
    let bad = repin_upload_result::<String>(
        LegOutcome::Decoded(Ok(CARUploadResponse { cid: "abd".to_string() })),
        "abc",
    );
    match bad {
        Err(error) => {
            assert!(matches!(
                &error,
                Web3StoragePinError::CidMismatch(got, expected) if got == "abd" && expected == "abc"
            ));
            assert_eq!(classify_web3_pin_error(&error), ErrorClass::Permanent);
        }
        Ok(()) => panic!("a differing echo cannot be accepted"),
    }
}

#[test]
fn repin_deserialization_failure_is_transient() {
    let leg: LegOutcome<CARUploadResponse, String> =
        LegOutcome::Decoded(Err("malformed".to_string()));
    let result = repin_upload_result(leg, "abc");
    match result {
        Err(error) => {
            assert!(matches!(&error, Web3StoragePinError::UploadCarDeserialization(m) if m == "malformed"));
            assert_eq!(classify_web3_pin_error(&error), ErrorClass::Transient);
        }
        Ok(()) => panic!("a malformed upload response cannot be accepted"),
    }
}

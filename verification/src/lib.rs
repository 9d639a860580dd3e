//! Client-side helpers for a content-addressed data workflow.
//!
//! A JSON document identified by an immutable content-ID (CID) is fetched
//! through a fast HTTP mirror with a gateway fallback, and stored or pinned
//! through an uploader or a third-party pinning service, with the echoed CID
//! checked against the expected one.
//!
//! This crate holds the verified core: request preparation against a client's
//! base URL, the exponential-backoff retry state machine with its
//! transient/permanent classification, the mirror/gateway fallback decision,
//! and the validation of store and pin responses. The asynchronous transport
//! that carries the prepared requests lives outside the crate and feeds every
//! outcome back into these functions as plain values.

pub mod data;
pub mod http_client;
pub mod ipfs;
pub mod retry;

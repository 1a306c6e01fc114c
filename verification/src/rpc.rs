//! The read-only query surface over a registry: a thin handler that reports
//! the global counter to external callers, and the taxonomy under which a
//! failed query is reported.

use vstd::prelude::*;

use crate::registry::Registry;
use crate::registry::RegistryView;

verus! {

/// Why a count query could not be served.
pub enum Error {
    /// The reply from the backing runtime could not be decoded.
    DecodeError,
    /// The backing runtime could not be reached or failed to answer.
    RuntimeError,
}

/// The numeric code a query failure is reported under.
pub open spec fn spec_error_code(e: Error) -> i64 {
    match e {
        Error::RuntimeError => 1,
        Error::DecodeError => 2,
    }
}

impl core::convert::From<Error> for i64 {
    /// The numeric code of a query failure.
    fn from(e: Error) -> (r: i64) {
        match e {
            Error::RuntimeError => 1,
            Error::DecodeError => 2,
        }
    }
}

impl vstd::std_specs::convert::FromSpecImpl<Error> for i64 {
    open spec fn obeys_from_spec() -> bool {
        true
    }

    open spec fn from_spec(e: Error) -> i64 {
        spec_error_code(e)
    }
}

/// What a failed count query reports: a numeric code, a fixed message, and
/// the underlying cause as the backing runtime worded it.
#[derive(PartialEq, Eq, Debug)]
pub struct RpcFailure {
    /// The numeric code, `spec_error_code` of the failure kind.
    pub code: i64,
    /// The fixed human-readable message.
    pub message: &'static str,
    /// The underlying cause, surfaced verbatim.
    pub data: Option<String>,
}

/// Wrap a runtime reply to a count query: a count passes through untouched; a
/// runtime failure is reported as `RuntimeError` with the cause attached.
pub fn map_count_result(reply: Result<u64, String>) -> (r: Result<u64, RpcFailure>)
    ensures
        match reply {
            Ok(c) => r == Ok::<u64, RpcFailure>(c),
            Err(cause) => match r {
                Ok(_) => false,
                Err(f) => f.code == spec_error_code(Error::RuntimeError) && f.message@
                    == "Unable to get kitties count."@ && f.data == Some(cause),
            },
        },
{
    match reply {
        Ok(c) => Ok(c),
        Err(cause) => Err(
            RpcFailure {
                code: i64::from(Error::RuntimeError),
                message: "Unable to get kitties count.",
                data: Some(cause),
            },
        ),
    }
}

/// The count-query handler: it holds the registry it serves — the analogue of
/// the client handle a hosted deployment would hold — and answers read-only
/// count queries against it.
pub struct PalletKittiesRpc {
    client: Registry,
}

impl View for PalletKittiesRpc {
    type V = RegistryView;

    closed spec fn view(&self) -> RegistryView {
        self.client@
    }
}

impl PalletKittiesRpc {
    /// Wrap a registry for serving count queries.
    pub fn new(client: Registry) -> (r: Self)
        ensures
            r@ == client@,
    {
        PalletKittiesRpc { client: client }
    }

    /// Serve the count query: the global counter of the served registry. With
    /// the registry held in-process its state is always readable, so the
    /// query never fails; a hosted deployment would answer a stale or broken
    /// backend through `map_count_result` instead.
    pub fn get_kitties_count(&self) -> (r: Result<u64, RpcFailure>)
        ensures
            r == Ok::<u64, RpcFailure>(self@.count),
    {
        Ok(self.client.kitty_count())
    }
}

} // verus!

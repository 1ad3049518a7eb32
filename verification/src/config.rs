//! Timeouts and delays of the client.

use vstd::prelude::*;

verus! {

/// Timeout of one request to the backend, in seconds.
pub const LSP_REQUEST_TIMEOUT_SECS: u64 = 30;

/// Delay after a document is opened, so that the backend can begin to
/// process it before the first query, in milliseconds.
pub const DOCUMENT_OPEN_DELAY_MILLIS: u64 = 1000;

/// Pause between two polls of the readiness retry, in milliseconds.
pub const RETRY_INTERVAL_MILLIS: u64 = 500;

/// Budget of the readiness retry on a developer's machine, in seconds.
pub const INDEXING_TIMEOUT_LOCAL_SECS: u64 = 15;

/// Budget of the readiness retry in an automated environment, in seconds.
pub const INDEXING_TIMEOUT_AUTOMATED_SECS: u64 = 30;

/// Bound on the wait for the backend to acknowledge a shutdown, in seconds.
pub const SHUTDOWN_TIMEOUT_SECS: u64 = 5;

/// The budget of the readiness retry: longer where the run is automated.
pub open spec fn indexing_timeout(automated: bool) -> u64 {
    if automated {
        INDEXING_TIMEOUT_AUTOMATED_SECS
    } else {
        INDEXING_TIMEOUT_LOCAL_SECS
    }
}

/// The budget of the readiness retry, in seconds: 30 in an automated
/// environment, 15 elsewhere.
pub fn get_indexing_timeout_secs(automated: bool) -> (secs: u64)
    ensures
        secs == indexing_timeout(automated),
{
    if automated {
        INDEXING_TIMEOUT_AUTOMATED_SECS
    } else {
        INDEXING_TIMEOUT_LOCAL_SECS
    }
}

} // verus!

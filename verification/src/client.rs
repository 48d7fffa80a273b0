//! The remote status client's request shape and the outcome it reports back:
//! the URL of the proof-roots endpoint, and the three ways a fetch can end.

use vstd::prelude::*;
use vstd::string::StringExecFns;
use crate::roots::ProofRootRecord;
use crate::text::{spec_dec, u64_to_dec};

verus! {

/// How one fetch of the proof-roots endpoint ended. The shell performs the
/// request and hands the outcome back to the verified poller logic.
pub enum FetchOutcome {
    /// A success (2xx) response whose body deserialized into the records.
    Success(Vec<ProofRootRecord>),
    /// The server answered with a non-success status code and this error
    /// body.
    ApiError(u16, String),
    /// The request did not complete: connection, timeout or protocol
    /// failure.
    TransportError,
}

/// The proof-roots endpoint for one proof-set, ordered by root identifier
/// and limited to a fixed page size.
pub open spec fn spec_roots_url(base: Seq<char>, proofset_id: Seq<char>, limit: u64) -> Seq<char> {
    base + "/api/proofsets/"@ + proofset_id + "/roots?orderBy=root_id&limit="@ + spec_dec(limit)
}

/// Builds the GET URL the remote status client requests.
pub fn roots_url(base: &str, proofset_id: &str, limit: u64) -> (url: String)
    ensures
        url@ == spec_roots_url(base@, proofset_id@, limit),
{
    let mut url: String = base.to_owned();
    url.append("/api/proofsets/");
    url.append(proofset_id);
    url.append("/roots?orderBy=root_id&limit=");
    let lim = u64_to_dec(limit);
    url.append(lim.as_str());
    proof {
        assert(url@ =~= spec_roots_url(base@, proofset_id@, limit));
    }
    url
}

} // verus!

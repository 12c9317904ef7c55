//! Laws the service keeps, stated and proved once and for all.

use crate::b64::{b64_decode, b64_encode, b64_of};
use crate::config::Config;
use crate::error::Error;
use crate::handlers::{batch_error, epoch_matches, InfoResponse, RandomnessRequest,
    RandomnessResponse};
use crate::oprf::epochs_of;
use crate::state::{rotation_step, OPRFServer};
use vstd::prelude::*;

verus! {

/// Law: decoding the base64 encoding of any byte string yields exactly
/// those bytes back.
pub fn base64_round_trip(bytes: &Vec<u8>) -> (decoded: Vec<u8>)
    ensures
        decoded@ == bytes@,
{
    let encoded = b64_encode(bytes);
    match b64_decode(&encoded) {
        Ok(decoded) => decoded,
        Err(_) => {
            proof {
                assert(encoded@ == b64_of(bytes@));
                assert(false);
            }
            Vec::new()
        },
    }
}

/// Law: a rotation always retires the epoch that was active — it is no
/// longer the active epoch, within a generation it can never be
/// evaluated again, and a request pinned to it is rejected with an
/// epoch-mismatch error.  A configured range of more than one tag is
/// required: a single-tag range reuses its tag under a fresh key when
/// the generation turns over.
pub proof fn lemma_rotation_retires_previous_epoch(
    pre: OPRFServer,
    post: OPRFServer,
    config: Config,
    request: RandomnessRequest,
)
    requires
        pre.wf(config),
        post.wf(config),
        rotation_step(pre, post, config),
        config.first_epoch < config.last_epoch,
        request.epoch == Some(pre.epoch),
    ensures
        post.epoch != pre.epoch,
        pre.epoch < config.last_epoch ==> !epochs_of(post.server).contains(pre.epoch),
        !epoch_matches(post, request),
        batch_error(post, request, Error::BadEpoch(pre.epoch)),
{
    if pre.epoch < config.last_epoch {
        assert(!post.live_epochs(config).contains(pre.epoch));
    }
}

/// Law: an info response and a successful randomness response computed
/// from the same state snapshot report the same epoch — the epoch used
/// for an evaluation is exactly the one `/info` advertises at that
/// moment, with no torn read across the two.  The hypotheses are what
/// `randomness` and `info` each ensure of a response computed from
/// `state`.
pub proof fn lemma_snapshot_epoch_agreement(
    state: OPRFServer,
    response: RandomnessResponse,
    inf: InfoResponse,
)
    requires
        response.epoch == state.epoch,
        inf.current_epoch == state.epoch,
    ensures
        response.epoch == inf.current_epoch,
{
}

} // verus!

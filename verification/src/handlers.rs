//! Request validation and dispatch against a state snapshot.
//!
//! Handlers are stateless: each takes a consistent snapshot of the
//! shared server state and computes a response from it, mutating
//! nothing.  An evaluation request resolves its target epoch (only the
//! active epoch is ever evaluable), bounds the batch, and evaluates
//! every point in input order; any single-point failure aborts the
//! whole batch.

use crate::b64::{b64_decode, b64_encode, b64_of};
use crate::error::Error;
use crate::oprf::{
    epochs_of, eval_of, point_decodes, pubkey_of, server_eval, server_public_key_bytes,
    COMPRESSED_POINT_LEN,
};
use crate::state::OPRFServer;
use crate::MAX_POINTS;
use vstd::prelude::*;

verus! {

/// Request format for the randomness endpoint.
#[derive(Debug)]
pub struct RandomnessRequest {
    /// Points to evaluate: base64-encoded, compressed curve points.
    pub points: Vec<String>,
    /// Optional request for evaluation within a specific epoch.
    pub epoch: Option<u8>,
}

/// Response format for the randomness endpoint.
#[derive(Debug)]
pub struct RandomnessResponse {
    /// Evaluated points, base64-encoded, in one-to-one correspondence
    /// with the request points.
    pub points: Vec<String>,
    /// Randomness epoch used in the evaluation.
    pub epoch: u8,
}

/// Response format for the info endpoint.
#[derive(Debug)]
pub struct InfoResponse {
    /// Serialized public key, base64-encoded.
    pub public_key: String,
    /// Currently active randomness epoch.
    pub current_epoch: u8,
    /// RFC 3339 timestamp of the next epoch rotation, if announced.
    pub next_epoch_time: Option<String>,
    /// Maximum number of points accepted in a single request.
    pub max_points: usize,
}

/// Whether the string is the base64 encoding of some byte string.
pub open spec fn is_b64(p: Seq<char>) -> bool {
    exists|b: Seq<u8>| p == #[trigger] b64_of(b)
}

/// The bytes a valid base64 string decodes to.
pub open spec fn b64_bytes(p: Seq<char>) -> Seq<u8> {
    choose|b: Seq<u8>| p == #[trigger] b64_of(b)
}

/// A well-formed point: valid base64 of exactly the compressed point
/// length, decoding to a curve point.
pub open spec fn point_well_formed(p: Seq<char>) -> bool {
    &&& is_b64(p)
    &&& b64_bytes(p).len() == COMPRESSED_POINT_LEN
    &&& point_decodes(b64_bytes(p))
}

/// The error a single malformed point produces.
pub open spec fn point_error(p: Seq<char>, e: Error) -> bool {
    if !is_b64(p) {
        e is Base64
    } else if b64_bytes(p).len() != COMPRESSED_POINT_LEN {
        e == Error::BadPoint
    } else {
        e is Oprf
    }
}

/// The encoded evaluation of one point at one epoch.
pub open spec fn point_evaluation(
    server: ppoprf::ppoprf::Server,
    epoch: u8,
    p: Seq<char>,
) -> Seq<char> {
    b64_of(eval_of(server, b64_bytes(p), epoch))
}

/// Whether the request's epoch selector, if any, names the active
/// epoch — evaluation against any other epoch is rejected.
pub open spec fn epoch_matches(state: OPRFServer, request: RandomnessRequest) -> bool {
    request.epoch matches Some(e) ==> e == state.epoch
}

/// A batch the service owes a full evaluation: the selector matches
/// the active epoch, the batch is within bounds, and every point is
/// well-formed.
pub open spec fn batch_accepted(state: OPRFServer, request: RandomnessRequest) -> bool {
    &&& epoch_matches(state, request)
    &&& request.points@.len() <= MAX_POINTS
    &&& forall|i: int|
        0 <= i < request.points@.len() ==> point_well_formed(#[trigger] request.points@[i]@)
}

/// The error a rejected batch reports: an epoch mismatch or an
/// oversized batch is detected before any point is examined, and
/// otherwise the first malformed point, in input order, decides.
pub open spec fn batch_error(state: OPRFServer, request: RandomnessRequest, e: Error) -> bool {
    if !epoch_matches(state, request) {
        e == Error::BadEpoch(request.epoch->0)
    } else if request.points@.len() > MAX_POINTS {
        e == Error::TooManyPoints
    } else {
        exists|i: int|
            {
                &&& 0 <= i < request.points@.len()
                &&& !point_well_formed(#[trigger] request.points@[i]@)
                &&& point_error(request.points@[i]@, e)
                &&& forall|j: int|
                    0 <= j < i ==> point_well_formed(#[trigger] request.points@[j]@)
            }
    }
}

/// Decode, validate and evaluate a single point at the given epoch,
/// returning its base64-encoded evaluation.  Proof generation is
/// deliberately disabled pending a more space-efficient batch proof.
pub fn evaluate_point(server: &ppoprf::ppoprf::Server, epoch: u8, point: &String) -> (r: Result<
    String,
    Error,
>)
    requires
        epochs_of(*server).contains(epoch),
    ensures
        r is Ok <==> point_well_formed(point@),
        r is Ok ==> r->Ok_0@ == point_evaluation(*server, epoch, point@),
        r is Err ==> point_error(point@, r->Err_0),
{
    let input = match b64_decode(point) {
        Ok(input) => input,
        Err(e) => {
            proof {
                assert(!is_b64(point@)) by {
                    if is_b64(point@) {
                        let b = choose|b: Seq<u8>| point@ == #[trigger] b64_of(b);
                        assert(point@ == b64_of(b));
                    }
                }
            }
            return Err(Error::Base64(e));
        },
    };
    proof {
        assert(point@ == b64_of(input@));
        assert(is_b64(point@));
        assert(b64_bytes(point@) == input@) by {
            let b = choose|b: Seq<u8>| point@ == #[trigger] b64_of(b);
            assert(point@ == b64_of(b));
        }
    }
    if input.len() != COMPRESSED_POINT_LEN {
        return Err(Error::BadPoint);
    }
    let prove = false;
    match server_eval(server, &input, epoch, prove) {
        Ok(output) => Ok(b64_encode(&output)),
        Err(e) => Err(Error::Oprf(e)),
    }
}

/// Process an evaluation request against a state snapshot: resolve the
/// target epoch, bound the batch, and evaluate every point in input
/// order.  The response's outputs correspond one-to-one with the
/// inputs and carry the epoch actually used; no state is mutated.
pub fn randomness(state: &OPRFServer, request: &RandomnessRequest) -> (r: Result<
    RandomnessResponse,
    Error,
>)
    requires
        state.live(),
    ensures
        r is Ok <==> batch_accepted(*state, *request),
        r is Ok ==> r->Ok_0.epoch == state.epoch,
        r is Ok ==> r->Ok_0.points@.len() == request.points@.len(),
        r is Ok ==> forall|i: int|
            0 <= i < request.points@.len() ==> r->Ok_0.points@[i]@ == point_evaluation(
                state.server,
                state.epoch,
                #[trigger] request.points@[i]@,
            ),
        r is Err ==> batch_error(*state, *request, r->Err_0),
{
    let epoch = match request.epoch {
        Some(e) => e,
        None => state.epoch,
    };
    if epoch != state.epoch {
        return Err(Error::BadEpoch(epoch));
    }
    if request.points.len() > MAX_POINTS {
        return Err(Error::TooManyPoints);
    }
    let n = request.points.len();
    let mut points: Vec<String> = Vec::new();
    let mut i: usize = 0;
    while i < n
        invariant
            n == request.points@.len(),
            n <= MAX_POINTS,
            i <= n,
            points@.len() == i,
            epoch == state.epoch,
            epoch_matches(*state, *request),
            epochs_of(state.server).contains(state.epoch),
            forall|j: int| 0 <= j < i ==> point_well_formed(#[trigger] request.points@[j]@),
            forall|j: int|
                0 <= j < i ==> points@[j]@ == point_evaluation(
                    state.server,
                    state.epoch,
                    #[trigger] request.points@[j]@,
                ),
        decreases n - i,
    {
        match evaluate_point(&state.server, epoch, &request.points[i]) {
            Ok(output) => points.push(output),
            Err(e) => {
                return Err(e);
            },
        }
        i += 1;
    }
    Ok(RandomnessResponse { points, epoch })
}

/// Process an info request: a fresh snapshot's serialized public key,
/// active epoch, next rotation time and batch limit — computed anew on
/// each call, never cached.  Given a snapshot it always succeeds:
/// there is no validation beyond state access, which is the caller's
/// concern.
pub fn info(state: &OPRFServer) -> (r: Result<InfoResponse, Error>)
    ensures
        r is Ok,
        r is Ok ==> r->Ok_0.public_key@ == b64_of(pubkey_of(state.server)),
        r is Ok ==> r->Ok_0.current_epoch == state.epoch,
        r is Ok ==> r->Ok_0.next_epoch_time == state.next_epoch_time,
        r is Ok ==> r->Ok_0.max_points == MAX_POINTS,
{
    let public_key = match server_public_key_bytes(&state.server) {
        Ok(bytes) => b64_encode(&bytes),
        Err(e) => {
            return Err(Error::Oprf(e));
        },
    };
    let next_epoch_time = match &state.next_epoch_time {
        Some(t) => Some(t.clone()),
        None => None,
    };
    Ok(
        InfoResponse {
            public_key,
            current_epoch: state.epoch,
            next_epoch_time,
            max_points: MAX_POINTS,
        },
    )
}

} // verus!

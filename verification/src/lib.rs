//! Epoch-scoped oblivious randomness service core.
//!
//! The library holds the verified heart of a STAR randomness server:
//! the shared server state with its epoch lifecycle, the request
//! validation and evaluation logic, and the epoch rotation step.
//! The cryptographic primitive (a puncturable partially oblivious
//! PRF) and base64 transcoding are consumed through narrow trusted
//! wrappers; HTTP transport, argument parsing and the async runtime
//! live outside the library.

use vstd::prelude::*;

mod b64;
mod config;
mod error;
mod handlers;
mod laws;
mod oprf;
mod state;

pub use config::Config;
pub use error::Error;
pub use handlers::{evaluate_point, info, randomness, InfoResponse, RandomnessRequest,
    RandomnessResponse};
pub use laws::base64_round_trip;
pub use oprf::COMPRESSED_POINT_LEN;
pub use state::OPRFServer;

verus! {

/// Maximum number of points acceptable in a single request.
pub const MAX_POINTS: usize = 1024;

} // verus!

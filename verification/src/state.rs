//! Shared server state and the epoch rotation step.
//!
//! The state bundles the primitive instance, the active epoch tag and
//! the next-rotation timestamp.  Its invariant — the active epoch lies
//! in the configured range and has never been punctured — is
//! established at construction and preserved by the sole mutator, the
//! rotation scheduler, whose state change per step is captured by
//! [`rotation_step`].

use crate::config::Config;
use crate::error::Error;
use crate::oprf::{epochs_of, server_new, server_puncture};
use vstd::prelude::*;

verus! {

/// Internal state of the OPRF service.
pub struct OPRFServer {
    /// The oblivious-evaluation primitive instance (exclusively owned).
    pub server: ppoprf::ppoprf::Server,
    /// Currently-valid randomness epoch.
    pub epoch: u8,
    /// RFC 3339 timestamp of the next epoch rotation, once the
    /// scheduler has computed it.
    pub next_epoch_time: Option<String>,
}

impl OPRFServer {
    /// The epochs the active generation should still be able to
    /// evaluate: the active one and everything after it in the range.
    pub open spec fn live_epochs(&self, config: Config) -> Set<u8> {
        Set::new(|e: u8| self.epoch <= e <= config.last_epoch)
    }

    /// State invariant: the active epoch lies in the configured range,
    /// and the primitive can evaluate exactly the epochs from the
    /// active one up to the end of the range — in particular, every
    /// epoch before the active one is beyond reach.
    pub open spec fn wf(&self, config: Config) -> bool {
        &&& config.valid()
        &&& config.first_epoch <= self.epoch
        &&& self.epoch <= config.last_epoch
        &&& epochs_of(self.server) == self.live_epochs(config)
    }

    /// The active epoch can still be evaluated.
    pub open spec fn live(&self) -> bool {
        epochs_of(self.server).contains(self.epoch)
    }

    /// The invariant keeps the active epoch evaluable.
    pub proof fn lemma_wf_implies_live(&self, config: Config)
        requires
            self.wf(config),
        ensures
            self.live(),
    {
        assert(self.live_epochs(config).contains(self.epoch));
    }

    /// Initialize a new server state with the given configuration: a
    /// fresh primitive over the full configured range, the first epoch
    /// active, no rotation announced yet.
    pub fn new(config: &Config) -> (r: Result<OPRFServer, Error>)
        requires
            config.valid(),
        ensures
            r is Ok ==> r->Ok_0.wf(*config),
            r is Ok ==> r->Ok_0.epoch == config.first_epoch,
            r is Ok ==> r->Ok_0.next_epoch_time is None,
            r is Err ==> r->Err_0 is Oprf,
    {
        let epochs = epoch_vector(config);
        let epoch = config.first_epoch;
        match server_new(&epochs) {
            Ok(server) => {
                let state = OPRFServer { server, epoch, next_epoch_time: None };
                proof {
                    assert forall|e: u8| #[trigger]
                        epochs_of(state.server).contains(e)
                            == state.live_epochs(*config).contains(e) by {
                        assert(epochs_of(state.server).contains(e) <==> epochs@.contains(e));
                    }
                    assert(epochs_of(state.server) =~= state.live_epochs(*config));
                }
                Ok(state)
            },
            Err(e) => Err(Error::Oprf(e)),
        }
    }

    /// Publish the precomputed time of the next rotation (the
    /// scheduler's announce step); nothing else changes.
    pub fn set_next_epoch_time(&mut self, timestamp: String)
        ensures
            final(self).server == old(self).server,
            final(self).epoch == old(self).epoch,
            final(self).next_epoch_time == Some(timestamp),
            forall|c: Config| old(self).wf(c) ==> #[trigger] final(self).wf(c),
    {
        self.next_epoch_time = Some(timestamp);
    }

    /// Puncture the active epoch — irreversibly, so it can never be
    /// evaluated again by anyone — and advance to the next one, or
    /// start a new generation over the full range once the configured
    /// range is exhausted.  Within a generation the rotation always
    /// succeeds (the invariant keeps the active epoch puncturable);
    /// only the turnover to a new generation can fail, in the
    /// primitive's fresh-key constructor.  An error is fatal to the
    /// caller: the state may reflect a half-applied transition and
    /// must not be served.
    pub fn advance_epoch(&mut self, config: &Config) -> (r: Result<(), Error>)
        requires
            old(self).wf(*config),
        ensures
            old(self).epoch < config.last_epoch ==> r is Ok,
            r is Ok ==> final(self).wf(*config),
            r is Ok ==> rotation_step(*old(self), *final(self), *config),
            r is Err ==> r->Err_0 is Oprf,
    {
        let old_epoch = self.epoch;
        proof {
            assert(old(self).live_epochs(*config).contains(old_epoch));
        }
        match server_puncture(&mut self.server, old_epoch) {
            Ok(()) => {},
            Err(e) => {
                return Err(Error::Oprf(e));
            },
        }
        if old_epoch < config.last_epoch {
            // The primitive already supports the successor epoch.
            self.epoch = old_epoch + 1;
            proof {
                assert(epochs_of(self.server) =~= self.live_epochs(*config));
            }
            Ok(())
        } else {
            // Epochs exhausted: replace the primitive outright with a
            // wholly new one over the full range, dropping all prior
            // key material — the forward-secrecy boundary between
            // generations.
            match Self::new(config) {
                Ok(fresh) => {
                    *self = fresh;
                    Ok(())
                },
                Err(e) => Err(e),
            }
        }
    }
}

/// How one rotation moves the state: the epoch that was active is
/// punctured and its successor becomes active, or, when the range is
/// exhausted, a new generation starts at the first epoch with the
/// rotation announcement cleared.
pub open spec fn rotation_step(pre: OPRFServer, post: OPRFServer, config: Config) -> bool {
    if pre.epoch < config.last_epoch {
        &&& post.epoch == pre.epoch + 1
        &&& !epochs_of(post.server).contains(pre.epoch)
        &&& post.next_epoch_time == pre.next_epoch_time
    } else {
        &&& post.epoch == config.first_epoch
        &&& post.next_epoch_time is None
    }
}

/// The epoch tags of the configured range, in increasing order.
fn epoch_vector(config: &Config) -> (r: Vec<u8>)
    requires
        config.valid(),
    ensures
        r@.len() == config.last_epoch - config.first_epoch + 1,
        forall|i: int| 0 <= i < r@.len() ==> r@[i] == config.first_epoch + i,
        forall|e: u8| r@.contains(e) <==> config.first_epoch <= e <= config.last_epoch,
{
    let n: usize = (config.last_epoch - config.first_epoch) as usize + 1;
    let mut epochs: Vec<u8> = Vec::new();
    let mut i: usize = 0;
    while i < n
        invariant
            n == config.last_epoch - config.first_epoch + 1,
            i <= n,
            epochs@.len() == i,
            forall|j: int| 0 <= j < i ==> epochs@[j] == config.first_epoch + j,
        decreases n - i,
    {
        epochs.push(config.first_epoch + (i as u8));
        i += 1;
    }
    proof {
        assert forall|e: u8| epochs@.contains(e) == (config.first_epoch <= e
            <= config.last_epoch) by {
            if config.first_epoch <= e <= config.last_epoch {
                let j = e - config.first_epoch;
                assert(epochs@[j as int] == e);
            }
        }
    }
    epochs
}

} // verus!

//! Trusted interface to the puncturable partially oblivious PRF.
//!
//! The primitive is an opaque capability: the library models a
//! `ppoprf::ppoprf::Server` as the collection of epoch tags it can
//! still evaluate, named by [`epochs_of`], together with its exported
//! public key, named by [`pubkey_of`], and the (deterministic) value
//! of an evaluation, named by [`eval_of`].  Every call into the
//! primitive goes through one of the wrappers below, whose contracts
//! state what the `ppoprf` crate's source shows.

use vstd::prelude::*;

verus! {

/// Byte length of a compressed curve point, the primitive's fixed
/// input and output size (`ppoprf::ppoprf::COMPRESSED_POINT_LEN`).
pub const COMPRESSED_POINT_LEN: usize = 32;

#[verifier::external_type_specification]
#[verifier::external_body]
pub struct ExServer(ppoprf::ppoprf::Server);

#[verifier::external_type_specification]
#[verifier::external_body]
pub struct ExPPRFError(ppoprf::PPRFError);

/// The set of epoch tags the server's key material can still
/// evaluate: the tags it was constructed over, less those punctured.
pub uninterp spec fn epochs_of(server: ppoprf::ppoprf::Server) -> Set<u8>;

/// The server's serialized public key, a function of its key material.
pub uninterp spec fn pubkey_of(server: ppoprf::ppoprf::Server) -> Seq<u8>;

/// The output of an oblivious evaluation: a function of the server's
/// key material, the input point bytes and the epoch tag alone.
pub uninterp spec fn eval_of(server: ppoprf::ppoprf::Server, input: Seq<u8>, epoch: u8) -> Seq<u8>;

/// Whether 32 input bytes decode to a curve point, a function of the
/// bytes alone.
pub uninterp spec fn point_decodes(input: Seq<u8>) -> bool;

/// Relies on `ppoprf::ppoprf::Server::new`: a fresh server's evaluable
/// tags are exactly the tags it was constructed over, none punctured.
#[verifier::external_body]
pub(crate) fn server_new(epochs: &Vec<u8>) -> (r: Result<
    ppoprf::ppoprf::Server,
    ppoprf::PPRFError,
>)
    ensures
        r is Ok ==> forall|e: u8|
            #[trigger] epochs_of(r->Ok_0).contains(e) <==> epochs@.contains(e),
{
    ppoprf::ppoprf::Server::new(epochs.clone())
}

/// Relies on `ppoprf::ppoprf::Server::eval` (with `ppoprf::ppoprf::Point::from`
/// converting the argument and `Point::as_bytes` the result): evaluation
/// succeeds exactly when the input bytes decode to a curve point and the
/// epoch tag is still evaluable, and then returns a compressed point that
/// depends only on the key material, the input and the tag.
#[verifier::external_body]
pub(crate) fn server_eval(server: &ppoprf::ppoprf::Server, input: &Vec<u8>, epoch: u8, verifiable: bool) -> (r: Result<Vec<u8>, ppoprf::PPRFError>)
    requires
        input@.len() == COMPRESSED_POINT_LEN,
    ensures
        r is Ok ==> point_decodes(input@) && epochs_of(*server).contains(epoch),
        point_decodes(input@) && epochs_of(*server).contains(epoch) ==> r is Ok,
        r is Ok ==> r->Ok_0@ == eval_of(*server, input@, epoch),
        r is Ok ==> r->Ok_0@.len() == COMPRESSED_POINT_LEN,
{
    let point = ppoprf::ppoprf::Point::from(input.as_slice());
    match server.eval(&point, epoch, verifiable) {
        Ok(evaluation) => Ok(evaluation.output.as_bytes().to_vec()),
        Err(e) => Err(e),
    }
}

/// Relies on `ppoprf::ppoprf::Server::puncture`: puncturing succeeds
/// whenever the tag is still evaluable, removes exactly that tag from
/// the evaluable set, leaves the public key as it was, and mutates
/// nothing on failure.
#[verifier::external_body]
pub(crate) fn server_puncture(server: &mut ppoprf::ppoprf::Server, epoch: u8) -> (r: Result<
    (),
    ppoprf::PPRFError,
>)
    ensures
        epochs_of(*old(server)).contains(epoch) ==> r is Ok,
        r is Ok ==> epochs_of(*final(server)) == epochs_of(*old(server)).remove(epoch),
        r is Ok ==> pubkey_of(*final(server)) == pubkey_of(*old(server)),
        r is Err ==> *final(server) == *old(server),
{
    server.puncture(epoch)
}

/// Relies on `ppoprf::ppoprf::Server::get_public_key` and
/// `ServerPublicKey::serialize_to_bincode`: serializing the public key
/// — fixed-size compressed points in a map, with no length limit set —
/// always succeeds, and the bytes are a function of the server's key
/// material alone.
#[verifier::external_body]
pub(crate) fn server_public_key_bytes(server: &ppoprf::ppoprf::Server) -> (r: Result<
    Vec<u8>,
    ppoprf::PPRFError,
>)
    ensures
        r is Ok,
        r is Ok ==> r->Ok_0@ == pubkey_of(*server),
{
    server.get_public_key().serialize_to_bincode()
}

/// Relies on the `Display` impl `derive_more` writes for
/// `ppoprf::PPRFError`, for a human-readable message.
#[verifier::external_body]
pub(crate) fn pprf_error_message(e: &ppoprf::PPRFError) -> String {
    format!("{}", e)
}

} // verus!

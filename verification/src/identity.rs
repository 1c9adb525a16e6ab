//! Peer identities derived from a one-byte seed.

use libp2p::identity::DecodingError;
use libp2p::identity::Keypair;
use vstd::prelude::*;

verus! {

/// The key pair type of the networking stack. Nothing inside it is visible here.
#[verifier::external_type_specification]
#[verifier::external_body]
pub struct ExKeypair(Keypair);

/// The error with which the networking stack rejects key material.
#[verifier::external_type_specification]
#[verifier::external_body]
pub struct ExDecodingError(DecodingError);

/// Length in bytes of an Ed25519 secret key.
pub const SECRET_KEY_LEN: usize = 32;

/// The secret key that belongs to a seed: the seed, then zeros.
pub open spec fn secret_key_bytes(seed: u8) -> Seq<u8> {
    Seq::new(SECRET_KEY_LEN as nat, |i: int| if i == 0 { seed } else { 0u8 })
}

/// The Ed25519 key pair that `Keypair::ed25519_from_bytes` derives from a
/// secret key. The derivation reads nothing but the key.
pub uninterp spec fn ed25519_keypair(secret: Seq<u8>) -> Keypair;

/// Calls `Keypair::ed25519_from_bytes`. It fails only on a slice that is not
/// 32 bytes long, which an array of that length never is, and the pair it
/// returns is the one that belongs to the secret key.
#[verifier::external_body]
fn keypair_from_secret(secret: [u8; 32]) -> (r: Result<Keypair, DecodingError>)
    ensures
        r is Ok,
        r->Ok_0 == ed25519_keypair(secret@),
{
    Keypair::ed25519_from_bytes(secret)
}

/// Writes the secret key of a seed.
pub fn secret_key(seed: u8) -> (secret: [u8; 32])
    ensures
        secret@ == secret_key_bytes(seed),
{
    let mut secret: [u8; 32] = [0u8; 32];
    secret[0] = seed;
    assert(secret@ =~= secret_key_bytes(seed));
    secret
}

/// Derives the identity of a peer from its seed.
pub fn generate_ed25519(seed: u8) -> (keypair: Keypair)
    ensures
        keypair == ed25519_keypair(secret_key_bytes(seed)),
{
    let derived = keypair_from_secret(secret_key(seed));
    derived.unwrap()
}

/// The identity of a peer is a function of its seed: the same seed gives the
/// same key pair, every time. Two seeds that differ give secret keys that
/// differ.
pub proof fn lemma_identity_is_determined_by_seed(first: u8, second: u8)
    ensures
        first == second ==> ed25519_keypair(secret_key_bytes(first)) == ed25519_keypair(
            secret_key_bytes(second),
        ),
        first != second ==> secret_key_bytes(first) != secret_key_bytes(second),
        secret_key_bytes(first).len() == SECRET_KEY_LEN,
{
    assert(secret_key_bytes(first)[0] == first);
    assert(secret_key_bytes(second)[0] == second);
}

} // verus!

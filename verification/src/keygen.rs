//! Producing candidate keypairs. Each candidate is held as plain bytes:
//! the full 64-byte keypair encoding and the 32 public-key bytes.

use vstd::prelude::*;
use solana_sdk::signature::Signer;

verus! {

/// A generated keypair, as plain bytes. `bytes` is the canonical 64-byte
/// form: the 32 secret bytes followed by the 32 public-key bytes; `pubkey`
/// repeats those public-key bytes on their own.
pub struct VanityKeypair {
    pub bytes: Vec<u8>,
    pub pubkey: Vec<u8>,
}

impl VanityKeypair {
    /// The two fields agree: 64 keypair bytes whose upper half is `pubkey`.
    pub open spec fn wf(&self) -> bool {
        &&& self.bytes@.len() == 64
        &&& self.pubkey@.len() == 32
        &&& self.pubkey@ == self.bytes@.subrange(32, 64)
    }
}

/// Relies on solana_sdk's `Keypair::new`, which draws 32 secret bytes from the
/// operating system's entropy source and derives the public key from them;
/// `Keypair::to_bytes` lays out the 32 secret bytes followed by the 32
/// public-key bytes, and `Signer::pubkey` returns those same public-key bytes.
/// The result is random: nothing is stated beyond the layout. An exhausted
/// entropy source aborts the process, as the underlying call does.
#[verifier::external_body]
fn generate_keypair() -> (r: VanityKeypair)
    ensures
        r.wf(),
{
    let kp = solana_sdk::signature::Keypair::new();
    let bytes = kp.to_bytes().to_vec();
    let pubkey = kp.pubkey().to_bytes().to_vec();
    VanityKeypair { bytes, pubkey }
}

/// Produces one fresh random keypair.
pub fn generate() -> (r: VanityKeypair)
    ensures
        r.wf(),
{
    generate_keypair()
}

} // verus!

//! Searching for Solana vanity addresses: keypairs whose Base58-encoded
//! public key starts or ends with a caller-chosen pattern.
//!
//! The search is probabilistic and has no internal bound: it dispatches
//! batches of independent generate-encode-match attempts across a worker
//! pool until one attempt matches, and returns that single keypair together
//! with the attempt count and the elapsed time.

use vstd::prelude::*;

pub mod api;
pub mod clock;
pub mod encoder;
pub mod keygen;
pub mod matcher;
pub mod pool;

use crate::clock::{elapsed_millis, monotonic_now};
use crate::encoder::{base58_of, encode};
use crate::keygen::{generate, VanityKeypair};
use crate::matcher::{spec_ends_with, spec_matches, spec_starts_with, MatchSpec, Position};
use crate::pool::{build_pool, run_batch, search_unbounded};

verus! {

/// How many attempts one dispatched batch holds; the termination signal is
/// observed between batches and between the attempts of a batch.
pub const BATCH_SIZE: u64 = 100000;

/// Result of a successful vanity address search: the one matching keypair,
/// the elapsed wall-clock time in milliseconds, and the attempt counter.
/// The counter is telemetry, not a correctness quantity: it counts whole
/// dispatched batches on the worker pool and exact attempts on the calling
/// thread, saturating rather than wrapping, and is always at least one.
pub struct VanityResult {
    pub keypair: VanityKeypair,
    pub elapsed_ms: u128,
    pub attempts: u64,
}

/// One search attempt: generate a keypair, encode its public key, and keep
/// the keypair exactly when the encoded address satisfies `spec`.
pub(crate) fn attempt_once(spec: &MatchSpec) -> (r: Option<VanityKeypair>)
    ensures
        r matches Some(kp) ==> kp.wf() && spec_matches(
            base58_of(kp.pubkey@),
            spec.pattern@,
            spec.position,
        ),
{
    let kp = generate();
    let address = encode(&kp.pubkey);
    if crate::matcher::matches(address.as_str(), spec) {
        Some(kp)
    } else {
        None
    }
}

/// Accepts a candidate only after checking it over again: the two byte fields
/// must agree, and the freshly re-encoded address must satisfy `spec`. The
/// parallel executor's word is not taken for any of this.
fn confirm_candidate(kp: &VanityKeypair, spec: &MatchSpec) -> (b: bool)
    ensures
        b ==> kp.wf() && spec_matches(base58_of(kp.pubkey@), spec.pattern@, spec.position),
{
    if kp.bytes.len() != 64 || kp.pubkey.len() != 32 {
        return false;
    }
    let mut i: usize = 0;
    while i < 32
        invariant
            i <= 32,
            kp.bytes@.len() == 64,
            kp.pubkey@.len() == 32,
            forall|j: int| 0 <= j < i ==> kp.bytes@[32 + j] == kp.pubkey@[j],
        decreases 32 - i,
    {
        if kp.bytes[32 + i] != kp.pubkey[i] {
            return false;
        }
        i = i + 1;
    }
    proof {
        assert(kp.pubkey@ =~= kp.bytes@.subrange(32, 64));
    }
    let address = encode(&kp.pubkey);
    crate::matcher::matches(address.as_str(), spec)
}

/// Runs up to `batch` attempts on the calling thread, stopping at the first
/// match. Returns the match, if any, and how many attempts were made.
fn run_batch_sequential(spec: &MatchSpec, batch: u64) -> (r: (Option<VanityKeypair>, u64))
    requires
        batch >= 1,
    ensures
        r.0 matches Some(kp) ==> kp.wf() && spec_matches(
            base58_of(kp.pubkey@),
            spec.pattern@,
            spec.position,
        ),
        1 <= r.1 <= batch,
        r.0 is None ==> r.1 == batch,
{
    let mut i: u64 = 0;
    while i < batch
        invariant
            i <= batch,
        decreases batch - i,
    {
        i = i + 1;
        let r = attempt_once(spec);
        if r.is_some() {
            return (r, i);
        }
    }
    (None, batch)
}

/// The search coordinator: dispatches batches of independent attempts until
/// one matches, then returns that single keypair, the attempt counter and the
/// elapsed time. With more than one worker the batches run on a pool owned by
/// this call; with one worker, or when no pool can be built, they run on the
/// calling thread. Termination is probabilistic: a pattern no address can
/// carry keeps the search running, and any bound on its time must come from
/// the caller.
pub fn search(spec: &MatchSpec, worker_count: usize) -> (r: VanityResult)
    ensures
        r.keypair.wf(),
        spec_matches(base58_of(r.keypair.pubkey@), spec.pattern@, spec.position),
        r.attempts >= 1,
{
    let start = monotonic_now();
    let pool: Option<rayon::ThreadPool> = if worker_count > 1 {
        build_pool(worker_count)
    } else {
        None
    };
    let mut attempts: u64 = 0;
    let mut winner: Option<VanityKeypair> = None;
    let mut fuel: u64 = u64::MAX;
    while winner.is_none() && fuel > 0
        invariant
            winner matches Some(kp) ==> kp.wf() && spec_matches(
                base58_of(kp.pubkey@),
                spec.pattern@,
                spec.position,
            ),
            winner is Some ==> attempts >= 1,
            fuel < u64::MAX ==> attempts >= 1,
        decreases fuel,
    {
        fuel = fuel - 1;
        match &pool {
            Some(p) => {
                let candidate = run_batch(p, spec, BATCH_SIZE);
                attempts = attempts.saturating_add(BATCH_SIZE);
                if let Some(kp) = candidate {
                    if confirm_candidate(&kp, spec) {
                        winner = Some(kp);
                    }
                }
            },
            None => {
                let (candidate, made) = run_batch_sequential(spec, BATCH_SIZE);
                attempts = attempts.saturating_add(made);
                if candidate.is_some() {
                    winner = candidate;
                }
            },
        }
    }
    let keypair = match winner {
        Some(kp) => kp,
        None => search_unbounded(spec),
    };
    VanityResult { keypair, elapsed_ms: elapsed_millis(&start), attempts }
}

/// Searches for a keypair whose Base58-encoded public key starts with the
/// given prefix, using the given number of worker threads.
pub fn find_vanity_address(prefix: &str, num_threads: usize) -> (r: VanityResult)
    ensures
        r.keypair.wf(),
        spec_starts_with(base58_of(r.keypair.pubkey@), prefix@),
        r.attempts >= 1,
{
    let spec = MatchSpec { pattern: prefix.to_owned(), position: Position::Prefix };
    search(&spec, num_threads)
}

/// Searches for a keypair whose Base58-encoded public key ends with the
/// given suffix, using the given number of worker threads.
pub fn find_vanity_address_with_suffix(suffix: &str, num_threads: usize) -> (r: VanityResult)
    ensures
        r.keypair.wf(),
        spec_ends_with(base58_of(r.keypair.pubkey@), suffix@),
        r.attempts >= 1,
{
    let spec = MatchSpec { pattern: suffix.to_owned(), position: Position::Suffix };
    search(&spec, num_threads)
}

} // verus!

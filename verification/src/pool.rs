//! The parallel executor: a per-search worker pool that fans independent
//! attempts out across threads. Every candidate a batch hands back is
//! re-checked by the verified coordinator before it is accepted.

use vstd::prelude::*;
use rayon::iter::{IntoParallelIterator, ParallelIterator};
use crate::attempt_once;
use crate::encoder::base58_of;
use crate::keygen::VanityKeypair;
use crate::matcher::{spec_matches, MatchSpec};

verus! {

#[verifier::external_type_specification]
#[verifier::external_body]
pub struct ExThreadPool(rayon::ThreadPool);

/// Relies on rayon's `ThreadPoolBuilder`: `build` yields a pool with the given
/// number of worker threads (a count of zero selects rayon's default), or an
/// error when the threads cannot be spawned, which `ok` turns into `None`.
#[verifier::external_body]
pub(crate) fn build_pool(worker_count: usize) -> (r: Option<rayon::ThreadPool>) {
    rayon::ThreadPoolBuilder::new().num_threads(worker_count).build().ok()
}

/// Relies on rayon's `ThreadPool::install` and `ParallelIterator::find_map_any`:
/// the closure runs on the pool's workers for up to `batch` items, and once one
/// call returns `Some` the remaining attempts are cut short. Nothing is stated
/// of the result: the coordinator re-checks any candidate it receives.
#[verifier::external_body]
pub(crate) fn run_batch(pool: &rayon::ThreadPool, spec: &MatchSpec, batch: u64) -> (r: Option<
    VanityKeypair,
>) {
    pool.install(|| (0..batch).into_par_iter().find_map_any(|_| attempt_once(spec)))
}

/// Relies on rayon's `repeat` and `ParallelIterator::find_map_any`: `repeat`
/// yields items without end, and `find_map_any` returns only a value that the
/// supplied closure produced — here the verified `attempt_once`, whose contract
/// gives exactly what is stated below. With an endless iterator the `None`
/// (exhaustion) case cannot arise, so the `unwrap` cannot panic. This backs
/// the coordinator's bounded driver once its batch budget — more batches than
/// can run in practice — is spent.
#[verifier::external_body]
pub(crate) fn search_unbounded(spec: &MatchSpec) -> (r: VanityKeypair)
    ensures
        r.wf(),
        spec_matches(base58_of(r.pubkey@), spec.pattern@, spec.position),
{
    rayon::iter::repeat(()).find_map_any(|_| attempt_once(spec)).unwrap()
}

} // verus!

//! Work spread over a pool of threads, one call per agent.

use vstd::prelude::*;
use rayon::iter::{IndexedParallelIterator, IntoParallelIterator, ParallelIterator};

verus! {

/// `f(0), f(1), …, f(n - 1)`, computed on rayon's thread pool.
///
/// Relies on rayon's `into_par_iter` over `0..n`, `map` and
/// `collect_into_vec`: the indexed iterator calls `f` once per index and
/// stores the result of index `i` at position `i`, whatever the threads'
/// interleaving.
#[verifier::external_body]
pub(crate) fn par_map<T: Send, F: Fn(usize) -> T + Sync + Send>(n: usize, f: F) -> (r: Vec<T>)
    requires
        forall|i: usize| i < n ==> #[trigger] f.requires((i,)),
    ensures
        r.len() == n,
        forall|i: int| 0 <= i < n ==> f.ensures((i as usize,), #[trigger] r[i]),
{
    let mut r = Vec::new();
    (0..n).into_par_iter().map(f).collect_into_vec(&mut r);
    r
}

} // verus!

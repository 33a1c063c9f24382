//! How the asynchronous runtime is sized and its threads named.

use vstd::prelude::*;
use crate::text::{decimal, push_decimal};
use vstd::string::StringExecFns;

verus! {

/// The most worker threads the runtime uses.
pub const MAX_WORKERS: usize = 16;

/// The worker and blocking-thread limits for a machine with `available`
/// parallelism (`None` when unknown, counted as 1): at most 16 workers, and
/// four blocking threads per worker.
pub fn runtime_thread_limits(available: Option<usize>) -> (r: (usize, usize))
    ensures
        r.0 == (match available {
            Some(n) => if n < MAX_WORKERS { n } else { MAX_WORKERS },
            None => 1,
        }),
        r.1 == 4 * r.0,
{
    let parallelism = match available {
        Some(n) => n,
        None => 1,
    };
    let workers = if parallelism < MAX_WORKERS { parallelism } else { MAX_WORKERS };
    (workers, 4 * workers)
}

/// The name of the runtime's `id`-th thread.
pub fn runtime_thread_name(id: usize) -> (s: String)
    ensures
        s@ == "clash-verge-runtime-"@ + decimal(id as nat),
{
    let mut s = String::from_str("clash-verge-runtime-");
    push_decimal(&mut s, id as u64);
    s
}

} // verus!

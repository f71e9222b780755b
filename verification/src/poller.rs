//! The per-tick glue: drain whatever results the worker has delivered into
//! the caller's ordered list, without ever waiting on the worker.

use vstd::prelude::*;

use crate::cards::NewsCardData;
use crate::channel::WorkerHandle;

verus! {

/// Appends to `sink`, in receipt order, every result already delivered by
/// the worker, and stops as soon as none is pending: one poll per appended
/// card and one final empty poll, never a wait. What was in `sink` stays
/// there, in place.
pub fn drain_into(worker: &mut WorkerHandle, sink: &mut Vec<NewsCardData>)
    ensures
        *final(worker) == *old(worker),
        final(sink)@.len() >= old(sink)@.len(),
        forall|i: int| 0 <= i < old(sink)@.len() ==> final(sink)@[i] == old(sink)@[i],
{
    // The bound keeps the loop provably finite; a producer would have to
    // outrun the drain for usize::MAX polls in one tick to reach it.
    let mut fuel: usize = usize::MAX;
    let mut more = true;
    while more && fuel > 0
        invariant
            *worker == *old(worker),
            sink@.len() >= old(sink)@.len(),
            forall|i: int| 0 <= i < old(sink)@.len() ==> sink@[i] == old(sink)@[i],
        decreases fuel,
    {
        fuel = fuel - 1;
        match worker.try_receive() {
            Some(card) => {
                sink.push(card);
            },
            None => {
                more = false;
            },
        }
    }
}

} // verus!

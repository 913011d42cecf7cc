//! Decisions behind the tray menu's list of top offenders.
use vstd::prelude::*;

verus! {

/// The PIDs of a list of (PID, name, memory) entries, in order.
pub open spec fn pids_of(consumers: Seq<(u32, String, u64)>) -> Seq<u32> {
    Seq::new(consumers.len(), |i: int| consumers[i].0)
}

/// The PIDs of the listed consumers, in order.
pub fn consumer_pids(consumers: &Vec<(u32, String, u64)>) -> (pids: Vec<u32>)
    ensures
        pids@ == pids_of(consumers@),
{
    let mut pids: Vec<u32> = Vec::new();
    let mut i: usize = 0;
    while i < consumers.len()
        invariant
            i <= consumers.len(),
            pids@ == pids_of(consumers@).take(i as int),
        decreases consumers.len() - i,
    {
        pids.push(consumers[i].0);
        i += 1;
        assert(pids@ =~= pids_of(consumers@).take(i as int));
    }
    assert(pids@ =~= pids_of(consumers@));
    pids
}

/// Whether the menu must be rebuilt for a new list of consumers: only when
/// the PIDs shown (in order) differ from those shown last time.
pub fn menu_needs_rebuild(shown: &Vec<u32>, consumers: &Vec<(u32, String, u64)>) -> (rebuild: bool)
    ensures
        rebuild == (shown@ != pids_of(consumers@)),
{
    if shown.len() != consumers.len() {
        return true;
    }
    let mut i: usize = 0;
    while i < shown.len()
        invariant
            shown.len() == consumers.len(),
            i <= shown.len(),
            forall|j: int| 0 <= j < i ==> shown@[j] == consumers@[j].0,
        decreases shown.len() - i,
    {
        if shown[i] != consumers[i].0 {
            assert(shown@[i as int] != pids_of(consumers@)[i as int]);
            return true;
        }
        i += 1;
    }
    assert(shown@ =~= pids_of(consumers@));
    false
}

} // verus!

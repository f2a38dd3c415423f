use vstd::prelude::*;

verus! {

/// The ordered id list that `who` owns in an append-only index log of
/// `(identity, id)` entries: the ids of the entries for `who`, in log order.
pub open spec fn ids_for(log: Seq<(u64, u32)>, who: u64) -> Seq<u32>
    decreases log.len(),
{
    if log.len() == 0 {
        Seq::empty()
    } else if log.last().0 == who {
        ids_for(log.drop_last(), who).push(log.last().1)
    } else {
        ids_for(log.drop_last(), who)
    }
}

/// Appending an entry to the log appends its id to exactly the owner's list
/// and leaves every other identity's list unchanged.
pub proof fn lemma_ids_for_push(log: Seq<(u64, u32)>, who: u64, entry: (u64, u32))
    ensures
        entry.0 == who ==> ids_for(log.push(entry), who) == ids_for(log, who).push(entry.1),
        entry.0 != who ==> ids_for(log.push(entry), who) == ids_for(log, who),
{
    assert(log.push(entry).drop_last() =~= log);
}

/// Collects the ids owned by `who`, in log order.
pub fn ids_in_log(log: &Vec<(u64, u32)>, who: u64) -> (r: Vec<u32>)
    ensures
        r@ == ids_for(log@, who),
{
    let mut r: Vec<u32> = Vec::new();
    let mut i: usize = 0;
    while i < log.len()
        invariant
            i <= log@.len(),
            r@ == ids_for(log@.take(i as int), who),
        decreases log@.len() - i,
    {
        let entry = log[i];
        if entry.0 == who {
            r.push(entry.1);
        }
        proof {
            assert(log@.take(i as int + 1).drop_last() =~= log@.take(i as int));
            assert(log@.take(i as int + 1).last() == log@[i as int]);
        }
        i = i + 1;
    }
    proof {
        assert(log@.take(log@.len() as int) =~= log@);
    }
    r
}

} // verus!

//! Registries of protocol objects that may be gone.
use vstd::prelude::*;

verus! {

/// The handles that could be upgraded, in order.
pub open spec fn live_handles<S>(upgraded: Seq<Option<S>>) -> Seq<S>
    decreases upgraded.len(),
{
    if upgraded.len() == 0 {
        seq![]
    } else {
        let rest = live_handles(upgraded.drop_last());
        match upgraded.last() {
            Some(handle) => rest.push(handle),
            None => rest,
        }
    }
}

/// The entries whose handle could be upgraded, in order.
pub open spec fn live_entries<O, S>(entries: Seq<O>, upgraded: Seq<Option<S>>) -> Seq<O>
    decreases upgraded.len(),
{
    if upgraded.len() == 0 {
        seq![]
    } else {
        let rest = live_entries(entries.drop_last(), upgraded.drop_last());
        if upgraded.last() is Some {
            rest.push(entries.last())
        } else {
            rest
        }
    }
}

/// Removes the entries that could not be upgraded, and returns the handles of the others.
pub fn reap<O, S>(entries: &mut Vec<O>, upgraded: Vec<Option<S>>) -> (alive: Vec<S>)
    requires
        upgraded@.len() == old(entries)@.len(),
    ensures
        alive@ == live_handles(upgraded@),
        final(entries)@ == live_entries(old(entries)@, upgraded@),
{
    let ghost before = entries@;
    let ghost handles = upgraded@;
    let mut alive: Vec<S> = Vec::new();
    let mut kept: usize = 0;
    for handle in iter: upgraded
        invariant
            iter.seq() == handles,
            handles.len() == before.len(),
            kept == live_entries(before.take(iter.index()), handles.take(iter.index())).len(),
            alive@ == live_handles(handles.take(iter.index())),
            entries@ == live_entries(before.take(iter.index()), handles.take(iter.index()))
                + before.skip(iter.index()),
    {
        let ghost index = iter.index();
        let ghost done = live_entries(before.take(index), handles.take(index));
        proof {
            assert(kept < entries.len());
            assert(handles.take(index + 1).drop_last() =~= handles.take(index));
            assert(before.take(index + 1).drop_last() =~= before.take(index));
            assert(handles.take(index + 1).last() == handle);
            assert(before.take(index + 1).last() == before[index]);
        }
        match handle {
            Some(handle) => {
                alive.push(handle);
                kept += 1;
                assert(entries@ =~= done.push(before[index]) + before.skip(index + 1));
            },
            None => {
                entries.remove(kept);
                assert(entries@ =~= done + before.skip(index + 1));
            },
        }
    }
    proof {
        assert(handles.take(handles.len() as int) =~= handles);
        assert(before.take(before.len() as int) =~= before);
        assert(entries@ =~= live_entries(before, handles));
    }
    alive
}

/// After reaping, there is an entry for each live handle and no other.
pub proof fn lemma_reap_keeps_live<O, S>(entries: Seq<O>, upgraded: Seq<Option<S>>)
    requires
        entries.len() == upgraded.len(),
    ensures
        live_entries(entries, upgraded).len() == live_handles(upgraded).len(),
        live_entries(entries, upgraded).len() <= entries.len(),
    decreases upgraded.len(),
{
    if upgraded.len() > 0 {
        lemma_reap_keeps_live(entries.drop_last(), upgraded.drop_last());
    }
}

/// Where every entry is live, reaping changes nothing.
pub proof fn lemma_reap_of_live_is_identity<O, S>(entries: Seq<O>, upgraded: Seq<Option<S>>)
    requires
        entries.len() == upgraded.len(),
        forall|i: int| 0 <= i < upgraded.len() ==> #[trigger] upgraded[i] is Some,
    ensures
        live_entries(entries, upgraded) == entries,
    decreases upgraded.len(),
{
    if upgraded.len() > 0 {
        assert forall|i: int| 0 <= i < upgraded.drop_last().len() implies #[trigger]
            upgraded.drop_last()[i] is Some by {
            assert(upgraded[i] is Some);
        }
        lemma_reap_of_live_is_identity(entries.drop_last(), upgraded.drop_last());
        assert(upgraded[upgraded.len() - 1] is Some);
    }
    assert(live_entries(entries, upgraded) =~= entries);
}

/// Reaping keeps exactly the live entries, in order, each with its own handle.
///
/// `kept` holds the places of what stays: they ascend, there is one for each live handle, and
/// what stands at place `kept[k]` comes out as number `k`.
pub proof fn lemma_reap_is_exact<O, S>(
    entries: Seq<O>,
    upgraded: Seq<Option<S>>,
) -> (kept: Seq<int>)
    requires
        entries.len() == upgraded.len(),
    ensures
        live_handles(upgraded).len() == kept.len(),
        live_entries(entries, upgraded).len() == kept.len(),
        forall|k: int|
            0 <= k < kept.len() ==> {
                &&& 0 <= #[trigger] kept[k] < upgraded.len()
                &&& upgraded[kept[k]] == Some(live_handles(upgraded)[k])
                &&& entries[kept[k]] == live_entries(entries, upgraded)[k]
            },
        forall|j: int, k: int| 0 <= j < k < kept.len() ==> #[trigger] kept[j] < #[trigger] kept[k],
        forall|i: int|
            0 <= i < upgraded.len() ==> (#[trigger] upgraded[i] is Some <==> kept.contains(i)),
    decreases upgraded.len(),
{
    if upgraded.len() == 0 {
        seq![]
    } else {
        let last = upgraded.len() - 1;
        let shorter = upgraded.drop_last();
        let rest = lemma_reap_is_exact(entries.drop_last(), shorter);
        if upgraded.last() is Some {
            let kept = rest.push(last);
            assert forall|i: int| 0 <= i < upgraded.len() implies (#[trigger] upgraded[i] is Some
                <==> kept.contains(i)) by {
                if i == last {
                    assert(kept[rest.len() as int] == last);
                } else {
                    assert(shorter[i] == upgraded[i]);
                    if rest.contains(i) {
                        let k = rest.index_of(i);
                        assert(kept[k] == i);
                    }
                    if kept.contains(i) {
                        let k = kept.index_of(i);
                        assert(rest[k] == i);
                    }
                }
            }
            kept
        } else {
            assert forall|i: int| 0 <= i < upgraded.len() implies (#[trigger] upgraded[i] is Some
                <==> rest.contains(i)) by {
                if i < last {
                    assert(shorter[i] == upgraded[i]);
                } else if rest.contains(i) {
                    let k = rest.index_of(i);
                    assert(rest[k] < shorter.len());
                }
            }
            rest
        }
    }
}

} // verus!

use vstd::prelude::*;

use crate::dispatch::{after_emission, is_emission, Invocation};
use crate::signal::{is_registry, without, ListenerId, SignalCtor};

verus! {

/// `s` holds `id` at exactly one position.
pub open spec fn holds_once(s: Seq<ListenerId>, id: ListenerId) -> bool {
    exists|i: int| 0 <= i < s.len() && s[i] == id && forall|j: int| 0 <= j < s.len() && s[j] == id ==> j == i
}

/// Removing an identity that `ids` holds once leaves the rest in order and
/// drops that identity.
pub proof fn lemma_without(ids: Seq<ListenerId>, id: ListenerId)
    requires
        ids.no_duplicates(),
    ensures
        !without(ids, id).contains(id),
        without(ids, id).no_duplicates(),
        forall|x: ListenerId| x != id ==> (ids.contains(x) <==> without(ids, id).contains(x)),
{
    if ids.contains(id) {
        let k = ids.index_of(id);
        let r = ids.remove(k);
        assert forall|x: ListenerId| x != id implies (ids.contains(x) <==> r.contains(x)) by {
            if ids.contains(x) {
                let i = choose|i: int| 0 <= i < ids.len() && ids[i] == x;
                if i < k {
                    assert(r[i] == x);
                } else {
                    assert(i != k);
                    assert(r[i - 1] == x);
                }
            }
            if r.contains(x) {
                let i = choose|i: int| 0 <= i < r.len() && r[i] == x;
                if i < k {
                    assert(ids[i] == x);
                } else {
                    assert(ids[i + 1] == x);
                }
            }
        }
        assert forall|i: int| 0 <= i < r.len() implies r[i] != id by {
            if i < k {
                assert(ids[i] == r[i]);
            } else {
                assert(ids[i + 1] == r[i]);
            }
        }
        assert forall|i: int, j: int| 0 <= i < r.len() && 0 <= j < r.len() && i != j implies r[i]
            != r[j] by {
            let a = if i < k { i } else { i + 1 };
            let b = if j < k { j } else { j + 1 };
            assert(r[i] == ids[a] && r[j] == ids[b]);
        }
    }
}

/// After a listener is registered the registry holds its identity exactly
/// once, and registering that identity again adds nothing.
pub proof fn registration_round_trip(ids: Seq<ListenerId>, next: u64)
    requires
        is_registry(ids, next),
        next < u64::MAX,
    ensures
        ({
            let after = ids.push(next);
            &&& holds_once(after, next)
            &&& is_registry(after, (next + 1) as u64)
            &&& !(next < next + 1 && !after.contains(next))
        }),
{
    let after = ids.push(next);
    assert(after[ids.len() as int] == next);
    assert forall|j: int| 0 <= j < after.len() && after[j] == next implies j == ids.len() by {
        if j < ids.len() {
            assert(ids[j] == after[j]);
        }
    }
}

/// Removing a listener that was just registered finds it and leaves the
/// registry as it was before; removing an identity that is not registered
/// finds nothing and changes nothing, and so does removing one twice.
pub proof fn removal_correctness(ids: Seq<ListenerId>, next: u64, id: ListenerId)
    requires
        is_registry(ids, next),
        next < u64::MAX,
    ensures
        ids.push(next).contains(next),
        without(ids.push(next), next) == ids,
        !ids.contains(id) ==> without(ids, id) == ids,
        !without(ids, id).contains(id),
        without(without(ids, id), id) == without(ids, id),
{
    let after = ids.push(next);
    assert(after[ids.len() as int] == next);
    assert(!ids.contains(next));
    let k = after.index_of(next);
    assert(k == ids.len()) by {
        if k < ids.len() {
            assert(ids[k] == after[k]);
        }
    }
    assert(after.remove(k) =~= ids);
    lemma_without(ids, id);
}

/// With no listener halting it, an emission reaches every listener of its
/// snapshot once, in order.
pub proof fn fan_out(snap: Seq<ListenerId>, trace: Seq<Invocation>)
    requires
        is_emission(snap, trace),
        forall|i: int| 0 <= i < trace.len() ==> #[trigger] trace[i].1 is None,
    ensures
        trace.len() == snap.len(),
        trace.map_values(|c: Invocation| c.0) == snap,
{
    if trace.len() < snap.len() {
        assert(trace[trace.len() - 1].1 is None);
    }
    assert(trace.map_values(|c: Invocation| c.0) =~= snap);
}

/// A listener that returns `BREAK` is the last one its emission reaches,
/// every listener before it was reached, and the registry keeps them all.
pub proof fn break_halts(ids: Seq<ListenerId>, trace: Seq<Invocation>, k: int)
    requires
        is_emission(ids, trace),
        0 <= k < trace.len(),
        trace[k].1 == Some(SignalCtor::BREAK),
    ensures
        trace.len() == k + 1,
        forall|i: int| 0 <= i <= k ==> #[trigger] trace[i].0 == ids[i],
        after_emission(ids, trace) == ids,
{
    if k < trace.len() - 1 {
        assert(trace[k].1 is None);
    }
}

/// A listener that returns `OFF` is the last one its emission reaches, and
/// the next emission does not reach it.
pub proof fn unsubscribe_halts(
    ids: Seq<ListenerId>,
    trace: Seq<Invocation>,
    k: int,
    next_trace: Seq<Invocation>,
)
    requires
        ids.no_duplicates(),
        is_emission(ids, trace),
        0 <= k < trace.len(),
        trace[k].1 == Some(SignalCtor::OFF),
        is_emission(after_emission(ids, trace), next_trace),
    ensures
        trace.len() == k + 1,
        !after_emission(ids, trace).contains(ids[k]),
        forall|i: int| 0 <= i < next_trace.len() ==> #[trigger] next_trace[i].0 != ids[k],
{
    if k < trace.len() - 1 {
        assert(trace[k].1 is None);
    }
    lemma_without(ids, ids[k]);
    let after = after_emission(ids, trace);
    assert forall|i: int| 0 <= i < next_trace.len() implies #[trigger] next_trace[i].0 != ids[k] by {
        assert(next_trace[i].0 == after[i]);
    }
}

/// An emission works from its snapshot alone: while the listeners before
/// position `k` let it continue, it reaches the listener there, even one that
/// was meanwhile removed from the live registry, which the next emission then
/// no longer reaches.
pub proof fn snapshot_isolation(
    snap: Seq<ListenerId>,
    trace: Seq<Invocation>,
    k: int,
    live: Seq<ListenerId>,
)
    requires
        is_emission(snap, trace),
        0 <= k < snap.len(),
        forall|i: int| 0 <= i < k && i < trace.len() ==> #[trigger] trace[i].1 is None,
        live.no_duplicates(),
    ensures
        k < trace.len(),
        trace[k].0 == snap[k],
        !without(live, snap[k]).contains(snap[k]),
{
    if trace.len() <= k {
        assert(trace[trace.len() - 1].1 is None);
    }
    lemma_without(live, snap[k]);
}

/// Once the registry is cleared an emission reaches no listener, and
/// removing any identity finds nothing.
pub proof fn clear_empties(trace: Seq<Invocation>, id: ListenerId)
    requires
        is_emission(Seq::<ListenerId>::empty(), trace),
    ensures
        trace.len() == 0,
        !Seq::<ListenerId>::empty().contains(id),
        without(Seq::<ListenerId>::empty(), id) == Seq::<ListenerId>::empty(),
{
}

} // verus!

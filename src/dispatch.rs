use vstd::prelude::*;

use crate::signal::{without, Callback, ListenerId, Signal, SignalCtor};

verus! {

/// One invocation of an emission: whom it reached and what that listener returned.
pub type Invocation = (ListenerId, Option<SignalCtor>);

/// `trace` is a run of the dispatch loop over the snapshot `snap`: it reaches
/// the listeners in snapshot order, each one only after all before it let the
/// emission continue, and it ends early only where the last one halted it.
pub open spec fn is_emission(snap: Seq<ListenerId>, trace: Seq<Invocation>) -> bool {
    &&& trace.len() <= snap.len()
    &&& forall|i: int| 0 <= i < trace.len() ==> #[trigger] trace[i].0 == snap[i]
    &&& forall|i: int| 0 <= i < trace.len() - 1 ==> #[trigger] trace[i].1 is None
    &&& trace.len() < snap.len() ==> trace.len() > 0 && trace.last().1 is Some
}

/// The registry `ids` once the run `trace` is over: a listener that returned
/// `OFF` is gone, every other listener stays.
pub open spec fn after_emission(ids: Seq<ListenerId>, trace: Seq<Invocation>) -> Seq<ListenerId> {
    if trace.len() > 0 && trace.last().1 == Some(SignalCtor::OFF) {
        without(ids, trace.last().0)
    } else {
        ids
    }
}

/// The registry after `outcome` from the listener `id`.
pub open spec fn settled(ids: Seq<ListenerId>, id: ListenerId, outcome: Option<SignalCtor>) -> Seq<
    ListenerId,
> {
    if outcome == Some(SignalCtor::OFF) {
        without(ids, id)
    } else {
        ids
    }
}

/// An emission under way: the snapshot it works from and how far it got.
/// It never reads the live registry again, so listeners registered or removed
/// meanwhile only count from the next emission on.
pub struct Dispatch<L> {
    ids: Vec<ListenerId>,
    bodies: Vec<L>,
    pos: usize,
    halted: bool,
}

impl<L> Dispatch<L> {
    /// The identities in the snapshot, in the order they are invoked.
    pub closed spec fn pending(&self) -> Seq<ListenerId> {
        self.ids@
    }

    /// How many listeners of the snapshot have been invoked.
    pub closed spec fn pos(&self) -> nat {
        self.pos as nat
    }

    /// Whether a listener has halted the emission.
    pub closed spec fn halted(&self) -> bool {
        self.halted
    }

    /// The snapshot's identities and bodies stay aligned, and the position stays within it.
    pub closed spec fn wf(&self) -> bool {
        &&& self.ids@.len() == self.bodies@.len()
        &&& self.pos <= self.ids@.len()
    }

    /// Whether the emission is over.
    pub open spec fn done(&self) -> bool {
        self.halted() || self.pos() >= self.pending().len()
    }

    /// The listener to invoke next, with its identity.
    pub fn current(&self) -> (r: Option<(ListenerId, &L)>)
        requires
            self.wf(),
        ensures
            r is None <==> self.done(),
            r matches Some(p) ==> p.0 == self.pending()[self.pos() as int],
    {
        if self.halted || self.pos >= self.ids.len() {
            None
        } else {
            Some((self.ids[self.pos], &self.bodies[self.pos]))
        }
    }

    /// Takes in what the current listener returned: a listener that returned
    /// `OFF` leaves the live registry, and any directive ends the emission.
    /// Returns whether the emission goes on.
    pub fn settle(&mut self, signal: &mut Signal<L>, outcome: Option<SignalCtor>) -> (r: bool)
        requires
            old(self).wf(),
            !old(self).done(),
            old(signal).wf(),
        ensures
            final(self).wf(),
            final(self).pending() == old(self).pending(),
            final(self).pos() == old(self).pos() + 1,
            final(self).halted() == outcome is Some,
            r == outcome is None,
            final(signal).wf(),
            final(signal).ids() == settled(
                old(signal).ids(),
                old(self).pending()[old(self).pos() as int],
                outcome,
            ),
            final(signal).next_id() == old(signal).next_id(),
    {
        let n = self.ids.len();
        let id = self.ids[self.pos];
        assert(self.pos < n);
        self.pos = self.pos + 1;
        match outcome {
            None => true,
            Some(SignalCtor::BREAK) => {
                self.halted = true;
                false
            },
            Some(SignalCtor::OFF) => {
                signal.off(id);
                self.halted = true;
                false
            },
        }
    }
}

impl<L: Clone> Signal<L> {
    /// Starts an emission from a snapshot of the registry as it stands.
    pub fn begin_emit(&self) -> (d: Dispatch<L>)
        requires
            self.wf(),
        ensures
            d.wf(),
            d.pending() == self.ids(),
            d.pos() == 0,
            !d.halted(),
    {
        let (ids, bodies) = self.snapshot();
        Dispatch { ids, bodies, pos: 0, halted: false }
    }

    /// Invokes the registered listeners in registration order, each with its
    /// own copy of `args`, until one returns a directive. Returns who was
    /// invoked and what each returned.
    pub fn emit<A: Clone>(&mut self, args: A) -> (trace: Vec<Invocation>) where L: Callback<A>
        requires
            old(self).wf(),
        ensures
            final(self).wf(),
            is_emission(old(self).ids(), trace@),
            final(self).ids() == after_emission(old(self).ids(), trace@),
            final(self).next_id() == old(self).next_id(),
    {
        let mut d = self.begin_emit();
        let ghost snap = self.ids();
        let mut trace: Vec<Invocation> = Vec::new();
        loop
            invariant
                d.wf(),
                self.wf(),
                d.pending() == snap,
                snap == old(self).ids(),
                self.next_id() == old(self).next_id(),
                trace@.len() == d.pos(),
                forall|i: int| 0 <= i < trace@.len() ==> #[trigger] trace@[i].0 == snap[i],
                forall|i: int| 0 <= i < trace@.len() - 1 ==> #[trigger] trace@[i].1 is None,
                d.halted() <==> (trace@.len() > 0 && trace@.last().1 is Some),
                self.ids() == after_emission(snap, trace@),
            ensures
                d.done(),
            decreases snap.len() - d.pos(),
        {
            let (id, outcome) = match d.current() {
                None => break,
                Some((id, body)) => (id, body.call(args.clone())),
            };
            d.settle(self, outcome);
            trace.push((id, outcome));
        }
        trace
    }
}

} // verus!

use vstd::prelude::*;

verus! {

/// Identity of one registration. Two registrations never share an id, however
/// alike their bodies are.
pub type ListenerId = u64;

/// A directive that a listener returns to steer the emission under way.
/// A listener that returns `None` lets the emission continue.
#[derive(Clone, Copy, Debug, PartialEq, Eq, Structural)]
pub enum SignalCtor {
    /// Unregister this listener and stop the emission.
    OFF,
    /// Stop the emission; the listener stays registered.
    BREAK,
}

/// A listener body: called once per emission that reaches it.
pub trait Callback<Args> {
    fn call(&self, args: Args) -> Option<SignalCtor>;
}

/// `ids` without the entry `id` (unchanged when `id` is absent).
pub open spec fn without(ids: Seq<ListenerId>, id: ListenerId) -> Seq<ListenerId> {
    if ids.contains(id) {
        ids.remove(ids.index_of(id))
    } else {
        ids
    }
}

/// `ids` holds each identity at most once, and only identities below `next`.
pub open spec fn is_registry(ids: Seq<ListenerId>, next: u64) -> bool {
    &&& ids.no_duplicates()
    &&& forall|i: int| 0 <= i < ids.len() ==> ids[i] < next
}

/// An event source: the registry of listeners, in order of registration.
pub struct Signal<L> {
    ids: Vec<ListenerId>,
    bodies: Vec<L>,
    next_id: u64,
}

impl<L> Signal<L> {
    /// The identities of the registered listeners, in registration order.
    pub closed spec fn ids(&self) -> Seq<ListenerId> {
        self.ids@
    }

    /// The next identity that `listener` hands out.
    pub closed spec fn next_id(&self) -> u64 {
        self.next_id
    }

    /// Identities and bodies stay aligned, and the identities form a registry.
    pub closed spec fn wf(&self) -> bool {
        &&& self.ids@.len() == self.bodies@.len()
        &&& is_registry(self.ids@, self.next_id)
    }

    /// A well-formed signal holds a registry of distinct, issued identities.
    pub proof fn lemma_wf_registry(&self)
        requires
            self.wf(),
        ensures
            is_registry(self.ids(), self.next_id()),
    {
    }

    /// An empty signal.
    pub fn new() -> (r: Self)
        ensures
            r.wf(),
            r.ids() == Seq::<ListenerId>::empty(),
            r.next_id() == 0,
    {
        Signal { ids: Vec::new(), bodies: Vec::new(), next_id: 0 }
    }

    /// Position of `id` in the registry, if registered.
    fn find(&self, id: ListenerId) -> (r: Option<usize>)
        requires
            self.wf(),
        ensures
            r is None <==> !self.ids().contains(id),
            r matches Some(i) ==> i < self.ids().len() && self.ids()[i as int] == id,
    {
        let mut i: usize = 0;
        while i < self.ids.len()
            invariant
                i <= self.ids@.len(),
                forall|j: int| 0 <= j < i ==> self.ids@[j] != id,
            decreases self.ids@.len() - i,
        {
            if self.ids[i] == id {
                return Some(i);
            }
            i = i + 1;
        }
        None
    }

    /// Unregisters the listener `id`; returns whether it was registered.
    pub fn off(&mut self, id: ListenerId) -> (r: bool)
        requires
            old(self).wf(),
        ensures
            final(self).wf(),
            r == old(self).ids().contains(id),
            final(self).ids() == without(old(self).ids(), id),
            final(self).next_id() == old(self).next_id(),
    {
        match self.find(id) {
            None => false,
            Some(i) => {
                proof {
                    let j = self.ids@.index_of(id);
                    assert(self.ids@[j] == id);
                    assert(j == i);
                }
                self.ids.remove(i);
                self.bodies.remove(i);
                true
            },
        }
    }

    /// Registers `body` under a fresh identity and returns it; `None` once
    /// every identity has been handed out.
    pub fn listener(&mut self, body: L) -> (r: Option<ListenerId>)
        requires
            old(self).wf(),
        ensures
            final(self).wf(),
            r is None <==> old(self).next_id() == u64::MAX,
            r is None ==> final(self).ids() == old(self).ids() && final(self).next_id() == old(
                self,
            ).next_id(),
            r matches Some(id) ==> {
                &&& id == old(self).next_id()
                &&& !old(self).ids().contains(id)
                &&& final(self).ids() == old(self).ids().push(id)
                &&& final(self).next_id() == id + 1
            },
    {
        if self.next_id == u64::MAX {
            return None;
        }
        let id = self.next_id;
        self.ids.push(id);
        self.bodies.push(body);
        self.next_id = id + 1;
        Some(id)
    }

    /// Registers `body` under an identity that this signal handed out before,
    /// when no listener holds it now; returns whether it was added. Adding a
    /// listener that is already registered changes nothing.
    pub fn attach(&mut self, id: ListenerId, body: L) -> (r: bool)
        requires
            old(self).wf(),
        ensures
            final(self).wf(),
            r == (id < old(self).next_id() && !old(self).ids().contains(id)),
            final(self).ids() == (if r {
                old(self).ids().push(id)
            } else {
                old(self).ids()
            }),
            final(self).next_id() == old(self).next_id(),
    {
        if id >= self.next_id {
            return false;
        }
        match self.find(id) {
            Some(_) => false,
            None => {
                self.ids.push(id);
                self.bodies.push(body);
                true
            },
        }
    }

    /// Unregisters every listener.
    pub fn close(&mut self)
        requires
            old(self).wf(),
        ensures
            final(self).wf(),
            final(self).ids() == Seq::<ListenerId>::empty(),
            final(self).next_id() == old(self).next_id(),
    {
        self.ids.clear();
        self.bodies.clear();
    }
}

impl<L: Clone> Signal<L> {
    /// A copy of the registry as it stands: identities and bodies, aligned.
    pub(crate) fn snapshot(&self) -> (r: (Vec<ListenerId>, Vec<L>))
        requires
            self.wf(),
        ensures
            r.0@ == self.ids(),
            r.1@.len() == r.0@.len(),
    {
        let ids = self.ids.clone();
        let mut bodies: Vec<L> = Vec::new();
        let mut i: usize = 0;
        while i < self.bodies.len()
            invariant
                i <= self.bodies@.len(),
                bodies@.len() == i,
            decreases self.bodies@.len() - i,
        {
            bodies.push(self.bodies[i].clone());
            i = i + 1;
        }
        (ids, bodies)
    }
}

} // verus!

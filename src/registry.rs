use vstd::prelude::*;

verus! {

/// Ids strictly increase along the sequence.
pub open spec fn increasing<T>(s: Seq<(u64, T)>) -> bool {
    forall|i: int, j: int| 0 <= i < j < s.len() ==> #[trigger] s[i].0 < #[trigger] s[j].0
}

/// `id` is the key of some entry of `s`.
pub open spec fn has_id<T>(s: Seq<(u64, T)>, id: u64) -> bool {
    exists|i: int| 0 <= i < s.len() && #[trigger] s[i].0 == id
}

/// The entries of `s` as a map from id to value.
pub open spec fn entries<T>(s: Seq<(u64, T)>) -> Map<u64, T> {
    Map::new(
        |id: u64| has_id(s, id),
        |id: u64| s[choose|i: int| 0 <= i < s.len() && #[trigger] s[i].0 == id].1,
    )
}

proof fn lemma_entry<T>(s: Seq<(u64, T)>, i: int)
    requires
        increasing(s),
        0 <= i < s.len(),
    ensures
        entries(s).contains_key(s[i].0),
        entries(s)[s[i].0] == s[i].1,
{
    assert(has_id(s, s[i].0));
    let j = choose|j: int| 0 <= j < s.len() && #[trigger] s[j].0 == s[i].0;
    if j < i {
        assert(s[j].0 < s[i].0);
    } else if j > i {
        assert(s[i].0 < s[j].0);
    }
}

proof fn lemma_push<T>(s: Seq<(u64, T)>, id: u64, v: T)
    requires
        increasing(s),
        forall|i: int| 0 <= i < s.len() ==> #[trigger] s[i].0 < id,
    ensures
        increasing(s.push((id, v))),
        entries(s.push((id, v))) == entries(s).insert(id, v),
        !entries(s).contains_key(id),
{
    let t = s.push((id, v));
    assert(increasing(t));
    assert(!entries(s).contains_key(id));
    assert forall|k: u64| #[trigger] entries(t).contains_key(k) <==> entries(s).insert(id, v).contains_key(k) by {
        if has_id(t, k) && k != id {
            let i = choose|i: int| 0 <= i < t.len() && #[trigger] t[i].0 == k;
            assert(s[i].0 == k);
        }
        if has_id(s, k) {
            let i = choose|i: int| 0 <= i < s.len() && #[trigger] s[i].0 == k;
            assert(t[i].0 == k);
        }
        if k == id {
            assert(t[s.len() as int].0 == k);
        }
    }
    assert forall|k: u64| #[trigger] entries(t).contains_key(k) implies entries(t)[k] == entries(s).insert(id, v)[k] by {
        if k == id {
            lemma_entry(t, s.len() as int);
        } else {
            let i = choose|i: int| 0 <= i < s.len() && #[trigger] s[i].0 == k;
            lemma_entry(s, i);
            lemma_entry(t, i);
        }
    }
    assert(entries(t) =~= entries(s).insert(id, v));
}

proof fn lemma_remove<T>(s: Seq<(u64, T)>, i: int)
    requires
        increasing(s),
        0 <= i < s.len(),
    ensures
        increasing(s.remove(i)),
        entries(s.remove(i)) == entries(s).remove(s[i].0),
{
    let t = s.remove(i);
    let id = s[i].0;
    assert forall|a: int, b: int| 0 <= a < b < t.len() implies #[trigger] t[a].0 < #[trigger] t[b].0 by {
        let a2 = if a < i { a } else { a + 1 };
        let b2 = if b < i { b } else { b + 1 };
        assert(s[a2].0 < s[b2].0);
    }
    assert forall|k: u64| #[trigger] entries(t).contains_key(k) <==> entries(s).remove(id).contains_key(k) by {
        if has_id(t, k) {
            let j = choose|j: int| 0 <= j < t.len() && #[trigger] t[j].0 == k;
            let j2 = if j < i { j } else { j + 1 };
            assert(s[j2].0 == k);
            if j2 < i {
                assert(s[j2].0 < s[i].0);
            } else {
                assert(s[i].0 < s[j2].0);
            }
        }
        if has_id(s, k) && k != id {
            let j = choose|j: int| 0 <= j < s.len() && #[trigger] s[j].0 == k;
            if j < i {
                assert(t[j].0 == k);
            } else {
                assert(j != i);
                assert(t[j - 1].0 == k);
            }
        }
    }
    assert forall|k: u64| #[trigger] entries(t).contains_key(k) implies entries(t)[k] == entries(s).remove(id)[k] by {
        let j = choose|j: int| 0 <= j < t.len() && #[trigger] t[j].0 == k;
        let j2 = if j < i { j } else { j + 1 };
        lemma_entry(t, j);
        lemma_entry(s, j2);
    }
    assert(entries(t) =~= entries(s).remove(id));
}

/// Registry of live observer connections: each holds the outbound channel of
/// one client under an id drawn from a monotonic counter.
pub struct ClientRegistry<T> {
    next_id: u64,
    clients: Vec<(u64, T)>,
}

impl<T> ClientRegistry<T> {
    /// The ids in registration order.
    pub closed spec fn ids(&self) -> Seq<u64> {
        self.clients@.map_values(|e: (u64, T)| e.0)
    }

    /// The registered clients by id.
    pub closed spec fn view(&self) -> Map<u64, T> {
        entries(self.clients@)
    }

    /// The id the next client will get.
    pub closed spec fn next(&self) -> u64 {
        self.next_id
    }

    /// Ids are strictly increasing in registration order and all below the
    /// counter, so no two clients share one and no id is handed out twice.
    pub closed spec fn wf(&self) -> bool {
        &&& increasing(self.clients@)
        &&& forall|i: int| 0 <= i < self.clients@.len() ==> #[trigger] self.clients@[i].0 < self.next_id
    }

    /// Every registered id lies below the counter and is in the map.
    pub proof fn lemma_ids(&self)
        requires
            self.wf(),
        ensures
            forall|id: u64| self.view().contains_key(id) <==> self.ids().contains(id),
            forall|id: u64| #[trigger] self.view().contains_key(id) ==> id < self.next(),
    {
        assert forall|id: u64| self.view().contains_key(id) <==> self.ids().contains(id) by {
            if self.view().contains_key(id) {
                let i = choose|i: int| 0 <= i < self.clients@.len() && #[trigger] self.clients@[i].0 == id;
                assert(self.ids()[i] == id);
            }
            if self.ids().contains(id) {
                let i = choose|i: int| 0 <= i < self.ids().len() && self.ids()[i] == id;
                assert(self.clients@[i].0 == id);
            }
        }
    }

    /// An empty registry whose first id is zero.
    pub fn new() -> (r: ClientRegistry<T>)
        ensures
            r.wf(),
            r.view() == Map::<u64, T>::empty(),
            r.ids() == Seq::<u64>::empty(),
            r.next() == 0,
    {
        let r = ClientRegistry { next_id: 0, clients: Vec::new() };
        assert(r.view() =~= Map::<u64, T>::empty());
        assert(r.ids() =~= Seq::<u64>::empty());
        r
    }

    /// Number of registered clients.
    pub fn len(&self) -> (r: usize)
        ensures
            r == self.ids().len(),
    {
        self.clients.len()
    }

    /// Registers `tx` under the next id and returns that id; returns `None`,
    /// leaving the registry as it was, once every id has been handed out.
    pub fn register(&mut self, tx: T) -> (r: Option<u64>)
        requires
            old(self).wf(),
        ensures
            final(self).wf(),
            old(self).next() == u64::MAX ==> r is None && *final(self) == *old(self),
            old(self).next() < u64::MAX ==> {
                &&& r == Some(old(self).next())
                &&& !old(self).view().contains_key(old(self).next())
                &&& final(self).view() == old(self).view().insert(old(self).next(), tx)
                &&& final(self).ids() == old(self).ids().push(old(self).next())
                &&& final(self).next() == old(self).next() + 1
            },
    {
        if self.next_id == u64::MAX {
            return None;
        }
        let id = self.next_id;
        proof {
            lemma_push(self.clients@, id, tx);
        }
        let ghost before = *self;
        self.clients.push((id, tx));
        self.next_id = id + 1;
        assert(self.ids() =~= before.ids().push(id));
        Some(id)
    }

    /// Removes the client with `id`, returning its channel; `None`, leaving
    /// the registry as it was, when no such client is registered.
    pub fn unregister(&mut self, id: u64) -> (r: Option<T>)
        requires
            old(self).wf(),
        ensures
            final(self).wf(),
            final(self).next() == old(self).next(),
            final(self).view() == old(self).view().remove(id),
            old(self).view().contains_key(id) ==> {
                &&& r == Some(old(self).view()[id])
                &&& exists|i: int|
                    0 <= i < old(self).ids().len() && old(self).ids()[i] == id && final(self).ids()
                        == old(self).ids().remove(i)
            },
            !old(self).view().contains_key(id) ==> r is None && final(self).ids() == old(self).ids(),
    {
        let i = match self.position(id) {
            Some(i) => i,
            None => {
                assert(self.view().remove(id) =~= self.view());
                return None;
            },
        };
        let ghost before = *self;
        proof {
            lemma_remove(self.clients@, i as int);
            lemma_entry(self.clients@, i as int);
        }
        let (_, tx) = self.clients.remove(i);
        assert(self.ids() =~= before.ids().remove(i as int));
        assert(before.ids()[i as int] == id);
        Some(tx)
    }

    /// The registered ids, in registration order: the recipients of a
    /// broadcast made now.
    pub fn recipients(&self) -> (r: Vec<u64>)
        ensures
            r@ == self.ids(),
    {
        let mut r: Vec<u64> = Vec::new();
        let mut i: usize = 0;
        while i < self.clients.len()
            invariant
                i <= self.clients.len(),
                r@ == self.ids().subrange(0, i as int),
            decreases self.clients.len() - i,
        {
            r.push(self.clients[i].0);
            i = i + 1;
        }
        assert(self.ids().subrange(0, self.ids().len() as int) == self.ids());
        r
    }

    fn position(&self, id: u64) -> (r: Option<usize>)
        requires
            self.wf(),
        ensures
            r matches Some(i) ==> i < self.clients@.len() && self.clients@[i as int].0 == id,
            r is None ==> !self.view().contains_key(id),
    {
        let mut i: usize = 0;
        while i < self.clients.len()
            invariant
                i <= self.clients.len(),
                forall|j: int| 0 <= j < i ==> #[trigger] self.clients@[j].0 != id,
            decreases self.clients.len() - i,
        {
            if self.clients[i].0 == id {
                return Some(i);
            }
            i = i + 1;
        }
        None
    }

    /// The channel of the client with `id`, if registered.
    pub fn sender(&self, id: u64) -> (r: Option<&T>)
        requires
            self.wf(),
        ensures
            self.view().contains_key(id) ==> r == Some(&self.view()[id]),
            !self.view().contains_key(id) ==> r is None,
    {
        match self.position(id) {
            Some(i) => {
                proof { lemma_entry(self.clients@, i as int); }
                Some(&self.clients[i].1)
            },
            None => None,
        }
    }
}

/// Fan-out: the recipients of a broadcast are exactly the clients registered
/// at that moment. A client is reached from its registration on, and not
/// after it is removed; registering or removing others does not change that.
pub proof fn lemma_fan_out<T>(
    before: ClientRegistry<T>,
    after: ClientRegistry<T>,
    id: u64,
    other: u64,
    tx: T,
)
    requires
        before.wf(),
        after.wf(),
        other != id,
        after.view() == before.view().insert(other, tx) || after.view() == before.view().remove(
            other,
        ),
    ensures
        before.ids().contains(id) <==> before.view().contains_key(id),
        after.ids().contains(id) <==> before.ids().contains(id),
{
    before.lemma_ids();
    after.lemma_ids();
    if after.view() == before.view().insert(other, tx) {
        assert(after.view().contains_key(id) == before.view().contains_key(id));
    } else {
        assert(after.view().contains_key(id) == before.view().contains_key(id));
    }
}

/// A removed client is no longer among the recipients.
pub proof fn lemma_removed_not_reached<T>(before: ClientRegistry<T>, after: ClientRegistry<T>, id: u64)
    requires
        after.wf(),
        after.view() == before.view().remove(id),
    ensures
        !after.ids().contains(id),
{
    after.lemma_ids();
}

} // verus!

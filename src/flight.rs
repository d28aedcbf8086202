use vstd::prelude::*;

verus! {

/// What a requester becomes when it joins the registry for a key.
#[derive(Clone, Copy, Debug, PartialEq, Eq, Structural)]
pub enum Role {
    /// No computation was pending: this requester fetches and decrypts.
    Leader,
    /// A computation was pending: this requester waits for its outcome.
    Follower,
}

/// The registry after a requester with handle `w` joins for `key`, and the
/// role that it gets.
///
/// A leader opens a record with no waiters; a follower is queued behind the
/// waiters already there.
pub open spec fn join_model<W>(m: Map<Seq<char>, Seq<W>>, key: Seq<char>, w: W) -> (Map<
    Seq<char>,
    Seq<W>,
>, Role) {
    if m.contains_key(key) {
        (m.insert(key, m[key].push(w)), Role::Follower)
    } else {
        (m.insert(key, Seq::empty()), Role::Leader)
    }
}

/// The waiters handed back when the computation for `key` completes, and the
/// registry without its record.
pub open spec fn complete_model<W>(m: Map<Seq<char>, Seq<W>>, key: Seq<char>) -> (Seq<W>, Map<
    Seq<char>,
    Seq<W>,
>) {
    (if m.contains_key(key) {
        m[key]
    } else {
        Seq::empty()
    }, m.remove(key))
}

/// The registry and the roles after requesters with handles `ws` join for
/// `key` one after another.
pub open spec fn join_all<W>(m: Map<Seq<char>, Seq<W>>, key: Seq<char>, ws: Seq<W>) -> (Map<
    Seq<char>,
    Seq<W>,
>, Seq<Role>)
    decreases ws.len(),
{
    if ws.len() == 0 {
        (m, Seq::empty())
    } else {
        let (m1, roles) = join_all(m, key, ws.drop_last());
        let (m2, role) = join_model(m1, key, ws.last());
        (m2, roles.push(role))
    }
}

/// Pending computations by key, each with the handles of the requesters that
/// wait for it.
///
/// The registry holds at most one record per key, so at most one fetch and
/// decrypt per key is in flight.
pub struct FlightRegistry<W> {
    keys: Vec<String>,
    waiters: Vec<Vec<W>>,
    model: Ghost<Map<Seq<char>, Seq<W>>>,
}

impl<W> View for FlightRegistry<W> {
    type V = Map<Seq<char>, Seq<W>>;

    closed spec fn view(&self) -> Map<Seq<char>, Seq<W>> {
        self.model@
    }
}

impl<W> FlightRegistry<W> {
    /// Records and model agree; no key has two records.
    pub closed spec fn wf(&self) -> bool {
        &&& self.keys@.len() == self.waiters@.len()
        &&& forall|i: int, j: int|
            0 <= i < j < self.keys@.len() ==> (#[trigger] self.keys@[i])@ != (
            #[trigger] self.keys@[j])@
        &&& forall|i: int|
            0 <= i < self.keys@.len() ==> self.model@.contains_key((#[trigger] self.keys@[i])@)
                && self.model@[self.keys@[i]@] == self.waiters@[i]@
        &&& forall|k: Seq<char>|
            #[trigger] self.model@.contains_key(k) ==> exists|i: int|
                0 <= i < self.keys@.len() && (#[trigger] self.keys@[i])@ == k
    }

    /// An empty registry.
    pub fn new() -> (r: Self)
        ensures
            r.wf(),
            r@ == Map::<Seq<char>, Seq<W>>::empty(),
    {
        FlightRegistry { keys: Vec::new(), waiters: Vec::new(), model: Ghost(Map::empty()) }
    }

    /// Whether a computation for `key` is pending.
    pub fn is_pending(&self, key: &String) -> (r: bool)
        requires
            self.wf(),
        ensures
            r == self@.contains_key(key@),
    {
        self.position(key).is_some()
    }

    fn position(&self, key: &String) -> (r: Option<usize>)
        requires
            self.wf(),
        ensures
            match r {
                Some(i) => i < self.keys@.len() && self.keys@[i as int]@ == key@
                    && self@.contains_key(key@),
                None => !self@.contains_key(key@),
            },
    {
        let mut i: usize = 0;
        while i < self.keys.len()
            invariant
                self.wf(),
                i <= self.keys@.len(),
                forall|j: int| 0 <= j < i ==> (#[trigger] self.keys@[j])@ != key@,
            decreases self.keys@.len() - i,
        {
            if self.keys[i] == *key {
                return Some(i);
            }
            i = i + 1;
        }
        None
    }

    /// Joins the requester with handle `waiter` for `key`.
    ///
    /// It leads where nothing is pending for `key` (its handle is dropped), and
    /// follows otherwise, its handle queued for the leader's outcome.
    pub fn join(&mut self, key: String, waiter: W) -> (r: Role)
        requires
            old(self).wf(),
        ensures
            final(self).wf(),
            (final(self)@, r) == join_model(old(self)@, key@, waiter),
    {
        match self.position(&key) {
            Some(i) => {
                let ghost old_keys = self.keys@;
                let ghost old_waiters = self.waiters@;
                let ghost queued = self.model@[key@].push(waiter);
                let mut ws = self.waiters.remove(i);
                ws.push(waiter);
                self.waiters.insert(i, ws);
                self.model = Ghost(self.model@.insert(key@, queued));
                assert(self.waiters@ =~= old_waiters.update(i as int, self.waiters@[i as int]));
                assert forall|k: Seq<char>| #[trigger] self.model@.contains_key(k) implies exists|
                    j: int,
                |
                    0 <= j < self.keys@.len() && (#[trigger] self.keys@[j])@ == k by {
                    if k == key@ {
                        assert(self.keys@[i as int]@ == k);
                    } else {
                        assert(old(self).model@.contains_key(k));
                    }
                }
                Role::Follower
            },
            None => {
                let ghost old_len: int = self.keys@.len() as int;
                let ghost k0 = key@;
                self.keys.push(key);
                self.waiters.push(Vec::new());
                self.model = Ghost(self.model@.insert(k0, Seq::empty()));
                assert forall|k: Seq<char>| #[trigger] self.model@.contains_key(k) implies exists|
                    j: int,
                |
                    0 <= j < self.keys@.len() && (#[trigger] self.keys@[j])@ == k by {
                    if k == k0 {
                        assert(self.keys@[old_len]@ == k);
                    } else {
                        let j = choose|j: int|
                            0 <= j < old_len && (#[trigger] old(self).keys@[j])@ == k;
                        assert(self.keys@[j] == old(self).keys@[j]);
                    }
                }
                Role::Leader
            },
        }
    }

    /// Ends the computation for `key`: its record leaves the registry, and the
    /// handles of the requesters that waited for it come back, in the order in
    /// which they joined.
    pub fn complete(&mut self, key: &String) -> (r: Vec<W>)
        requires
            old(self).wf(),
        ensures
            final(self).wf(),
            (r@, final(self)@) == complete_model(old(self)@, key@),
    {
        match self.position(key) {
            Some(i) => {
                let ghost old_keys = self.keys@;
                let _ = self.keys.remove(i);
                let ws = self.waiters.remove(i);
                self.model = Ghost(self.model@.remove(key@));
                assert forall|a: int|
                    0 <= a < self.keys@.len() implies self.keys@[a] == old_keys[if a < i {
                    a
                } else {
                    a + 1
                }] by {}
                assert forall|k: Seq<char>| #[trigger] self.model@.contains_key(k) implies exists|
                    j: int,
                |
                    0 <= j < self.keys@.len() && (#[trigger] self.keys@[j])@ == k by {
                    let j = choose|j: int|
                        0 <= j < old_keys.len() && (#[trigger] old_keys[j])@ == k;
                    if j < i {
                        assert(self.keys@[j] == old_keys[j]);
                    } else {
                        assert(self.keys@[j - 1] == old_keys[j]);
                    }
                }
                ws
            },
            None => {
                assert(self.model@.remove(key@) =~= self.model@);
                Vec::new()
            },
        }
    }
}

/// Single flight: when requesters join one after another for a key that has
/// nothing pending, the first leads and every later one follows, other keys
/// are untouched, and completing the computation hands back exactly the
/// followers, in order, and leaves the registry as it was.
pub proof fn lemma_single_flight<W>(m: Map<Seq<char>, Seq<W>>, key: Seq<char>, ws: Seq<W>)
    requires
        !m.contains_key(key),
        ws.len() >= 1,
    ensures
        join_all(m, key, ws).1.len() == ws.len(),
        join_all(m, key, ws).1[0] == Role::Leader,
        forall|i: int| 1 <= i < ws.len() ==> join_all(m, key, ws).1[i] == Role::Follower,
        join_all(m, key, ws).0 == m.insert(key, ws.drop_first()),
        complete_model(join_all(m, key, ws).0, key) == (ws.drop_first(), m),
    decreases ws.len(),
{
    if ws.len() == 1 {
        assert(ws.drop_last() =~= Seq::<W>::empty());
        assert(ws.drop_first() =~= Seq::<W>::empty());
    } else {
        lemma_single_flight(m, key, ws.drop_last());
        assert(ws.drop_last().drop_first().push(ws.last()) =~= ws.drop_first());
        assert(m.insert(key, ws.drop_last().drop_first()).insert(key, ws.drop_first())
            =~= m.insert(key, ws.drop_first()));
    }
    assert(m.insert(key, ws.drop_first()).remove(key) =~= m);
}

} // verus!

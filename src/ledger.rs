use vstd::prelude::*;
use crate::signal::{ContentHash, Quality, Record, Sighting, Signal};

verus! {

/// The ledger after `v` is appended under `h`: the sequence at `h` grows by
/// one, and is created if `h` had none.
pub open spec fn committed<T>(m: Map<Seq<u8>, Seq<T>>, h: Seq<u8>, v: T) -> Map<Seq<u8>, Seq<T>> {
    if m.contains_key(h) {
        m.insert(h, m[h].push(v))
    } else {
        m.insert(h, seq![v])
    }
}

/// What a recall of `h` gives: the whole sequence, or nothing for a hash
/// that was never committed.
pub open spec fn recalled<T>(m: Map<Seq<u8>, Seq<T>>, h: Seq<u8>) -> Option<Seq<T>> {
    if m.contains_key(h) {
        Some(m[h])
    } else {
        None
    }
}

/// The ledger after each `(hash, value)` of `log` is committed, in order.
pub open spec fn commit_log<T>(m: Map<Seq<u8>, Seq<T>>, log: Seq<(Seq<u8>, T)>) -> Map<Seq<u8>, Seq<T>>
    decreases log.len(),
{
    if log.len() == 0 {
        m
    } else {
        committed(commit_log(m, log.drop_last()), log.last().0, log.last().1)
    }
}

/// The values of `log` committed under `h`, in the order of the log.
pub open spec fn commits_to<T>(log: Seq<(Seq<u8>, T)>, h: Seq<u8>) -> Seq<T>
    decreases log.len(),
{
    if log.len() == 0 {
        Seq::empty()
    } else if log.last().0 == h {
        commits_to(log.drop_last(), h).push(log.last().1)
    } else {
        commits_to(log.drop_last(), h)
    }
}

/// Recall returns exactly what was committed, in commit order: after the
/// `(hash, value)` pairs of `log` are committed one by one to an empty ledger,
/// recalling `h` gives the values committed under `h` in the order of the log,
/// and gives nothing when none was.
pub proof fn lemma_recall_returns_commits_in_order<T>(log: Seq<(Seq<u8>, T)>, h: Seq<u8>)
    ensures
        recalled(commit_log(Map::empty(), log), h) == if commits_to(log, h).len() == 0 {
            None::<Seq<T>>
        } else {
            Some(commits_to(log, h))
        },
    decreases log.len(),
{
    if log.len() > 0 {
        let prev = log.drop_last();
        lemma_recall_returns_commits_in_order(prev, h);
        if log.last().0 == h {
            if commits_to(prev, h).len() == 0 {
                assert(commits_to(log, h) =~= seq![log.last().1]);
            }
        }
    }
}

/// The models of a sequence of records.
pub open spec fn models<V: View>(s: Seq<V>) -> Seq<V::V> {
    s.map_values(|v: V| v@)
}

/// All the values committed under one hash, oldest first.
pub struct Entry<V> {
    pub key: ContentHash,
    pub values: Vec<V>,
}

/// An append-only ledger from hashes to the sequence of every value ever
/// committed under each. Nothing is removed and nothing is merged.
pub struct Ledger<V: Record> {
    entries: Vec<Entry<V>>,
    model: Ghost<Map<Seq<u8>, Seq<V::V>>>,
}

impl<V: Record> View for Ledger<V> {
    type V = Map<Seq<u8>, Seq<V::V>>;

    closed spec fn view(&self) -> Map<Seq<u8>, Seq<V::V>> {
        self.model@
    }
}

/// Whether two hashes are the same bytes.
pub fn hash_eq(a: &ContentHash, b: &ContentHash) -> (r: bool)
    ensures
        r == (a@ == b@),
{
    let mut i: usize = 0;
    while i < 32
        invariant
            i <= 32,
            forall|j: int| 0 <= j < i ==> a@[j] == b@[j],
        decreases 32 - i,
    {
        if a[i] != b[i] {
            return false;
        }
        i = i + 1;
    }
    assert(a@ =~= b@);
    true
}

impl<V: Record> Ledger<V> {
    /// The entries hold distinct hashes, each with at least one value, and
    /// together they are exactly the model.
    pub closed spec fn wf(&self) -> bool {
        &&& forall|i: int, j: int|
            0 <= i < j < self.entries@.len() ==> self.entries@[i].key@ != self.entries@[j].key@
        &&& forall|i: int|
            0 <= i < self.entries@.len() ==> {
                &&& self.entries@[i].values@.len() > 0
                &&& self.model@.contains_key(#[trigger] self.entries@[i].key@)
                &&& self.model@[self.entries@[i].key@] == models(self.entries@[i].values@)
            }
        &&& forall|k: Seq<u8>|
            #[trigger] self.model@.contains_key(k) ==> exists|i: int|
                0 <= i < self.entries@.len() && self.entries@[i].key@ == k
    }

    /// An empty ledger.
    pub fn new() -> (r: Self)
        ensures
            r.wf(),
            r@ == Map::<Seq<u8>, Seq<V::V>>::empty(),
    {
        Ledger { entries: Vec::new(), model: Ghost(Map::empty()) }
    }

    /// Every sequence in a well-formed ledger holds at least one value.
    pub proof fn lemma_no_empty_sequence(&self, h: Seq<u8>)
        requires
            self.wf(),
            self@.contains_key(h),
        ensures
            self@[h].len() > 0,
    {
        let i = choose|i: int| 0 <= i < self.entries@.len() && self.entries@[i].key@ == h;
        assert(self.model@.contains_key(self.entries@[i].key@));
    }

    fn find(&self, hash: &ContentHash) -> (r: Option<usize>)
        requires
            self.wf(),
        ensures
            match r {
                Some(i) => i < self.entries@.len() && self.entries@[i as int].key@ == hash@,
                None => !self@.contains_key(hash@),
            },
    {
        let mut i: usize = 0;
        while i < self.entries.len()
            invariant
                self.wf(),
                i <= self.entries@.len(),
                forall|j: int| 0 <= j < i ==> self.entries@[j].key@ != hash@,
            decreases self.entries@.len() - i,
        {
            if hash_eq(&self.entries[i].key, hash) {
                return Some(i);
            }
            i = i + 1;
        }
        None
    }

    /// Appends `value` to the sequence under `hash`, creating the sequence if
    /// the hash is new. The value is not checked against the hash.
    pub fn commit(&mut self, hash: ContentHash, value: V)
        requires
            old(self).wf(),
        ensures
            final(self).wf(),
            final(self)@ == committed(old(self)@, hash@, value@),
    {
        let ghost old_model = self.model@;
        let ghost old_entries = self.entries@;
        let ghost vm = value@;
        match self.find(&hash) {
            Some(i) => {
                self.entries[i].values.push(value);
                self.model = Ghost(old_model.insert(hash@, old_model[hash@].push(vm)));
                assert(models(self.entries@[i as int].values@) =~= old_model[hash@].push(vm));
                assert forall|j: int| 0 <= j < self.entries@.len() && j != i implies #[trigger] self.entries@[j]
                    == old_entries[j] by {}
                assert forall|j: int| 0 <= j < self.entries@.len() implies {
                    &&& self.entries@[j].values@.len() > 0
                    &&& self.model@.contains_key(#[trigger] self.entries@[j].key@)
                    &&& self.model@[self.entries@[j].key@] == models(self.entries@[j].values@)
                } by {
                    if j != i {
                        assert(old_model.contains_key(old_entries[j].key@));
                    }
                }
                assert forall|a: int, b: int| 0 <= a < b < self.entries@.len() implies self.entries@[a].key@
                    != self.entries@[b].key@ by {
                    assert(self.entries@[a].key@ == old_entries[a].key@);
                    assert(self.entries@[b].key@ == old_entries[b].key@);
                }
                assert forall|k: Seq<u8>| #[trigger] self.model@.contains_key(k) implies exists|j: int|
                    0 <= j < self.entries@.len() && self.entries@[j].key@ == k by {
                    if k != hash@ {
                        assert(old_model.contains_key(k));
                        let j = choose|j: int| 0 <= j < old_entries.len() && old_entries[j].key@ == k;
                        assert(self.entries@[j].key@ == k);
                    } else {
                        assert(self.entries@[i as int].key@ == k);
                    }
                }
            },
            None => {
                let mut values: Vec<V> = Vec::new();
                values.push(value);
                self.entries.push(Entry { key: hash, values });
                self.model = Ghost(old_model.insert(hash@, seq![vm]));
                assert(models(self.entries@.last().values@) =~= seq![vm]);
                assert forall|j: int| 0 <= j < old_entries.len() implies #[trigger] self.entries@[j]
                    == old_entries[j] by {}
                assert forall|j: int| 0 <= j < self.entries@.len() implies {
                    &&& self.entries@[j].values@.len() > 0
                    &&& self.model@.contains_key(#[trigger] self.entries@[j].key@)
                    &&& self.model@[self.entries@[j].key@] == models(self.entries@[j].values@)
                } by {
                    if j < old_entries.len() {
                        assert(old_model.contains_key(old_entries[j].key@));
                    }
                }
                assert forall|a: int, b: int| 0 <= a < b < self.entries@.len() implies self.entries@[a].key@
                    != self.entries@[b].key@ by {
                    assert(old_model.contains_key(old_entries[a].key@));
                }
                assert forall|k: Seq<u8>| #[trigger] self.model@.contains_key(k) implies exists|j: int|
                    0 <= j < self.entries@.len() && self.entries@[j].key@ == k by {
                    if k != hash@ {
                        assert(old_model.contains_key(k));
                        let j = choose|j: int| 0 <= j < old_entries.len() && old_entries[j].key@ == k;
                        assert(self.entries@[j].key@ == k);
                    } else {
                        assert(self.entries@[old_entries.len() as int].key@ == k);
                    }
                }
            },
        }
    }

    /// A copy of every value committed under `hash`, oldest first, or
    /// nothing for a hash that was never committed.
    pub fn recall(&self, hash: ContentHash) -> (r: Option<Vec<V>>)
        requires
            self.wf(),
        ensures
            r.is_none() <==> recalled(self@, hash@).is_none(),
            r matches Some(v) ==> recalled(self@, hash@) == Some(models(v@)),
    {
        match self.find(&hash) {
            Some(i) => {
                let values = &self.entries[i].values;
                let mut out: Vec<V> = Vec::new();
                let mut j: usize = 0;
                while j < values.len()
                    invariant
                        j <= values@.len(),
                        out@.len() == j,
                        forall|k: int| 0 <= k < j ==> out@[k]@ == values@[k]@,
                    decreases values@.len() - j,
                {
                    out.push(values[j].duplicate());
                    j = j + 1;
                }
                assert(models(out@) =~= models(values@));
                Some(out)
            },
            None => None,
        }
    }
}

/// Every signal the node has learned, by hash.
pub type KnowledgeMap = Ledger<Signal>;

/// Every presence observation, by hash; the input of teacher selection.
pub type PresenceMap = Ledger<Sighting>;

/// Every quality score reported, by hash.
pub type QualityMap = Ledger<Quality>;

} // verus!

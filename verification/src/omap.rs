//! Small verified collections for the override tables: an association map
//! with insertion order, and a set of message identifiers. Both keep their
//! entries in a vector with distinct keys and are specified against
//! `Map` and `Set`.

use vstd::prelude::*;

verus! {

/// An executable key type whose equality test decides equality of the
/// mathematical key values.
pub trait MapKey: View + Sized {
    fn key_eq(&self, other: &Self) -> (r: bool)
        ensures
            r == (self@ == other@),
    ;
}

impl MapKey for u32 {
    fn key_eq(&self, other: &Self) -> (r: bool)
        ensures
            r == (self@ == other@),
    {
        *self == *other
    }
}

/// An association map: entries in insertion order, keys distinct.
#[derive(Debug)]
pub struct AssocMap<K, V> {
    entries: Vec<(K, V)>,
}

/// The `Map` denoted by a sequence of entries; a later entry for the same
/// key would win, but well-formed maps have distinct keys.
pub open spec fn map_of<K: MapKey, V: View>(s: Seq<(K, V)>) -> Map<<K as View>::V, <V as View>::V>
    decreases s.len(),
{
    if s.len() == 0 {
        Map::empty()
    } else {
        map_of(s.drop_last()).insert(s.last().0@, s.last().1@)
    }
}

/// The key views of a sequence of entries, in order.
pub open spec fn keys_of<K: MapKey, V: View>(s: Seq<(K, V)>) -> Seq<<K as View>::V> {
    s.map(|i: int, e: (K, V)| e.0@)
}

/// The value views of a sequence of entries, in order.
pub open spec fn vals_of<K: MapKey, V: View>(s: Seq<(K, V)>) -> Seq<<V as View>::V> {
    s.map(|i: int, e: (K, V)| e.1@)
}

proof fn lemma_map_of_props<K: MapKey, V: View>(s: Seq<(K, V)>)
    ensures
        map_of(s).dom().finite(),
        forall|k: <K as View>::V|
            map_of(s).contains_key(k) <==> exists|i: int| 0 <= i < s.len() && #[trigger] s[i].0@
                == k,
    decreases s.len(),
{
    if s.len() > 0 {
        lemma_map_of_props(s.drop_last());
        assert forall|k: <K as View>::V| map_of(s).contains_key(k) implies exists|i: int|
            0 <= i < s.len() && #[trigger] s[i].0@ == k by {
            if k == s.last().0@ {
                assert(s[s.len() - 1].0@ == k);
            } else {
                let i = choose|i: int| 0 <= i < s.drop_last().len() && #[trigger] s.drop_last()[i].0@
                    == k;
                assert(s[i].0@ == k);
            }
        }
        assert forall|k: <K as View>::V|
            (exists|i: int| 0 <= i < s.len() && #[trigger] s[i].0@ == k) implies map_of(
            s,
        ).contains_key(k) by {
            let i = choose|i: int| 0 <= i < s.len() && #[trigger] s[i].0@ == k;
            if i < s.len() - 1 {
                assert(s.drop_last()[i].0@ == k);
            }
        }
    }
}

/// Whether the key views of `s` are pairwise distinct.
pub open spec fn distinct_keys<K: MapKey, V: View>(s: Seq<(K, V)>) -> bool {
    forall|i: int, j: int|
        0 <= i < j < s.len() ==> #[trigger] s[i].0@ != #[trigger] s[j].0@
}

proof fn lemma_map_of_get<K: MapKey, V: View>(s: Seq<(K, V)>, i: int)
    requires
        distinct_keys(s),
        0 <= i < s.len(),
    ensures
        map_of(s).contains_key(s[i].0@),
        map_of(s)[s[i].0@] == s[i].1@,
    decreases s.len(),
{
    lemma_map_of_props(s);
    if i < s.len() - 1 {
        assert(s[s.len() - 1].0@ != s[i].0@);
        lemma_map_of_get(s.drop_last(), i);
    }
}

proof fn lemma_map_of_len<K: MapKey, V: View>(s: Seq<(K, V)>)
    requires
        distinct_keys(s),
    ensures
        map_of(s).dom().len() == s.len(),
    decreases s.len(),
{
    lemma_map_of_props(s);
    if s.len() > 0 {
        lemma_map_of_len(s.drop_last());
        lemma_map_of_props(s.drop_last());
        assert(!map_of(s.drop_last()).contains_key(s.last().0@));
        broadcast use vstd::set::axiom_set_insert_len;

        assert(map_of(s).dom() =~= map_of(s.drop_last()).dom().insert(s.last().0@));
    }
}

proof fn lemma_map_of_update<K: MapKey, V: View>(s: Seq<(K, V)>, i: int, e: (K, V))
    requires
        distinct_keys(s),
        0 <= i < s.len(),
        s[i].0@ == e.0@,
    ensures
        map_of(s.update(i, e)) =~= map_of(s).insert(e.0@, e.1@),
    decreases s.len(),
{
    let t = s.update(i, e);
    if i == s.len() - 1 {
        assert(t.drop_last() =~= s.drop_last());
    } else {
        lemma_map_of_update(s.drop_last(), i, e);
        assert(t.drop_last() =~= s.drop_last().update(i, e));
        assert(t.last() == s.last());
        assert(s.last().0@ != e.0@);
    }
}

proof fn lemma_map_of_remove<K: MapKey, V: View>(s: Seq<(K, V)>, i: int)
    requires
        distinct_keys(s),
        0 <= i < s.len(),
    ensures
        map_of(s.remove(i)) =~= map_of(s).remove(s[i].0@),
    decreases s.len(),
{
    lemma_map_of_props(s);
    lemma_map_of_props(s.remove(i));
    let t = s.remove(i);
    if i == s.len() - 1 {
        assert(t =~= s.drop_last());
        lemma_map_of_props(s.drop_last());
        assert(!map_of(s.drop_last()).contains_key(s[i].0@));
        assert(map_of(s.drop_last()) =~= map_of(s.drop_last()).insert(
            s.last().0@,
            s.last().1@,
        ).remove(s[i].0@));
    } else {
        lemma_map_of_remove(s.drop_last(), i);
        assert(t.drop_last() =~= s.drop_last().remove(i));
        assert(t.last() == s.last());
        assert(s.last().0@ != s[i].0@);
    }
}

impl<K: MapKey, V: View> AssocMap<K, V> {
    /// The mathematical map held.
    pub closed spec fn view(&self) -> Map<<K as View>::V, <V as View>::V> {
        map_of(self.entries@)
    }

    /// The held keys, in insertion order.
    pub closed spec fn key_seq(&self) -> Seq<<K as View>::V> {
        keys_of(self.entries@)
    }

    /// The held values, in insertion order.
    pub closed spec fn val_seq(&self) -> Seq<<V as View>::V> {
        vals_of(self.entries@)
    }

    /// Validity: keys are pairwise distinct.
    pub closed spec fn wf(&self) -> bool {
        distinct_keys(self.entries@)
    }

    pub proof fn lemma_props(&self)
        ensures
            self@.dom().finite(),
            self.key_seq().len() == self.val_seq().len(),
            forall|k: <K as View>::V| self@.contains_key(k) <==> self.key_seq().contains(k),
            self.wf() ==> self@.dom().len() == self.key_seq().len(),
            self.wf() ==> forall|i: int|
                0 <= i < self.key_seq().len() ==> self@.contains_key(#[trigger] self.key_seq()[i])
                    && self@[self.key_seq()[i]] == self.val_seq()[i],
            (self.key_seq().len() == 0) <==> (self@ =~= Map::<<K as View>::V, <V as View>::V>::empty()),
    {
        lemma_map_of_props(self.entries@);
        assert(forall|k: <K as View>::V|
            (exists|i: int| 0 <= i < self.entries@.len() && #[trigger] self.entries@[i].0@ == k)
                <==> self.key_seq().contains(k)) by {
            assert forall|k: <K as View>::V| self.key_seq().contains(k) implies exists|i: int|
                0 <= i < self.entries@.len() && #[trigger] self.entries@[i].0@ == k by {
                let i = choose|i: int|
                    0 <= i < self.key_seq().len() && self.key_seq()[i] == k;
                assert(self.entries@[i].0@ == k);
            }
            assert forall|k: <K as View>::V|
                (exists|i: int| 0 <= i < self.entries@.len() && #[trigger] self.entries@[i].0@
                    == k) implies self.key_seq().contains(k) by {
                let i = choose|i: int|
                    0 <= i < self.entries@.len() && #[trigger] self.entries@[i].0@ == k;
                assert(self.key_seq()[i] == k);
            }
        }
        if self.wf() {
            lemma_map_of_len(self.entries@);
            assert forall|i: int| 0 <= i < self.key_seq().len() implies self@.contains_key(
                #[trigger] self.key_seq()[i],
            ) && self@[self.key_seq()[i]] == self.val_seq()[i] by {
                lemma_map_of_get(self.entries@, i);
            }
        }
        if self.key_seq().len() == 0 {
            assert(self@ =~= Map::<<K as View>::V, <V as View>::V>::empty());
        } else {
            assert(self.key_seq().contains(self.key_seq()[0]));
            assert(self@.contains_key(self.key_seq()[0]));
            assert(!Map::<<K as View>::V, <V as View>::V>::empty().contains_key(
                self.key_seq()[0],
            ));
        }
    }

    /// An empty map.
    pub fn new() -> (r: Self)
        ensures
            r@ == Map::<<K as View>::V, <V as View>::V>::empty(),
            r.key_seq() == Seq::<<K as View>::V>::empty(),
            r.val_seq() == Seq::<<V as View>::V>::empty(),
            r.wf(),
    {
        let r = AssocMap { entries: Vec::new() };
        proof {
            assert(r.key_seq() =~= Seq::<<K as View>::V>::empty());
            assert(r.val_seq() =~= Seq::<<V as View>::V>::empty());
        }
        r
    }

    /// Number of entries held.
    pub fn len(&self) -> (r: usize)
        ensures
            r == self.key_seq().len(),
    {
        self.entries.len()
    }

    /// Whether no entry is held.
    pub fn is_empty(&self) -> (r: bool)
        ensures
            r == (self.key_seq().len() == 0),
    {
        self.entries.len() == 0
    }

    /// The key of the entry at a position, counted in insertion order.
    pub fn key_at(&self, i: usize) -> (r: &K)
        requires
            i < self.key_seq().len(),
        ensures
            r@ == self.key_seq()[i as int],
    {
        &self.entries[i].0
    }

    /// The value of the entry at a position, counted in insertion order.
    pub fn val_at(&self, i: usize) -> (r: &V)
        requires
            i < self.val_seq().len(),
        ensures
            r@ == self.val_seq()[i as int],
    {
        &self.entries[i].1
    }

    fn index_of(&self, k: &K) -> (r: Option<usize>)
        ensures
            match r {
                Some(i) => i < self.entries@.len() && self.entries@[i as int].0@ == k@,
                None => forall|i: int|
                    0 <= i < self.entries@.len() ==> #[trigger] self.entries@[i].0@ != k@,
            },
    {
        let mut i: usize = 0;
        while i < self.entries.len()
            invariant
                i <= self.entries@.len(),
                forall|j: int| 0 <= j < i ==> #[trigger] self.entries@[j].0@ != k@,
            decreases self.entries@.len() - i,
        {
            if self.entries[i].0.key_eq(k) {
                return Some(i);
            }
            i = i + 1;
        }
        None
    }

    /// Whether a key is held.
    pub fn contains(&self, k: &K) -> (r: bool)
        ensures
            r == self@.contains_key(k@),
    {
        proof {
            lemma_map_of_props(self.entries@);
        }
        match self.index_of(k) {
            Some(_) => true,
            None => false,
        }
    }

    /// Borrows the value held for a key, if any.
    pub fn get(&self, k: &K) -> (r: Option<&V>)
        requires
            self.wf(),
        ensures
            match r {
                Some(v) => self@.contains_key(k@) && v@ == self@[k@],
                None => !self@.contains_key(k@),
            },
    {
        proof {
            lemma_map_of_props(self.entries@);
        }
        match self.index_of(k) {
            Some(i) => {
                proof {
                    lemma_map_of_get(self.entries@, i as int);
                }
                Some(&self.entries[i].1)
            },
            None => None,
        }
    }

    /// Puts a value for a key: replaces in place if the key is held, else
    /// appends a new entry.
    pub fn insert(&mut self, k: K, v: V)
        requires
            old(self).wf(),
        ensures
            final(self).wf(),
            final(self)@ == old(self)@.insert(k@, v@),
            old(self)@.contains_key(k@) ==> final(self).key_seq() == old(self).key_seq()
                && exists|i: int|
                0 <= i < old(self).key_seq().len() && old(self).key_seq()[i] == k@ && final(self).val_seq() == old(self).val_seq().update(i, v@),
            !old(self)@.contains_key(k@) ==> final(self).key_seq() == old(self).key_seq().push(k@)
                && final(self).val_seq() == old(self).val_seq().push(v@),
    {
        proof {
            lemma_map_of_props(self.entries@);
        }
        let ghost old_entries = self.entries@;
        match self.index_of(&k) {
            Some(i) => {
                proof {
                    lemma_map_of_update(self.entries@, i as int, (k, v));
                }
                self.entries.set(i, (k, v));
                proof {
                    assert(final(self).key_seq() =~= old(self).key_seq());
                    assert(final(self).val_seq() =~= old(self).val_seq().update(i as int, v@));
                    assert(old(self).key_seq()[i as int] == k@);
                }
            },
            None => {
                self.entries.push((k, v));
                proof {
                    assert(self.entries@.drop_last() =~= old_entries);
                    assert(final(self).key_seq() =~= old(self).key_seq().push(k@));
                    assert(final(self).val_seq() =~= old(self).val_seq().push(v@));
                }
            },
        }
    }

    /// Removes the entry for a key, if one is held; later entries move up.
    pub fn remove(&mut self, k: &K)
        requires
            old(self).wf(),
        ensures
            final(self).wf(),
            final(self)@ == old(self)@.remove(k@),
            !old(self)@.contains_key(k@) ==> *final(self) == *old(self),
            old(self)@.contains_key(k@) ==> exists|i: int|
                0 <= i < old(self).key_seq().len() && old(self).key_seq()[i] == k@ && final(self).key_seq() == old(self).key_seq().remove(i) && final(self).val_seq() == old(
                    self,
                ).val_seq().remove(i),
    {
        proof {
            lemma_map_of_props(self.entries@);
        }
        match self.index_of(k) {
            Some(i) => {
                proof {
                    lemma_map_of_remove(self.entries@, i as int);
                }
                self.entries.remove(i);
                proof {
                    assert(final(self).key_seq() =~= old(self).key_seq().remove(i as int));
                    assert(final(self).val_seq() =~= old(self).val_seq().remove(i as int));
                    assert(old(self).key_seq()[i as int] == k@);
                }
            },
            None => {
                proof {
                    assert(final(self)@ =~= old(self)@.remove(k@));
                }
            },
        }
    }
}

/// A set of message identifiers, held as a vector without repeats.
#[derive(Debug)]
pub struct IdSet {
    ids: Vec<u32>,
}

impl IdSet {
    /// The mathematical set held.
    pub closed spec fn view(&self) -> Set<u32> {
        self.ids@.to_set()
    }

    /// The held identifiers in insertion order.
    pub closed spec fn id_seq(&self) -> Seq<u32> {
        self.ids@
    }

    /// Validity: no identifier is held twice.
    pub closed spec fn wf(&self) -> bool {
        self.ids@.no_duplicates()
    }

    pub proof fn lemma_props(&self)
        ensures
            self@.finite(),
            forall|x: u32| self@.contains(x) <==> self.id_seq().contains(x),
            self.wf() ==> self@.len() == self.id_seq().len(),
            (self.id_seq().len() == 0) <==> (self@ =~= Set::<u32>::empty()),
    {
        broadcast use vstd::seq_lib::seq_to_set_is_finite;

        if self.wf() {
            self.ids@.unique_seq_to_set();
        }
        if self.id_seq().len() == 0 {
            assert(self@ =~= Set::<u32>::empty());
        } else {
            assert(self.id_seq().contains(self.id_seq()[0]));
            assert(self@.contains(self.id_seq()[0]));
        }
    }

    /// An empty set.
    pub fn new() -> (r: Self)
        ensures
            r@ == Set::<u32>::empty(),
            r.id_seq() == Seq::<u32>::empty(),
            r.wf(),
    {
        let r = IdSet { ids: Vec::new() };
        proof {
            assert(r@ =~= Set::<u32>::empty());
        }
        r
    }

    /// Number of identifiers held.
    pub fn len(&self) -> (r: usize)
        ensures
            r == self.id_seq().len(),
    {
        self.ids.len()
    }

    /// Whether no identifier is held.
    pub fn is_empty(&self) -> (r: bool)
        ensures
            r == (self.id_seq().len() == 0),
    {
        self.ids.len() == 0
    }

    fn index_of(&self, id: u32) -> (r: Option<usize>)
        ensures
            match r {
                Some(i) => i < self.ids@.len() && self.ids@[i as int] == id,
                None => !self.ids@.contains(id),
            },
    {
        let mut i: usize = 0;
        while i < self.ids.len()
            invariant
                i <= self.ids@.len(),
                forall|j: int| 0 <= j < i ==> self.ids@[j] != id,
            decreases self.ids@.len() - i,
        {
            if self.ids[i] == id {
                return Some(i);
            }
            i = i + 1;
        }
        None
    }

    /// Whether an identifier is held.
    pub fn contains(&self, id: u32) -> (r: bool)
        ensures
            r == self@.contains(id),
    {
        match self.index_of(id) {
            Some(_) => true,
            None => false,
        }
    }

    /// Puts an identifier into the set.
    pub fn insert(&mut self, id: u32)
        requires
            old(self).wf(),
        ensures
            final(self).wf(),
            final(self)@ == old(self)@.insert(id),
            old(self)@.contains(id) ==> final(self).id_seq() == old(self).id_seq(),
            !old(self)@.contains(id) ==> final(self).id_seq() == old(self).id_seq().push(id),
    {
        match self.index_of(id) {
            Some(_) => {
                proof {
                    assert(final(self)@ =~= old(self)@.insert(id));
                }
            },
            None => {
                self.ids.push(id);
                proof {
                    old(self).ids@.lemma_push_to_set_commute(id);
                    assert(final(self)@ =~= old(self)@.insert(id));
                }
            },
        }
    }

    /// Takes an identifier out of the set, if held.
    pub fn remove(&mut self, id: u32)
        requires
            old(self).wf(),
        ensures
            final(self).wf(),
            final(self)@ == old(self)@.remove(id),
            !old(self)@.contains(id) ==> *final(self) == *old(self),
            old(self)@.contains(id) ==> exists|i: int|
                0 <= i < old(self).id_seq().len() && old(self).id_seq()[i] == id && final(self).id_seq() == old(self).id_seq().remove(i),
    {
        match self.index_of(id) {
            Some(i) => {
                let ghost old_ids = self.ids@;
                self.ids.remove(i);
                proof {
                    assert(self.ids@ =~= old_ids.remove(i as int));
                    assert forall|x: u32| self.ids@.to_set().contains(x) <==> old_ids.to_set()
                        .remove(id).contains(x) by {
                        if self.ids@.contains(x) {
                            let j = choose|j: int|
                                0 <= j < self.ids@.len() && self.ids@[j] == x;
                            if j < i {
                                assert(old_ids[j] == x);
                            } else {
                                assert(old_ids[j + 1] == x);
                            }
                            assert(x != id);
                        }
                        if old_ids.contains(x) && x != id {
                            let j = choose|j: int| 0 <= j < old_ids.len() && old_ids[j] == x;
                            assert(j != i);
                            if j < i {
                                assert(self.ids@[j] == x);
                            } else {
                                assert(self.ids@[j - 1] == x);
                            }
                        }
                    }
                    assert(final(self)@ =~= old(self)@.remove(id));
                    assert(old(self).id_seq()[i as int] == id);
                    assert(final(self).id_seq() == old(self).id_seq().remove(i as int));
                }
            },
            None => {
                proof {
                    assert(final(self)@ =~= old(self)@.remove(id));
                }
            },
        }
    }
}

} // verus!

//! The server's table of live sessions, keyed by session identifier.
use vstd::prelude::*;

use crate::protocol::session::Session;

verus! {

/// Live sessions, at most one per identifier.
pub struct SessionTable {
    entries: Vec<Session>,
}

impl View for SessionTable {
    type V = Map<Seq<char>, Session>;

    closed spec fn view(&self) -> Map<Seq<char>, Session> {
        Map::new(
            |k: Seq<char>| exists|i: int| 0 <= i < self.entries.len() && self.entries@[i].id@ == k,
            |k: Seq<char>|
                self.entries@[choose|i: int|
                    0 <= i < self.entries.len() && self.entries@[i].id@ == k],
        )
    }
}

impl SessionTable {
    /// No identifier occurs twice.
    #[verifier::type_invariant]
    closed spec fn ids_distinct(self) -> bool {
        forall|i: int, j: int|
            0 <= i < j < self.entries.len() ==> self.entries@[i].id@ != self.entries@[j].id@
    }

    /// Number of live sessions.
    pub closed spec fn count(self) -> nat {
        self.entries@.len()
    }

    proof fn lemma_at(self, i: int)
        requires
            self.ids_distinct(),
            0 <= i < self.entries.len(),
        ensures
            self@.dom().contains(self.entries@[i].id@),
            self@[self.entries@[i].id@] == self.entries@[i],
    {
        let k = self.entries@[i].id@;
        assert(exists|x: int| 0 <= x < self.entries.len() && self.entries@[x].id@ == k);
        let j = choose|x: int| 0 <= x < self.entries.len() && self.entries@[x].id@ == k;
        if j != i {
            if j < i {
                assert(self.entries@[j].id@ != self.entries@[i].id@);
            } else {
                assert(self.entries@[i].id@ != self.entries@[j].id@);
            }
        }
    }

    /// An empty table.
    pub fn new() -> (t: Self)
        ensures
            t@ == Map::<Seq<char>, Session>::empty(),
            t.count() == 0,
    {
        let t = SessionTable { entries: Vec::new() };
        assert(t@ =~= Map::<Seq<char>, Session>::empty());
        t
    }

    /// Position of the session with identifier `id`.
    fn position(&self, id: &String) -> (r: Option<usize>)
        requires
            self.ids_distinct(),
        ensures
            match r {
                Some(i) => i < self.entries.len() && self.entries@[i as int].id@ == id@,
                None => forall|i: int| 0 <= i < self.entries.len() ==> self.entries@[i].id@ != id@,
            },
    {
        let mut i: usize = 0;
        while i < self.entries.len()
            invariant
                i <= self.entries.len(),
                forall|j: int| 0 <= j < i ==> self.entries@[j].id@ != id@,
            decreases self.entries.len() - i,
        {
            if self.entries[i].id == *id {
                return Some(i);
            }
            i = i + 1;
        }
        None
    }

    /// Records `s` under its identifier, replacing any session with that
    /// identifier.
    pub fn insert(&mut self, s: Session)
        ensures
            final(self)@ == old(self)@.insert(s.id@, s),
            final(self).count() == if old(self)@.dom().contains(s.id@) {
                old(self).count()
            } else {
                old(self).count() + 1
            },
    {
        proof {
            use_type_invariant(&*self);
        }
        let ghost old_entries = self.entries@;
        let ghost k = s.id@;
        let pos = self.position(&s.id);
        let mut entries: Vec<Session> = Vec::new();
        std::mem::swap(&mut entries, &mut self.entries);
        match pos {
            Some(i) => {
                entries.set(i, s);
            },
            None => {
                entries.push(s);
            },
        }
        let ghost new_entries = entries@;
        self.entries = entries;
        proof {
            let t = *self;
            assert(t.entries@ == new_entries);
            assert forall|x: Seq<char>| #[trigger] t@.dom().contains(x) == old(self)@.insert(
                k,
                s,
            ).dom().contains(x) by {
                if x == k {
                    if pos is None {
                        assert(t.entries@[old_entries.len() as int].id@ == k);
                    } else {
                        assert(t.entries@[pos->0 as int].id@ == k);
                    }
                } else {
                    if t@.dom().contains(x) {
                        let j = choose|j: int| 0 <= j < t.entries.len() && t.entries@[j].id@ == x;
                        assert(old_entries[j].id@ == x);
                    }
                    if old(self)@.dom().contains(x) {
                        let j = choose|j: int| 0 <= j < old_entries.len() && old_entries[j].id@ == x;
                        assert(t.entries@[j].id@ == x);
                    }
                }
            }
            assert forall|x: Seq<char>| #[trigger] t@.dom().contains(x) implies t@[x] == old(
                self,
            )@.insert(k, s)[x] by {
                let j = choose|j: int| 0 <= j < t.entries.len() && t.entries@[j].id@ == x;
                t.lemma_at(j);
                if x != k {
                    assert(old_entries[j] == t.entries@[j]);
                    old(self).lemma_at(j);
                } else {
                    if pos is None {
                        t.lemma_at(old_entries.len() as int);
                    } else {
                        t.lemma_at(pos->0 as int);
                    }
                }
            }
            assert(t@ =~= old(self)@.insert(k, s));
            if pos is Some {
                old(self).lemma_at(pos->0 as int);
            } else {
                assert(!old(self)@.dom().contains(k));
            }
        }
    }

    /// The session with identifier `id`, if any.
    pub fn get(&self, id: &str) -> (r: Option<Session>)
        ensures
            r == if self@.dom().contains(id@) {
                Some(self@[id@])
            } else {
                None
            },
    {
        proof {
            use_type_invariant(self);
        }
        let key = id.to_owned();
        match self.position(&key) {
            Some(i) => {
                proof {
                    self.lemma_at(i as int);
                }
                Some(self.entries[i].clone())
            },
            None => {
                assert(!self@.dom().contains(id@));
                None
            },
        }
    }

    /// Removes the session with identifier `id`, if any.
    pub fn remove(&mut self, id: &str)
        ensures
            final(self)@ == old(self)@.remove(id@),
            final(self).count() == if old(self)@.dom().contains(id@) {
                (old(self).count() - 1) as nat
            } else {
                old(self).count()
            },
    {
        proof {
            use_type_invariant(&*self);
        }
        let ghost old_entries = self.entries@;
        let key = id.to_owned();
        match self.position(&key) {
            None => {
                assert(!old(self)@.dom().contains(id@));
                assert(self@ =~= old(self)@.remove(id@));
            },
            Some(i) => {
                let mut entries: Vec<Session> = Vec::new();
                std::mem::swap(&mut entries, &mut self.entries);
                entries.remove(i);
                let ghost new_entries = entries@;
                assert forall|a: int, b: int| 0 <= a < b < new_entries.len() implies new_entries[a].id@
                    != new_entries[b].id@ by {
                    let oa = if a < i { a } else { a + 1 };
                    let ob = if b < i { b } else { b + 1 };
                    assert(new_entries[a] == old_entries[oa]);
                    assert(new_entries[b] == old_entries[ob]);
                }
                self.entries = entries;
                proof {
                    let t = *self;
                    old(self).lemma_at(i as int);
                    assert forall|x: Seq<char>| #[trigger] t@.dom().contains(x) == old(
                        self,
                    )@.remove(id@).dom().contains(x) by {
                        if t@.dom().contains(x) {
                            let j = choose|j: int| 0 <= j < t.entries.len() && t.entries@[j].id@ == x;
                            let oj = if j < i { j } else { j + 1 };
                            assert(old_entries[oj].id@ == x);
                            assert(x != id@);
                        }
                        if old(self)@.remove(id@).dom().contains(x) {
                            let j = choose|j: int| 0 <= j < old_entries.len() && old_entries[j].id@ == x;
                            assert(j != i);
                            let nj = if j < i { j } else { j - 1 };
                            assert(t.entries@[nj].id@ == x);
                        }
                    }
                    assert forall|x: Seq<char>| #[trigger] t@.dom().contains(x) implies t@[x] == old(
                        self,
                    )@.remove(id@)[x] by {
                        let j = choose|j: int| 0 <= j < t.entries.len() && t.entries@[j].id@ == x;
                        t.lemma_at(j);
                        let oj = if j < i { j } else { j + 1 };
                        assert(old_entries[oj] == t.entries@[j]);
                        old(self).lemma_at(oj);
                    }
                    assert(t@ =~= old(self)@.remove(id@));
                }
            },
        }
    }

    /// Number of live sessions: the size of the table.
    pub fn len(&self) -> (n: usize)
        ensures
            n == self.count(),
            self@.dom().finite(),
            n == self@.dom().len(),
    {
        proof {
            use_type_invariant(self);
            let ids = self.entries@.map_values(|s: Session| s.id@);
            assert forall|i: int, j: int|
                0 <= i < ids.len() && 0 <= j < ids.len() && i != j implies ids[i] != ids[j] by {
                if i < j {
                    assert(self.entries@[i].id@ != self.entries@[j].id@);
                } else {
                    assert(self.entries@[j].id@ != self.entries@[i].id@);
                }
            }
            ids.unique_seq_to_set();
            assert forall|k: Seq<char>| #[trigger] self@.dom().contains(k) == ids.to_set().contains(k) by {
                if self@.dom().contains(k) {
                    let i = choose|i: int| 0 <= i < self.entries.len() && self.entries@[i].id@ == k;
                    assert(ids[i] == k);
                }
                if ids.to_set().contains(k) {
                    let i = choose|i: int| 0 <= i < ids.len() && ids[i] == k;
                    assert(self.entries@[i].id@ == k);
                }
            }
            assert(self@.dom() =~= ids.to_set());
            vstd::seq_lib::seq_to_set_is_finite(ids);
        }
        self.entries.len()
    }
}

/// Removing what was inserted forgets it, and looking up right after an
/// insert finds the inserted session; other identifiers are unaffected.
pub proof fn lemma_insert_then_lookup(m: Map<Seq<char>, Session>, s: Session, other: Seq<char>)
    ensures
        m.insert(s.id@, s)[s.id@] == s,
        other != s.id@ ==> (m.insert(s.id@, s).dom().contains(other) == m.dom().contains(other)),
        !m.insert(s.id@, s).remove(s.id@).dom().contains(s.id@),
{
}

} // verus!

//! The sessions in flight, each under its session id.

use vstd::prelude::*;

verus! {

/// A card's manufacture ID or manufacture parameter.
pub type Block8 = [u8; 8];

/// One authentication in flight. `worker` is whatever the caller needs to reach the
/// worker of this session; nothing here looks into it.
#[verifier::reject_recursive_types(W)]
pub struct Session<W> {
    pub idm: Block8,
    pub pmm: Block8,
    /// When the session last made progress, in nanoseconds on the caller's clock.
    pub last_seen: u128,
    pub worker: W,
}

impl<W> Session<W> {
    /// The same session, seen at `now`.
    pub open spec fn seen_at(self, now: u128) -> Session<W> {
        Session { last_seen: now, ..self }
    }
}

/// How long a session has been idle at `now`. A clock that has gone backwards
/// counts as no time at all.
pub open spec fn idle_time(last_seen: u128, now: u128) -> int {
    if last_seen <= now {
        now - last_seen
    } else {
        0
    }
}

/// Whether a session has been idle for less than `ttl` at `now`.
pub open spec fn fresh<W>(session: Session<W>, now: u128, ttl: u128) -> bool {
    idle_time(session.last_seen, now) < ttl
}

/// The sessions that are still fresh at `now`.
pub open spec fn fresh_sessions<W>(
    sessions: Map<Seq<char>, Session<W>>,
    now: u128,
    ttl: u128,
) -> Map<Seq<char>, Session<W>> {
    sessions.restrict(Set::new(|id: Seq<char>| sessions.contains_key(id) && fresh(sessions[id], now, ttl)))
}

/// The sessions after the one under `id`, if it is there, was seen at `now`.
pub open spec fn touched<W>(
    sessions: Map<Seq<char>, Session<W>>,
    id: Seq<char>,
    now: u128,
) -> Map<Seq<char>, Session<W>> {
    if sessions.contains_key(id) {
        sessions.insert(id, sessions[id].seen_at(now))
    } else {
        sessions
    }
}

/// A table of sessions in which no id occurs twice.
#[verifier::reject_recursive_types(W)]
pub struct SessionTable<W> {
    entries: Vec<(String, Session<W>)>,
}

impl<W> View for SessionTable<W> {
    type V = Map<Seq<char>, Session<W>>;

    closed spec fn view(&self) -> Map<Seq<char>, Session<W>> {
        Map::new(
            |id: Seq<char>| exists|i: int| self.holds(i, id),
            |id: Seq<char>| self.entries@[choose|i: int| self.holds(i, id)].1,
        )
    }
}

impl<W> SessionTable<W> {
    /// Whether the entry at `i` stands under `id`.
    closed spec fn holds(&self, i: int, id: Seq<char>) -> bool {
        0 <= i < self.entries@.len() && self.entries@[i].0@ == id
    }

    /// No id occurs twice.
    pub closed spec fn wf(&self) -> bool {
        forall|i: int, j: int|
            #![trigger self.entries@[i], self.entries@[j]]
            0 <= i < j < self.entries@.len() ==> self.entries@[i].0@ != self.entries@[j].0@
    }

    /// Each entry is what the table holds under its id.
    proof fn entry_is_held(&self, i: int)
        requires
            self.wf(),
            0 <= i < self.entries@.len(),
        ensures
            self@.contains_key(self.entries@[i].0@),
            self@[self.entries@[i].0@] == self.entries@[i].1,
    {
        let id = self.entries@[i].0@;
        assert(self.holds(i, id));
        let k = choose|k: int| self.holds(k, id);
        assert(self.holds(k, id));
        assert(k == i);
    }

    /// There are as many ids as entries.
    proof fn ids_are_counted(&self)
        requires
            self.wf(),
        ensures
            self@.dom().finite(),
            self@.len() == self.entries@.len(),
    {
        let ids = Seq::new(self.entries@.len(), |i: int| self.entries@[i].0@);
        assert(ids.no_duplicates());
        ids.unique_seq_to_set();
        vstd::seq_lib::seq_to_set_is_finite(ids);
        assert(ids.to_set() =~= self@.dom()) by {
            assert forall|id: Seq<char>| self@.dom().contains(id) implies ids.to_set().contains(
                id,
            ) by {
                let i = choose|i: int| self.holds(i, id);
                assert(ids[i] == id);
            }
            assert forall|id: Seq<char>| ids.to_set().contains(id) implies self@.dom().contains(
                id,
            ) by {
                let i = choose|i: int| 0 <= i < ids.len() && ids[i] == id;
                assert(self.holds(i, id));
            }
        }
    }

    /// An empty table.
    pub fn new() -> (table: Self)
        ensures
            table.wf(),
            table@ == Map::<Seq<char>, Session<W>>::empty(),
    {
        let table = SessionTable { entries: Vec::new() };
        assert(table@ =~= Map::<Seq<char>, Session<W>>::empty());
        table
    }

    /// The number of sessions.
    pub fn len(&self) -> (count: usize)
        requires
            self.wf(),
        ensures
            self@.dom().finite(),
            count == self@.len(),
    {
        proof {
            self.ids_are_counted();
        }
        self.entries.len()
    }

    /// Where the session with this id stands.
    fn position(&self, id: &str) -> (found: Option<usize>)
        requires
            self.wf(),
        ensures
            match found {
                Some(i) => self.holds(i as int, id@),
                None => !self@.contains_key(id@),
            },
    {
        let wanted = id.to_owned();
        for i in 0..self.entries.len()
            invariant
                self.wf(),
                wanted@ == id@,
                forall|j: int| 0 <= j < i ==> !self.holds(j, id@),
        {
            if self.entries[i].0 == wanted {
                return Some(i);
            }
        }
        None
    }

    /// The session with this id.
    pub fn get(&self, id: &str) -> (found: Option<&Session<W>>)
        requires
            self.wf(),
        ensures
            match found {
                Some(session) => self@.contains_key(id@) && *session == self@[id@],
                None => !self@.contains_key(id@),
            },
    {
        match self.position(id) {
            Some(i) => {
                proof {
                    self.entry_is_held(i as int);
                }
                Some(&self.entries[i].1)
            },
            None => None,
        }
    }

    /// Removes the session with this id, if there is one.
    pub fn remove(&mut self, id: &str)
        requires
            old(self).wf(),
        ensures
            final(self).wf(),
            final(self)@ == old(self)@.remove(id@),
    {
        if let Some(i) = self.position(id) {
            self.remove_at(i);
        } else {
            assert(self@ =~= old(self)@.remove(id@));
        }
    }

    /// Removes the entry at `i`; the last one takes its place.
    fn remove_at(&mut self, i: usize)
        requires
            old(self).wf(),
            i < old(self).entries@.len(),
        ensures
            final(self).wf(),
            final(self)@ == old(self)@.remove(old(self).entries@[i as int].0@),
            final(self).entries@ == old(self).entries@.update(
                i as int,
                old(self).entries@.last(),
            ).drop_last(),
    {
        let ghost before = *self;
        let ghost id = self.entries@[i as int].0@;
        let _ = self.entries.swap_remove(i);
        let ghost last = before.entries@.len() - 1;
        assert(self.wf());
        assert forall|key: Seq<char>| #[trigger]
            self@.contains_key(key) implies before@.remove(id).contains_key(key) && self@[key]
            == before@.remove(id)[key] by {
            let k = choose|k: int| self.holds(k, key);
            assert(self.holds(k, key));
            self.entry_is_held(k);
            if k == i {
                before.entry_is_held(last);
                assert(before.entries@[i as int].0@ != before.entries@[last].0@);
            } else {
                before.entry_is_held(k);
                assert(before.entries@[k].0@ != before.entries@[i as int].0@);
            }
        }
        assert forall|key: Seq<char>| #[trigger] before@.remove(id).contains_key(key) implies self@
            .contains_key(key) by {
            let k = choose|k: int| before.holds(k, key);
            assert(before.holds(k, key));
            if k == last {
                assert(self.holds(i as int, key));
            } else {
                assert(self.holds(k, key));
            }
        }
        assert(self@ =~= before@.remove(id));
    }

    /// Puts a session under this id, in place of the one that was there, if any.
    pub fn insert(&mut self, id: String, session: Session<W>)
        requires
            old(self).wf(),
        ensures
            final(self).wf(),
            final(self)@ == old(self)@.insert(id@, session),
    {
        self.remove(id.as_str());
        let ghost before = *self;
        self.entries.push((id, session));
        let ghost last = before.entries@.len() as int;
        assert forall|i: int, j: int|
            #![trigger self.entries@[i], self.entries@[j]]
            0 <= i < j < self.entries@.len() implies self.entries@[i].0@
            != self.entries@[j].0@ by {
            before.entry_is_held(i);
            if j < last {
                assert(before.entries@[i].0@ != before.entries@[j].0@);
            }
        }
        assert forall|key: Seq<char>| #[trigger]
            self@.contains_key(key) implies before@.insert(id@, session).contains_key(key)
            && self@[key] == before@.insert(id@, session)[key] by {
            let k = choose|k: int| self.holds(k, key);
            assert(self.holds(k, key));
            self.entry_is_held(k);
            if k < last {
                before.entry_is_held(k);
            }
        }
        assert forall|key: Seq<char>| #[trigger]
            before@.insert(id@, session).contains_key(key) implies self@.contains_key(key) by {
            if key == id@ {
                assert(self.holds(last, key));
            } else {
                let k = choose|k: int| before.holds(k, key);
                assert(self.holds(k, key));
            }
        }
        assert(self@ =~= before@.insert(id@, session));
        assert(self@ =~= old(self)@.insert(id@, session));
    }

    /// Notes that the session with this id, if there is one, was seen at `now`.
    pub fn touch(&mut self, id: &str, now: u128)
        requires
            old(self).wf(),
        ensures
            final(self).wf(),
            final(self)@ == touched(old(self)@, id@, now),
    {
        if let Some(i) = self.position(id) {
            let ghost before = *self;
            self.entries[i].1.last_seen = now;
            proof {
                before.entry_is_held(i as int);
                assert forall|key: Seq<char>| #[trigger] self@.contains_key(key) implies touched(
                    before@,
                    id@,
                    now,
                ).contains_key(key) && self@[key] == touched(before@, id@, now)[key] by {
                    let k = choose|k: int| self.holds(k, key);
                    assert(self.holds(k, key));
                    self.entry_is_held(k);
                    before.entry_is_held(k);
                }
                assert forall|key: Seq<char>| #[trigger] touched(before@, id@, now).contains_key(
                    key,
                ) implies self@.contains_key(key) by {
                    let k = choose|k: int| before.holds(k, key);
                    assert(before.holds(k, key));
                    assert(self.holds(k, key));
                }
                assert(self@ =~= touched(before@, id@, now));
            }
        }
    }

    /// Removes every session that has been idle for `ttl` or longer at `now`, and says
    /// how many those were.
    pub fn reap(&mut self, now: u128, ttl: u128) -> (reaped: usize)
        requires
            old(self).wf(),
        ensures
            final(self).wf(),
            final(self)@ == fresh_sessions(old(self)@, now, ttl),
            old(self)@.dom().finite(),
            final(self)@.dom().finite(),
            reaped == old(self)@.len() - final(self)@.len(),
    {
        let before = self.entries.len();
        let mut i: usize = 0;
        proof {
            self.ids_are_counted();
        }
        while i < self.entries.len()
            invariant
                self.wf(),
                i <= self.entries@.len() <= before,
                fresh_sessions(self@, now, ttl) == fresh_sessions(old(self)@, now, ttl),
                forall|j: int| 0 <= j < i ==> fresh((#[trigger] self.entries@[j]).1, now, ttl),
            decreases self.entries@.len() - i,
        {
            let last_seen = self.entries[i].1.last_seen;
            let idle: u128 = if last_seen <= now {
                now - last_seen
            } else {
                0
            };
            if idle < ttl {
                i = i + 1;
            } else {
                let ghost held = *self;
                proof {
                    self.entry_is_held(i as int);
                }
                self.remove_at(i);
                assert(fresh_sessions(self@, now, ttl) =~= fresh_sessions(held@, now, ttl));
            }
        }
        proof {
            self.ids_are_counted();
            assert forall|id: Seq<char>| #[trigger] self@.contains_key(id) implies fresh(
                self@[id],
                now,
                ttl,
            ) by {
                let k = choose|k: int| self.holds(k, id);
                assert(self.holds(k, id));
                self.entry_is_held(k);
            }
            assert(self@ =~= fresh_sessions(self@, now, ttl));
        }
        before - self.entries.len()
    }
}

} // verus!

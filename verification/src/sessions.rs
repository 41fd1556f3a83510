//! The sessions of the web server: which one is current, and the ICE
//! candidates held for each until its client asks for them.
use vstd::prelude::*;
use crate::discovery::texts;
use crate::text::{owned, same_text};

verus! {

/// The most ICE candidates held for one session.
pub const MAX_ICE_CANDIDATES: usize = 20;

/// The sessions (by id, each once), the current one, and the ICE
/// candidates queued per session (each session once).
pub struct SessionTable {
    pub sessions: Vec<String>,
    pub current: Option<String>,
    pub ice_queues: Vec<(String, Vec<String>)>,
}

/// The ids of a list of queues.
pub open spec fn queue_ids(q: Seq<(String, Vec<String>)>) -> Seq<Seq<char>> {
    q.map_values(|e: (String, Vec<String>)| e.0@)
}

/// No text occurs twice.
pub open spec fn distinct(s: Seq<Seq<char>>) -> bool {
    forall|i: int, j: int| 0 <= i < j < s.len() ==> s[i] != s[j]
}

/// The candidates queued for a session (none when it has no queue).
pub open spec fn queued(q: Seq<(String, Vec<String>)>, id: Seq<char>) -> Seq<Seq<char>> {
    if has_queue(q, id) {
        texts(q[queue_index(q, id)].1@)
    } else {
        seq![]
    }
}

/// Whether a session has a queue.
pub open spec fn has_queue(q: Seq<(String, Vec<String>)>, id: Seq<char>) -> bool {
    exists|i: int| 0 <= i < q.len() && q[i].0@ == id
}

/// The position of a session's queue (meaningful when it has one).
pub open spec fn queue_index(q: Seq<(String, Vec<String>)>, id: Seq<char>) -> int {
    choose|i: int| 0 <= i < q.len() && q[i].0@ == id
}

/// A queue after one more candidate: the oldest is dropped when it is full.
pub open spec fn pushed(queue: Seq<Seq<char>>, c: Seq<char>) -> Seq<Seq<char>> {
    if queue.len() >= 20 {
        queue.drop_first().push(c)
    } else {
        queue.push(c)
    }
}

impl SessionTable {
    /// Sessions and queues each have distinct ids, and every queue holds
    /// at most 20 candidates.
    pub open spec fn wf(&self) -> bool {
        &&& distinct(texts(self.sessions@))
        &&& distinct(queue_ids(self.ice_queues@))
        &&& forall|i: int| 0 <= i < self.ice_queues@.len() ==> #[trigger] self.ice_queues@[i].1@.len() <= 20
    }

    /// No sessions.
    pub fn new() -> (r: Self)
        ensures
            r.wf(),
            r.sessions@.len() == 0,
            r.current is None,
            r.ice_queues@.len() == 0,
    {
        SessionTable { sessions: Vec::new(), current: None, ice_queues: Vec::new() }
    }

    /// The position of a session, if it is there.
    fn find_session(&self, id: &str) -> (r: Option<usize>)
        ensures
            match r {
                Some(i) => i < self.sessions@.len() && self.sessions@[i as int]@ == id@,
                None => forall|i: int| 0 <= i < self.sessions@.len() ==> self.sessions@[i]@ != id@,
            },
    {
        let mut i: usize = 0;
        while i < self.sessions.len()
            invariant
                i <= self.sessions@.len(),
                forall|j: int| 0 <= j < i ==> self.sessions@[j]@ != id@,
            decreases self.sessions@.len() - i,
        {
            if same_text(self.sessions[i].as_str(), id) {
                return Some(i);
            }
            i = i + 1;
        }
        None
    }

    /// Adds a session (replacing one of the same id); it becomes current
    /// when there is none.
    pub fn add_session(&mut self, id: &str)
        requires
            old(self).wf(),
        ensures
            final(self).wf(),
            texts(final(self).sessions@).contains(id@),
            forall|s: Seq<char>| texts(old(self).sessions@).contains(s) ==> texts(final(self).sessions@).contains(s),
            forall|s: Seq<char>| #[trigger] texts(final(self).sessions@).contains(s) ==> s == id@ || texts(
                old(self).sessions@,
            ).contains(s),
            match old(self).current {
                None => final(self).current matches Some(c) && c@ == id@,
                Some(c) => final(self).current == Some(c),
            },
            final(self).ice_queues == old(self).ice_queues,
    {
        let ghost before = texts(self.sessions@);
        match self.find_session(id) {
            Some(i) => {
                assert(before[i as int] == id@);
            },
            None => {
                self.sessions.push(owned(id));
                proof {
                    let after = texts(self.sessions@);
                    assert(after =~= before.push(id@));
                    assert(after[before.len() as int] == id@);
                    assert forall|t: Seq<char>| before.contains(t) implies after.contains(t) by {
                        let k = choose|k: int| 0 <= k < before.len() && before[k] == t;
                        assert(after[k] == t);
                    }
                    assert forall|a: int, b: int| 0 <= a < b < after.len() implies after[a] != after[b] by {
                        if b == before.len() {
                            assert(before[a] != id@);
                        }
                    }
                }
            },
        }
        if self.current.is_none() {
            self.current = Some(owned(id));
        }
    }

    /// Removes a session; when it was current, there is no current one.
    /// Gives whether it was there.
    pub fn remove_session(&mut self, id: &str) -> (r: bool)
        requires
            old(self).wf(),
        ensures
            final(self).wf(),
            r == texts(old(self).sessions@).contains(id@),
            !texts(final(self).sessions@).contains(id@),
            forall|s: Seq<char>| s != id@ ==> (texts(final(self).sessions@).contains(s) == texts(
                old(self).sessions@,
            ).contains(s)),
            match old(self).current {
                Some(c) => if c@ == id@ {
                    final(self).current is None
                } else {
                    final(self).current == Some(c)
                },
                None => final(self).current is None,
            },
            final(self).ice_queues == old(self).ice_queues,
    {
        let ghost before = texts(self.sessions@);
        let found = match self.find_session(id) {
            Some(i) => {
                proof {
                    assert(before[i as int] == id@);
                    assert(before.contains(id@));
                }
                self.sessions.remove(i);
                proof {
                    let after = texts(self.sessions@);
                    assert(after =~= before.remove(i as int));
                    assert forall|s: Seq<char>| s != id@ implies (after.contains(s) == before.contains(s)) by {
                        if before.contains(s) {
                            let k = choose|k: int| 0 <= k < before.len() && before[k] == s;
                            if k < i {
                                assert(after[k] == s);
                            } else {
                                assert(k != i);
                                assert(after[k - 1] == s);
                            }
                        }
                    }
                    assert forall|k: int| 0 <= k < after.len() implies after[k] != id@ by {
                        if k < i {
                            assert(before[k] != before[i as int]);
                        } else {
                            assert(before[k + 1] != before[i as int]);
                        }
                    }
                }
                true
            },
            None => {
                proof {
                    assert(!before.contains(id@));
                }
                false
            },
        };
        let clear = match &self.current {
            Some(c) => same_text(c.as_str(), id),
            None => false,
        };
        if clear {
            self.current = None;
        }
        found
    }

    /// The current session.
    pub fn get_current_session(&self) -> (r: Option<String>)
        ensures
            crate::discovery::opt_text(r) == crate::discovery::opt_text(self.current),
    {
        match &self.current {
            Some(c) => Some(owned(c.as_str())),
            None => None,
        }
    }

    /// Sets the current session.
    pub fn set_current_session(&mut self, id: Option<String>)
        ensures
            final(self).current == id,
            final(self).sessions == old(self).sessions,
            final(self).ice_queues == old(self).ice_queues,
    {
        self.current = id;
    }

    /// The number of sessions.
    pub fn session_count(&self) -> (r: usize)
        ensures
            r == self.sessions@.len(),
    {
        self.sessions.len()
    }
}


proof fn lemma_queued_at(q: Seq<(String, Vec<String>)>, id: Seq<char>, i: int)
    requires
        distinct(queue_ids(q)),
        0 <= i < q.len(),
        q[i].0@ == id,
    ensures
        queued(q, id) == texts(q[i].1@),
{
    assert(has_queue(q, id)) by {
        assert(0 <= i < q.len() && q[i].0@ == id);
    }
    let k = queue_index(q, id);
    assert(0 <= k < q.len() && q[k].0@ == id);
    if k != i {
        assert(queue_ids(q)[k] == q[k].0@);
        assert(queue_ids(q)[i] == q[i].0@);
        if k < i {
            assert(queue_ids(q)[k] != queue_ids(q)[i]);
        } else {
            assert(queue_ids(q)[i] != queue_ids(q)[k]);
        }
    }
    assert(k == i);
}

proof fn lemma_queued_absent(q: Seq<(String, Vec<String>)>, id: Seq<char>)
    requires
        forall|i: int| 0 <= i < q.len() ==> q[i].0@ != id,
    ensures
        queued(q, id) == Seq::<Seq<char>>::empty(),
{
}

impl SessionTable {
    fn find_queue(&self, id: &str) -> (r: Option<usize>)
        ensures
            match r {
                Some(i) => i < self.ice_queues@.len() && self.ice_queues@[i as int].0@ == id@,
                None => forall|i: int| 0 <= i < self.ice_queues@.len() ==> self.ice_queues@[i].0@ != id@,
            },
    {
        let mut i: usize = 0;
        while i < self.ice_queues.len()
            invariant
                i <= self.ice_queues@.len(),
                forall|j: int| 0 <= j < i ==> self.ice_queues@[j].0@ != id@,
            decreases self.ice_queues@.len() - i,
        {
            if same_text(self.ice_queues[i].0.as_str(), id) {
                return Some(i);
            }
            i = i + 1;
        }
        None
    }

    /// Queues an ICE candidate for a session: when its queue holds 20, the
    /// oldest is dropped first. Other sessions' queues are unchanged.
    pub fn queue_ice_candidate(&mut self, id: &str, candidate: String)
        requires
            old(self).wf(),
        ensures
            final(self).wf(),
            queued(final(self).ice_queues@, id@) == pushed(queued(old(self).ice_queues@, id@), candidate@),
            forall|other: Seq<char>| other != id@ ==> queued(final(self).ice_queues@, other) == queued(
                old(self).ice_queues@,
                other,
            ),
            final(self).sessions == old(self).sessions,
            final(self).current == old(self).current,
    {
        let ghost q0 = self.ice_queues@;
        match self.find_queue(id) {
            Some(i) => {
                proof {
                    lemma_queued_at(q0, id@, i as int);
                }
                let (key, mut queue) = self.ice_queues.remove(i);
                let ghost qv = texts(queue@);
                if queue.len() >= MAX_ICE_CANDIDATES {
                    queue.remove(0);
                    assert(texts(queue@) =~= qv.drop_first());
                }
                let ghost mid = texts(queue@);
                queue.push(candidate);
                assert(texts(queue@) =~= mid.push(candidate@));
                self.ice_queues.insert(i, (key, queue));
                proof {
                    let q1 = self.ice_queues@;
                    assert(q1 =~= q0.update(i as int, q1[i as int]));
                    assert(queue_ids(q1) =~= queue_ids(q0));
                    lemma_queued_at(q1, id@, i as int);
                    assert forall|other: Seq<char>| other != id@ implies queued(q1, other) == queued(q0, other) by {
                        if has_queue(q0, other) {
                            let k = queue_index(q0, other);
                            lemma_queued_at(q0, other, k);
                            lemma_queued_at(q1, other, k);
                        } else {
                            assert forall|k: int| 0 <= k < q1.len() implies q1[k].0@ != other by {
                                if k != i {
                                    assert(q1[k] == q0[k]);
                                }
                            }
                        }
                    }
                    assert forall|k: int| 0 <= k < q1.len() implies #[trigger] q1[k].1@.len() <= 20 by {
                        if k != i {
                            assert(q1[k] == q0[k]);
                        }
                    }
                }
            },
            None => {
                proof {
                    lemma_queued_absent(q0, id@);
                }
                let mut queue: Vec<String> = Vec::new();
                queue.push(candidate);
                let ghost cv = candidate@;
                self.ice_queues.push((owned(id), queue));
                proof {
                    let q1 = self.ice_queues@;
                    assert(q1 =~= q0.push(q1[q0.len() as int]));
                    assert(queue_ids(q1) =~= queue_ids(q0).push(id@));
                    lemma_queued_at(q1, id@, q0.len() as int);
                    assert(texts(q1[q0.len() as int].1@) =~= seq![cv]);
                    assert(Seq::<Seq<char>>::empty().push(cv) =~= seq![cv]);
                    assert forall|other: Seq<char>| other != id@ implies queued(q1, other) == queued(q0, other) by {
                        if has_queue(q0, other) {
                            let k = queue_index(q0, other);
                            lemma_queued_at(q0, other, k);
                            lemma_queued_at(q1, other, k);
                        } else {
                            assert forall|k: int| 0 <= k < q1.len() implies q1[k].0@ != other by {
                                if k < q0.len() {
                                    assert(q1[k] == q0[k]);
                                }
                            }
                        }
                    }
                    assert forall|k: int| 0 <= k < q1.len() implies #[trigger] q1[k].1@.len() <= 20 by {
                        if k < q0.len() {
                            assert(q1[k] == q0[k]);
                        }
                    }
                }
            },
        }
    }

    /// Hands out and forgets the ICE candidates queued for a session (none
    /// when it has none). Other sessions' queues are unchanged.
    pub fn get_ice_candidates(&mut self, id: &str) -> (r: Vec<String>)
        requires
            old(self).wf(),
        ensures
            final(self).wf(),
            texts(r@) == queued(old(self).ice_queues@, id@),
            queued(final(self).ice_queues@, id@) == Seq::<Seq<char>>::empty(),
            forall|other: Seq<char>| other != id@ ==> queued(final(self).ice_queues@, other) == queued(
                old(self).ice_queues@,
                other,
            ),
            final(self).sessions == old(self).sessions,
            final(self).current == old(self).current,
    {
        let ghost q0 = self.ice_queues@;
        match self.find_queue(id) {
            Some(i) => {
                proof {
                    lemma_queued_at(q0, id@, i as int);
                }
                let (_key, queue) = self.ice_queues.remove(i);
                proof {
                    let q1 = self.ice_queues@;
                    assert(q1 =~= q0.remove(i as int));
                    assert(queue_ids(q1) =~= queue_ids(q0).remove(i as int));
                    assert forall|k: int| 0 <= k < q1.len() implies q1[k].0@ != id@ by {
                        if k < i {
                            assert(queue_ids(q0)[k] != queue_ids(q0)[i as int]);
                        } else {
                            assert(queue_ids(q0)[k + 1] != queue_ids(q0)[i as int]);
                        }
                    }
                    lemma_queued_absent(q1, id@);
                    assert forall|a: int, b: int| 0 <= a < b < q1.len() implies queue_ids(q1)[a] != queue_ids(q1)[b] by {
                        if b < i {
                        } else if a < i {
                            assert(queue_ids(q1)[b] == queue_ids(q0)[b + 1]);
                        } else {
                            assert(queue_ids(q1)[a] == queue_ids(q0)[a + 1]);
                            assert(queue_ids(q1)[b] == queue_ids(q0)[b + 1]);
                        }
                    }
                    assert forall|other: Seq<char>| other != id@ implies queued(q1, other) == queued(q0, other) by {
                        if has_queue(q0, other) {
                            let k = queue_index(q0, other);
                            assert(k != i);
                            lemma_queued_at(q0, other, k);
                            if k < i {
                                lemma_queued_at(q1, other, k);
                            } else {
                                lemma_queued_at(q1, other, k - 1);
                            }
                        } else {
                            assert forall|k: int| 0 <= k < q1.len() implies q1[k].0@ != other by {
                                if k < i {
                                    assert(q1[k] == q0[k]);
                                } else {
                                    assert(q1[k] == q0[k + 1]);
                                }
                            }
                        }
                    }
                    assert forall|k: int| 0 <= k < q1.len() implies #[trigger] q1[k].1@.len() <= 20 by {
                        if k < i {
                            assert(q1[k] == q0[k]);
                        } else {
                            assert(q1[k] == q0[k + 1]);
                        }
                    }
                }
                queue
            },
            None => {
                proof {
                    lemma_queued_absent(q0, id@);
                }
                let v: Vec<String> = Vec::new();
                assert(texts(v@) =~= Seq::<Seq<char>>::empty());
                v
            },
        }
    }
}

/// A queue never holds more than 20 candidates, and a new candidate is
/// always the last one held.
pub proof fn lemma_queue_bounded(queue: Seq<Seq<char>>, c: Seq<char>)
    requires
        queue.len() <= 20,
    ensures
        pushed(queue, c).len() <= 20,
        pushed(queue, c).last() == c,
{
}

} // verus!

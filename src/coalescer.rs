use vstd::prelude::*;

use crate::uid::{Uid, UidKey};

verus! {

/// What a caller of `TaskQueue::enter` does.
#[derive(PartialEq, Eq, Structural, Clone, Copy, Debug)]
pub enum Admission {
    /// Run the work: a permit was taken and the key is now in flight.
    Start,
    /// Work for the key is in flight: wait for its result.
    Join,
    /// Every permit is taken: wait until one is given back, then ask again.
    Wait,
}

/// The state of a queue: how many pieces of work may run at once, and the
/// keys whose work is in flight.
pub struct QueueState {
    pub capacity: nat,
    pub running: Set<UidKey>,
}

/// One request made of a queue.
pub enum QueueOp {
    Enter(UidKey),
    Finish(UidKey),
}

/// What asking to run work for `k` gives.
pub open spec fn enter_spec(s: QueueState, k: UidKey) -> (QueueState, Admission) {
    if s.running.contains(k) {
        (s, Admission::Join)
    } else if s.running.len() < s.capacity {
        (QueueState { running: s.running.insert(k), ..s }, Admission::Start)
    } else {
        (s, Admission::Wait)
    }
}

/// The state after the work for `k` ended, whether it succeeded or not.
pub open spec fn finish_spec(s: QueueState, k: UidKey) -> QueueState {
    QueueState { running: s.running.remove(k), ..s }
}

pub open spec fn step_spec(s: QueueState, op: QueueOp) -> QueueState {
    match op {
        QueueOp::Enter(k) => enter_spec(s, k).0,
        QueueOp::Finish(k) => finish_spec(s, k),
    }
}

/// The state after a sequence of requests.
pub open spec fn run_ops(s: QueueState, ops: Seq<QueueOp>) -> QueueState
    decreases ops.len(),
{
    if ops.len() == 0 {
        s
    } else {
        step_spec(run_ops(s, ops.drop_last()), ops.last())
    }
}

/// The state after `n` requests for the same key, and how many of them started work.
pub open spec fn enter_repeatedly(s: QueueState, k: UidKey, n: nat) -> (QueueState, nat)
    decreases n,
{
    if n == 0 {
        (s, 0)
    } else {
        let (s1, started) = enter_repeatedly(s, k, (n - 1) as nat);
        let (s2, a) = enter_spec(s1, k);
        (s2, if a == Admission::Start { started + 1 } else { started })
    }
}

pub open spec fn state_ok(s: QueueState) -> bool {
    s.running.finite() && s.running.len() <= s.capacity
}

/// Keys whose expensive work is in flight: at most one piece of work runs
/// per key, and at most `capacity` run in all.
pub struct TaskQueue {
    capacity: usize,
    in_flight: Vec<Uid>,
}

pub open spec fn key_set(v: Seq<Uid>) -> Set<UidKey> {
    Set::new(|k: UidKey| exists|i: int| 0 <= i < v.len() && (#[trigger] v[i])@ == k)
}

proof fn lemma_key_set_push(v: Seq<Uid>, u: Uid)
    requires
        !key_set(v).contains(u@),
        v.len() == key_set(v).len(),
        key_set(v).finite(),
    ensures
        key_set(v.push(u)) == key_set(v).insert(u@),
        key_set(v.push(u)).len() == v.len() + 1,
        key_set(v.push(u)).finite(),
{
    let w = v.push(u);
    assert forall|k: UidKey| key_set(w).contains(k) <==> key_set(v).insert(u@).contains(k) by {
        if key_set(w).contains(k) {
            let i = choose|i: int| 0 <= i < w.len() && (#[trigger] w[i])@ == k;
            if i < v.len() {
                assert(v[i]@ == k);
            }
        }
        if key_set(v).contains(k) {
            let i = choose|i: int| 0 <= i < v.len() && (#[trigger] v[i])@ == k;
            assert(w[i]@ == k);
        }
        if k == u@ {
            assert(w[v.len() as int]@ == k);
        }
    }
    assert(key_set(w) =~= key_set(v).insert(u@));
}

proof fn lemma_key_set_remove(v: Seq<Uid>, i: int)
    requires
        0 <= i < v.len(),
        v.len() == key_set(v).len(),
        key_set(v).finite(),
    ensures
        key_set(v.remove(i)) == key_set(v).remove(v[i]@),
        key_set(v.remove(i)).len() == v.len() - 1,
        key_set(v.remove(i)).finite(),
{
    let w = v.remove(i);
    lemma_unique_keys(v);
    assert forall|k: UidKey| key_set(w).contains(k) <==> key_set(v).remove(v[i]@).contains(k) by {
        if key_set(w).contains(k) {
            let j = choose|j: int| 0 <= j < w.len() && (#[trigger] w[j])@ == k;
            if j < i {
                assert(v[j]@ == k);
            } else {
                assert(v[j + 1]@ == k);
            }
        }
        if key_set(v).remove(v[i]@).contains(k) {
            let j = choose|j: int| 0 <= j < v.len() && (#[trigger] v[j])@ == k;
            if j < i {
                assert(w[j]@ == k);
            } else {
                assert(w[j - 1]@ == k);
            }
        }
    }
    assert(key_set(w) =~= key_set(v).remove(v[i]@));
}

/// A list whose key set has as many members as the list has items holds each key once.
proof fn lemma_unique_keys(v: Seq<Uid>)
    requires
        v.len() == key_set(v).len(),
        key_set(v).finite(),
    ensures
        forall|a: int, b: int| 0 <= a < v.len() && 0 <= b < v.len() && a != b ==> v[a]@ != v[b]@,
    decreases v.len(),
{
    if v.len() > 0 {
        let u = v.drop_last();
        let last = v.last();
        assert forall|k: UidKey| key_set(v).contains(k) <==> key_set(u).insert(last@).contains(k) by {
            if key_set(v).contains(k) {
                let i = choose|i: int| 0 <= i < v.len() && (#[trigger] v[i])@ == k;
                if i < u.len() {
                    assert(u[i]@ == k);
                }
            }
            if key_set(u).contains(k) {
                let i = choose|i: int| 0 <= i < u.len() && (#[trigger] u[i])@ == k;
                assert(v[i]@ == k);
            }
            if k == last@ {
                assert(v[v.len() - 1]@ == k);
            }
        }
        assert(key_set(v) =~= key_set(u).insert(last@));
        lemma_key_set_finite(u);
        lemma_key_set_len_bound(u);
        if key_set(u).contains(last@) {
            assert(key_set(v) =~= key_set(u));
            assert(false);
        }
        assert(key_set(u).len() == u.len());
        lemma_unique_keys(u);
        assert forall|a: int| 0 <= a < u.len() implies v[a]@ != last@ by {
            assert(u[a]@ == v[a]@);
            assert(key_set(u).contains(u[a]@));
        }
        assert forall|a: int, b: int| 0 <= a < v.len() && 0 <= b < v.len() && a != b implies v[a]@ != v[b]@ by {
            if a < u.len() && b < u.len() {
                assert(u[a]@ == v[a]@);
                assert(u[b]@ == v[b]@);
            }
        }
    }
}

proof fn lemma_key_set_finite(v: Seq<Uid>)
    ensures
        key_set(v).finite(),
    decreases v.len(),
{
    if v.len() == 0 {
        assert(key_set(v) =~= Set::<UidKey>::empty());
    } else {
        let u = v.drop_last();
        lemma_key_set_finite(u);
        assert forall|k: UidKey| key_set(v).contains(k) <==> key_set(u).insert(v.last()@).contains(k) by {
            if key_set(v).contains(k) {
                let i = choose|i: int| 0 <= i < v.len() && (#[trigger] v[i])@ == k;
                if i < u.len() {
                    assert(u[i]@ == k);
                }
            }
            if key_set(u).contains(k) {
                let i = choose|i: int| 0 <= i < u.len() && (#[trigger] u[i])@ == k;
                assert(v[i]@ == k);
            }
            if k == v.last()@ {
                assert(v[v.len() - 1]@ == k);
            }
        }
        assert(key_set(v) =~= key_set(u).insert(v.last()@));
    }
}

proof fn lemma_key_set_len_bound(v: Seq<Uid>)
    ensures
        key_set(v).len() <= v.len(),
    decreases v.len(),
{
    lemma_key_set_finite(v);
    if v.len() == 0 {
        assert(key_set(v) =~= Set::<UidKey>::empty());
    } else {
        let u = v.drop_last();
        lemma_key_set_finite(u);
        lemma_key_set_len_bound(u);
        assert forall|k: UidKey| key_set(v).contains(k) <==> key_set(u).insert(v.last()@).contains(k) by {
            if key_set(v).contains(k) {
                let i = choose|i: int| 0 <= i < v.len() && (#[trigger] v[i])@ == k;
                if i < u.len() {
                    assert(u[i]@ == k);
                }
            }
            if key_set(u).contains(k) {
                let i = choose|i: int| 0 <= i < u.len() && (#[trigger] u[i])@ == k;
                assert(v[i]@ == k);
            }
            if k == v.last()@ {
                assert(v[v.len() - 1]@ == k);
            }
        }
        assert(key_set(v) =~= key_set(u).insert(v.last()@));
    }
}

impl View for TaskQueue {
    type V = QueueState;

    closed spec fn view(&self) -> QueueState {
        QueueState { capacity: self.capacity as nat, running: key_set(self.in_flight@) }
    }
}

impl TaskQueue {
    /// Whether the queue's own bookkeeping is consistent.
    pub closed spec fn wf(&self) -> bool {
        &&& key_set(self.in_flight@).finite()
        &&& self.in_flight@.len() == key_set(self.in_flight@).len()
        &&& self.in_flight@.len() <= self.capacity
    }

    /// A queue that runs at most `max_concurrent` pieces of work at once.
    pub fn new(max_concurrent: usize) -> (r: TaskQueue)
        ensures
            r.wf(),
            r@.capacity == max_concurrent,
            r@.running == Set::<UidKey>::empty(),
    {
        let r = TaskQueue { capacity: max_concurrent, in_flight: Vec::new() };
        assert(key_set(r.in_flight@) =~= Set::<UidKey>::empty());
        r
    }

    /// How many pieces of work are in flight.
    pub fn running(&self) -> (r: usize)
        requires
            self.wf(),
        ensures
            r == self@.running.len(),
    {
        self.in_flight.len()
    }

    fn index_of(&self, key: &Uid) -> (r: Option<usize>)
        ensures
            match r {
                Some(i) => i < self.in_flight@.len() && self.in_flight@[i as int]@ == key@,
                None => !key_set(self.in_flight@).contains(key@),
            },
    {
        let mut i: usize = 0;
        while i < self.in_flight.len()
            invariant
                0 <= i <= self.in_flight@.len(),
                forall|j: int| 0 <= j < i ==> (#[trigger] self.in_flight@[j])@ != key@,
            decreases self.in_flight@.len() - i,
        {
            if self.in_flight[i].eq(key) {
                return Some(i);
            }
            i = i + 1;
        }
        None
    }

    /// Whether work for `key` is in flight.
    pub fn contains(&self, key: &Uid) -> (r: bool)
        ensures
            r == self@.running.contains(key@),
    {
        self.index_of(key).is_some()
    }

    /// Asks to run work for `key`: joins the work in flight for it, else takes
    /// a permit and starts, else (no permit free) asks the caller to wait.
    pub fn enter(&mut self, key: &Uid) -> (r: Admission)
        requires
            old(self).wf(),
        ensures
            final(self).wf(),
            (final(self)@, r) == enter_spec(old(self)@, key@),
    {
        proof {
            lemma_key_set_finite(self.in_flight@);
        }
        if self.index_of(key).is_some() {
            return Admission::Join;
        }
        if self.in_flight.len() < self.capacity {
            let k = key.clone();
            proof {
                lemma_key_set_push(self.in_flight@, k);
            }
            self.in_flight.push(k);
            return Admission::Start;
        }
        Admission::Wait
    }

    /// Ends the work for `key`, whether it succeeded or failed: the key leaves
    /// the queue and its permit is given back.
    pub fn finish(&mut self, key: &Uid)
        requires
            old(self).wf(),
        ensures
            final(self).wf(),
            final(self)@ == finish_spec(old(self)@, key@),
    {
        match self.index_of(key) {
            Some(i) => {
                proof {
                    lemma_key_set_remove(self.in_flight@, i as int);
                }
                self.in_flight.remove(i);
            },
            None => {
                assert(key_set(self.in_flight@).remove(key@) =~= key_set(self.in_flight@));
            },
        }
    }
}

/// Requests for one key that arrive while its work is in flight all join that
/// work: of `n` requests for a key with no work in flight and a free permit,
/// exactly one starts work, and the key stays in flight.
pub proof fn lemma_coalescing(s: QueueState, k: UidKey, n: nat)
    requires
        state_ok(s),
        !s.running.contains(k),
        s.running.len() < s.capacity,
        n >= 1,
    ensures
        enter_repeatedly(s, k, n).1 == 1,
        enter_repeatedly(s, k, n).0.running == s.running.insert(k),
    decreases n,
{
    if n == 1 {
        assert(enter_repeatedly(s, k, 0) == (s, 0nat));
        assert(enter_spec(s, k).1 == Admission::Start);
    } else {
        lemma_coalescing(s, k, (n - 1) as nat);
        let prev = enter_repeatedly(s, k, (n - 1) as nat);
        assert(prev.0.running.contains(k));
        assert(enter_spec(prev.0, k).1 == Admission::Join);
    }
}

/// Every state reached from a consistent one keeps at most `capacity`
/// pieces of work in flight.
pub proof fn lemma_permit_bound(s: QueueState, ops: Seq<QueueOp>)
    requires
        state_ok(s),
    ensures
        state_ok(run_ops(s, ops)),
        run_ops(s, ops).capacity == s.capacity,
    decreases ops.len(),
{
    if ops.len() > 0 {
        lemma_permit_bound(s, ops.drop_last());
        let t = run_ops(s, ops.drop_last());
        match ops.last() {
            QueueOp::Enter(k) => {
                if !t.running.contains(k) && t.running.len() < t.capacity {
                    assert(t.running.insert(k).len() == t.running.len() + 1);
                }
            },
            QueueOp::Finish(k) => {
                if t.running.contains(k) {
                    assert(t.running.remove(k).len() == t.running.len() - 1);
                } else {
                    assert(t.running.remove(k) =~= t.running);
                }
            },
        }
    }
}

} // verus!

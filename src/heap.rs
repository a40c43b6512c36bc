use vstd::prelude::*;
use vstd::multiset::Multiset;
use crate::queue::TaskPriority;

verus! {

/// A task admitted into the priority structure: its priority and the
/// admission sequence number that orders tasks of equal priority.
#[derive(Debug)]
pub struct QueuedTask<T> {
    pub item: T,
    pub priority: TaskPriority,
    pub seq: u64,
}

/// Retrieval order: higher priority first; within a priority, earlier
/// admission first.
pub open spec fn goes_before<T>(a: QueuedTask<T>, b: QueuedTask<T>) -> bool {
    ||| a.priority.rank() > b.priority.rank()
    ||| (a.priority.rank() == b.priority.rank() && a.seq < b.seq)
}

/// `a` may be retrieved no later than `b`: it goes before it, or their keys
/// are equal.
pub open spec fn goes_no_later<T>(a: QueuedTask<T>, b: QueuedTask<T>) -> bool {
    goes_before(a, b) || (a.priority == b.priority && a.seq == b.seq)
}

/// Whether `a` goes before `b` in retrieval order.
pub fn precedes<T>(a: &QueuedTask<T>, b: &QueuedTask<T>) -> (r: bool)
    ensures
        r == goes_before(*a, *b),
{
    if a.priority.is_above(&b.priority) {
        true
    } else if b.priority.is_above(&a.priority) {
        false
    } else {
        a.seq < b.seq
    }
}

/// A sequence is in retrieval order.
pub open spec fn in_retrieval_order<T>(s: Seq<QueuedTask<T>>) -> bool {
    forall|i: int, j: int| 0 <= i < j < s.len() ==> goes_no_later(#[trigger] s[i], #[trigger] s[j])
}

/// `e` goes no later than every entry of `s`.
pub open spec fn first_of<T>(e: QueuedTask<T>, s: Seq<QueuedTask<T>>) -> bool {
    forall|j: int| 0 <= j < s.len() ==> goes_no_later(e, #[trigger] s[j])
}

/// `out` is what successive pops take from `q`, with no admission in
/// between: each taken entry goes first among those still held.
pub open spec fn successive_pops<T>(q: Seq<QueuedTask<T>>, out: Seq<QueuedTask<T>>) -> bool
    decreases out.len(),
{
    if out.len() == 0 {
        true
    } else {
        exists|i: int|
            0 <= i < q.len() && q[i] == out[0] && first_of(out[0], q) && successive_pops(
                q.remove(i),
                out.drop_first(),
            )
    }
}

proof fn lemma_popped_were_held<T>(q: Seq<QueuedTask<T>>, out: Seq<QueuedTask<T>>)
    requires
        successive_pops(q, out),
    ensures
        forall|k: int| 0 <= k < out.len() ==> q.contains(#[trigger] out[k]),
    decreases out.len(),
{
    if out.len() > 0 {
        let i = choose|i: int|
            0 <= i < q.len() && q[i] == out[0] && first_of(out[0], q) && successive_pops(
                q.remove(i),
                out.drop_first(),
            );
        lemma_popped_were_held(q.remove(i), out.drop_first());
        assert forall|k: int| 0 <= k < out.len() implies q.contains(#[trigger] out[k]) by {
            if k == 0 {
                assert(q[i] == out[0]);
            } else {
                assert(out[k] == out.drop_first()[k - 1]);
                let r = q.remove(i);
                let j = choose|j: int| 0 <= j < r.len() && r[j] == out[k];
                if j < i {
                    assert(q[j] == out[k]);
                } else {
                    assert(q[j + 1] == out[k]);
                }
            }
        }
    }
}

/// Tasks admitted before any of them is taken are executed in retrieval
/// order: non-increasing priority, and admission order within a priority.
pub proof fn lemma_successive_pops_in_order<T>(q: Seq<QueuedTask<T>>, out: Seq<QueuedTask<T>>)
    requires
        successive_pops(q, out),
    ensures
        in_retrieval_order(out),
    decreases out.len(),
{
    if out.len() > 0 {
        let i = choose|i: int|
            0 <= i < q.len() && q[i] == out[0] && first_of(out[0], q) && successive_pops(
                q.remove(i),
                out.drop_first(),
            );
        lemma_successive_pops_in_order(q.remove(i), out.drop_first());
        lemma_popped_were_held(q.remove(i), out.drop_first());
        assert forall|a: int, b: int| 0 <= a < b < out.len() implies goes_no_later(
            #[trigger] out[a],
            #[trigger] out[b],
        ) by {
            let rest = out.drop_first();
            assert(out[b] == rest[b - 1]);
            if a == 0 {
                let r = q.remove(i);
                assert(r.contains(rest[b - 1]));
                let j = choose|j: int| 0 <= j < r.len() && r[j] == rest[b - 1];
                if j < i {
                    assert(q[j] == out[b]);
                } else {
                    assert(q[j + 1] == out[b]);
                }
            } else {
                assert(out[a] == rest[a - 1]);
            }
        }
    }
}

/// In-memory max-priority structure over admitted tasks. It is unbounded;
/// retrieval is by priority descending, then admission sequence ascending.
pub struct TaskHeap<T> {
    entries: Vec<QueuedTask<T>>,
}

impl<T> View for TaskHeap<T> {
    type V = Seq<QueuedTask<T>>;

    closed spec fn view(&self) -> Seq<QueuedTask<T>> {
        self.entries@
    }
}

impl<T> TaskHeap<T> {
    /// An empty structure.
    pub fn new() -> (r: Self)
        ensures
            r@ == Seq::<QueuedTask<T>>::empty(),
    {
        TaskHeap { entries: Vec::new() }
    }

    /// Number of tasks held.
    pub fn len(&self) -> (r: usize)
        ensures
            r == self@.len(),
    {
        self.entries.len()
    }

    /// Whether no task is held.
    pub fn is_empty(&self) -> (r: bool)
        ensures
            r == (self@.len() == 0),
    {
        self.entries.len() == 0
    }

    /// Admits a task.
    pub fn push(&mut self, task: QueuedTask<T>)
        ensures
            final(self)@ == old(self)@.push(task),
    {
        self.entries.push(task);
    }

    /// Index of the entry that goes first.
    fn index_of_first(&self) -> (r: usize)
        requires
            self@.len() > 0,
        ensures
            r < self@.len(),
            first_of(self@[r as int], self@),
    {
        let mut best: usize = 0;
        let mut i: usize = 1;
        while i < self.entries.len()
            invariant
                best < i <= self@.len(),
                forall|j: int| 0 <= j < i ==> goes_no_later(self@[best as int], #[trigger] self@[j]),
            decreases self@.len() - i,
        {
            if precedes(&self.entries[i], &self.entries[best]) {
                best = i;
            }
            i = i + 1;
        }
        best
    }

    /// Removes and returns the task that goes first: no remaining task has a
    /// higher priority, nor the same priority and an earlier admission.
    pub fn pop(&mut self) -> (r: Option<QueuedTask<T>>)
        ensures
            old(self)@.len() == 0 ==> r.is_none() && final(self)@ == old(self)@,
            old(self)@.len() > 0 ==> r.is_some() && exists|i: int|
                0 <= i < old(self)@.len() && old(self)@[i] == r.unwrap()
                    && final(self)@ == old(self)@.remove(i),
            r.is_some() ==> first_of(r.unwrap(), old(self)@),
            r.is_some() ==> first_of(r.unwrap(), final(self)@),
            final(self)@.to_multiset() == if r.is_some() {
                old(self)@.to_multiset().remove(r.unwrap())
            } else {
                old(self)@.to_multiset()
            },
    {
        if self.entries.len() == 0 {
            return None;
        }
        let i = self.index_of_first();
        let ghost before = self@;
        let e = self.entries.remove(i);
        proof {
            broadcast use vstd::seq_lib::to_multiset_remove;
            assert forall|j: int| 0 <= j < self@.len() implies goes_no_later(e, #[trigger] self@[j]) by {
                if j < i {
                    assert(self@[j] == before[j]);
                } else {
                    assert(self@[j] == before[j + 1]);
                }
            }
            assert(before[i as int] == e);
            assert(before.to_multiset().remove(e) == self@.to_multiset()) by {
                vstd::seq_lib::to_multiset_remove(before, i as int);
            }
        }
        Some(e)
    }

    /// Removes every task and returns them in retrieval order.
    pub fn drain_ordered(&mut self) -> (r: Vec<QueuedTask<T>>)
        ensures
            final(self)@.len() == 0,
            in_retrieval_order(r@),
            r@.to_multiset() == old(self)@.to_multiset(),
    {
        broadcast use vstd::seq_lib::group_to_multiset_ensures;
        broadcast use vstd::multiset::group_multiset_axioms;

        let mut out: Vec<QueuedTask<T>> = Vec::new();
        let ghost start = self@;
        proof {
            assert(out@.to_multiset() =~= Multiset::empty());
            assert(out@.to_multiset().add(self@.to_multiset()) =~= start.to_multiset());
        }
        while self.entries.len() > 0
            invariant
                in_retrieval_order(out@),
                out@.to_multiset().add(self@.to_multiset()) == start.to_multiset(),
                forall|k: int, j: int|
                    0 <= k < out@.len() && 0 <= j < self@.len() ==> goes_no_later(
                        #[trigger] out@[k],
                        #[trigger] self@[j],
                    ),
            decreases self@.len(),
        {
            let ghost rest = self@;
            let e = match self.pop() {
                Some(e) => e,
                None => { return out; },
            };
            proof {
                assert forall|k: int, j: int|
                    0 <= k < out@.len() && 0 <= j < self@.len() implies goes_no_later(
                        #[trigger] out@[k],
                        #[trigger] self@[j],
                    ) by {
                    let w = choose|i: int| 0 <= i < rest.len() && rest[i] == e && self@ == rest.remove(i);
                    if j < w {
                        assert(self@[j] == rest[j]);
                    } else {
                        assert(self@[j] == rest[j + 1]);
                    }
                }
                let w = choose|i: int| 0 <= i < rest.len() && rest[i] == e && self@ == rest.remove(i);
                assert(rest[w] == e);
                assert forall|k: int| 0 <= k < out@.len() implies goes_no_later(#[trigger] out@[k], e) by {
                    assert(rest[w] == e);
                }
                assert(rest.contains(e));
                rest.to_multiset_ensures();
                assert(rest.to_multiset().count(e) > 0);
                assert(rest.to_multiset() =~= self@.to_multiset().insert(e));
            }
            let ghost prev = out@;
            out.push(e);
            proof {
                assert(out@ == prev.push(e));
                prev.to_multiset_ensures();
                assert(out@.to_multiset() =~= prev.to_multiset().insert(e));
                assert(out@.to_multiset().add(self@.to_multiset()) =~= prev.to_multiset().add(rest.to_multiset()));
                assert forall|i: int, j: int| 0 <= i < j < out@.len() implies goes_no_later(#[trigger] out@[i], #[trigger] out@[j]) by {
                    if j < prev.len() {
                        assert(out@[i] == prev[i] && out@[j] == prev[j]);
                    } else {
                        assert(out@[i] == prev[i] && out@[j] == e);
                    }
                }
            }
        }
        proof {
            assert(self@ =~= Seq::<QueuedTask<T>>::empty());
            assert(self@.to_multiset() =~= Multiset::empty());
            assert(out@.to_multiset().add(Multiset::empty()) =~= out@.to_multiset());
        }
        out
    }
}

} // verus!

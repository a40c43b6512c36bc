use vstd::prelude::*;
use crate::heap::{
    QueuedTask, TaskHeap, first_of, in_retrieval_order, lemma_successive_pops_in_order,
    successive_pops,
};
use crate::queue::{TaskPriority, TaskStatus, statuses_advance};

verus! {

/// Where the worker's main loop stands.
#[derive(Debug, Clone, Copy, PartialEq, Eq, Structural)]
pub enum WorkerPhase {
    /// Nothing queued and nothing running: block on the inbox.
    Idle,
    /// Tasks queued, nothing running: admit what arrives before the next pop.
    Selecting,
    /// One task is executing.
    Executing,
    /// Shut down; nothing more is admitted or run.
    Stopped,
}

/// What happened since the worker's last step.
#[derive(Debug)]
pub enum WorkerEvent<T> {
    /// A task arrived in the inbox.
    TaskArrived { item: T, priority: TaskPriority },
    /// The shutdown sentinel arrived.
    ShutdownSignal,
    /// Every sender of the inbox is gone.
    InboxClosed,
    /// The bounded wait on the inbox ended with nothing received.
    WaitElapsed,
    /// The executing task finished, with its error rendered to text.
    ExecutionFinished(Result<(), String>),
}

/// What the worker's driver must do next.
#[derive(Debug)]
pub enum WorkerAction<T> {
    /// Block on the inbox until a message comes.
    AwaitTask,
    /// Receive from the inbox with a short bounded wait.
    PollInbox,
    /// Record the Running status for the popped task and start it.
    Execute(QueuedTask<T>),
    /// Persist this terminal status for the task that just ran.
    Record { seq: u64, status: TaskStatus },
    /// Wait for the executing task's outcome.
    AwaitOutcome,
    /// Leave the loop; queued tasks are abandoned.
    Stop,
}

/// The worker's decision state: the priority structure, the task being
/// executed, and the status of every task ever admitted.
pub struct Worker<T> {
    heap: TaskHeap<T>,
    phase: WorkerPhase,
    next_seq: u64,
    running: Option<u64>,
    completed: u64,
    failed: u64,
    statuses: Ghost<Map<u64, TaskStatus>>,
}

impl<T> Worker<T> {
    /// Tasks admitted and not yet taken for execution.
    pub closed spec fn queued(&self) -> Seq<QueuedTask<T>> {
        self.heap@
    }

    pub closed spec fn phase_spec(&self) -> WorkerPhase {
        self.phase
    }

    /// Number of tasks admitted so far; also the sequence number of the next.
    pub closed spec fn admitted_spec(&self) -> nat {
        self.next_seq as nat
    }

    /// Sequence number of the executing task, if any.
    pub closed spec fn running_spec(&self) -> Option<u64> {
        self.running
    }

    /// Status of every admitted task, by sequence number.
    pub closed spec fn statuses(&self) -> Map<u64, TaskStatus> {
        self.statuses@
    }

    pub closed spec fn completed_spec(&self) -> nat {
        self.completed as nat
    }

    pub closed spec fn failed_spec(&self) -> nat {
        self.failed as nat
    }

    /// Internal consistency of the worker's state.
    pub closed spec fn wf(&self) -> bool {
        &&& forall|s: u64| #[trigger] self.statuses@.contains_key(s) <==> s < self.next_seq
        &&& forall|i: int|
            0 <= i < self.heap@.len() ==> (#[trigger] self.heap@[i]).seq < self.next_seq
                && self.statuses@[self.heap@[i].seq] == TaskStatus::Pending
        &&& forall|i: int, j: int|
            0 <= i < j < self.heap@.len() ==> (#[trigger] self.heap@[i]).seq != (
            #[trigger] self.heap@[j]).seq
        &&& (self.running matches Some(s) ==> s < self.next_seq && self.statuses@[s]
            == TaskStatus::Running)
        &&& (self.phase == WorkerPhase::Idle ==> self.heap@.len() == 0 && self.running.is_none())
        &&& (self.phase == WorkerPhase::Selecting ==> self.heap@.len() > 0
            && self.running.is_none())
        &&& (self.phase == WorkerPhase::Executing <==> self.running.is_some())
        &&& self.completed + self.failed + self.heap@.len() + (if self.running.is_some() {
            1int
        } else {
            0int
        }) == self.next_seq
    }

    /// The phase a worker returns to once nothing is running.
    pub open spec fn resting_phase(queued_len: nat) -> WorkerPhase {
        if queued_len == 0 {
            WorkerPhase::Idle
        } else {
            WorkerPhase::Selecting
        }
    }

    /// The action that a phase waits on.
    pub open spec fn waiting_action(phase: WorkerPhase) -> WorkerAction<T> {
        match phase {
            WorkerPhase::Idle => WorkerAction::AwaitTask,
            WorkerPhase::Selecting => WorkerAction::PollInbox,
            WorkerPhase::Executing => WorkerAction::AwaitOutcome,
            WorkerPhase::Stopped => WorkerAction::Stop,
        }
    }

    /// The step taken when the bounded wait on the inbox elapsed. With tasks
    /// queued and none running, the task that goes first is taken out,
    /// recorded as Running and handed out for execution; in any other phase
    /// nothing changes.
    pub open spec fn wait_post(before: Self, after: Self, act: WorkerAction<T>) -> bool {
        if before.phase_spec() == WorkerPhase::Selecting {
            &&& act matches WorkerAction::Execute(e)
            &&& first_of(e, before.queued())
            &&& exists|i: int|
                0 <= i < before.queued().len() && before.queued()[i] == e && after.queued()
                    == before.queued().remove(i)
            &&& after.phase_spec() == WorkerPhase::Executing
            &&& after.running_spec() == Some(e.seq)
            &&& after.statuses() == before.statuses().insert(e.seq, TaskStatus::Running)
            &&& after.admitted_spec() == before.admitted_spec()
            &&& after.completed_spec() == before.completed_spec()
            &&& after.failed_spec() == before.failed_spec()
        } else {
            after == before && act == Self::waiting_action(before.phase_spec())
        }
    }

    /// The step taken on an execution outcome. While a task executes, the
    /// outcome is recorded as its terminal status, the counters move, and
    /// the worker rests with its queue unchanged; in any other phase the
    /// outcome is ignored.
    pub open spec fn finish_post(
        before: Self,
        outcome: Result<(), String>,
        after: Self,
        act: WorkerAction<T>,
    ) -> bool {
        if before.phase_spec() == WorkerPhase::Executing {
            let s = before.running_spec().unwrap();
            let status = TaskStatus::from_outcome_spec(outcome);
            &&& act == WorkerAction::<T>::Record { seq: s, status }
            &&& after.statuses() == before.statuses().insert(s, status)
            &&& after.queued() == before.queued()
            &&& after.running_spec().is_none()
            &&& after.phase_spec() == Self::resting_phase(before.queued().len())
            &&& after.admitted_spec() == before.admitted_spec()
            &&& after.completed_spec() == before.completed_spec() + (if outcome.is_ok() {
                1int
            } else {
                0int
            })
            &&& after.failed_spec() == before.failed_spec() + (if outcome.is_ok() {
                0int
            } else {
                1int
            })
        } else {
            after == before && act == Self::waiting_action(before.phase_spec())
        }
    }

    /// A fresh, idle worker.
    pub fn new() -> (r: Self)
        ensures
            r.wf(),
            r.phase_spec() == WorkerPhase::Idle,
            r.queued().len() == 0,
            r.admitted_spec() == 0,
            r.running_spec().is_none(),
            r.statuses() == Map::<u64, TaskStatus>::empty(),
            r.completed_spec() == 0,
            r.failed_spec() == 0,
    {
        Worker {
            heap: TaskHeap::new(),
            phase: WorkerPhase::Idle,
            next_seq: 0,
            running: None,
            completed: 0,
            failed: 0,
            statuses: Ghost(Map::empty()),
        }
    }

    /// The current phase.
    pub fn phase(&self) -> (r: WorkerPhase)
        ensures
            r == self.phase_spec(),
    {
        self.phase
    }

    /// Number of tasks admitted so far.
    pub fn admitted(&self) -> (r: u64)
        ensures
            r as nat == self.admitted_spec(),
    {
        self.next_seq
    }

    /// Number of tasks waiting in the priority structure.
    pub fn queued_len(&self) -> (r: usize)
        ensures
            r == self.queued().len(),
    {
        self.heap.len()
    }

    /// Number of tasks that completed successfully.
    pub fn completed(&self) -> (r: u64)
        ensures
            r as nat == self.completed_spec(),
    {
        self.completed
    }

    /// Number of tasks whose execution failed.
    pub fn failed(&self) -> (r: u64)
        ensures
            r as nat == self.failed_spec(),
    {
        self.failed
    }

    /// What the driver should wait on in the current phase.
    pub fn next_wait(&self) -> (r: WorkerAction<T>)
        ensures
            r == Self::waiting_action(self.phase_spec()),
    {
        match self.phase {
            WorkerPhase::Idle => WorkerAction::AwaitTask,
            WorkerPhase::Selecting => WorkerAction::PollInbox,
            WorkerPhase::Executing => WorkerAction::AwaitOutcome,
            WorkerPhase::Stopped => WorkerAction::Stop,
        }
    }

    /// Takes one step of the scheduling loop: given what happened, updates
    /// the state and says what to do next.
    ///
    /// Arrivals are admitted in every live phase; a pop happens only when a
    /// bounded wait on the inbox elapsed with nothing received, so work that
    /// arrives while tasks are queued is ordered before the next pop. A
    /// finished execution is recorded as Completed or Failed and the loop
    /// goes on the same way whatever the outcome.
    pub fn step(&mut self, event: WorkerEvent<T>) -> (act: WorkerAction<T>)
        requires
            old(self).wf(),
            old(self).admitted_spec() < u64::MAX,
        ensures
            final(self).wf(),
            statuses_advance(old(self).statuses(), final(self).statuses()),
            old(self).phase_spec() == WorkerPhase::Stopped ==> act == WorkerAction::<T>::Stop
                && *final(self) == *old(self),
            old(self).phase_spec() != WorkerPhase::Stopped ==> (match event {
                WorkerEvent::TaskArrived { item, priority } => {
                    &&& final(self).queued() == old(self).queued().push(
                        (QueuedTask { item, priority, seq: old(self).admitted_spec() as u64 }),
                    )
                    &&& final(self).admitted_spec() == old(self).admitted_spec() + 1
                    &&& final(self).statuses() == old(self).statuses().insert(
                        old(self).admitted_spec() as u64,
                        TaskStatus::Pending,
                    )
                    &&& final(self).running_spec() == old(self).running_spec()
                    &&& if old(self).phase_spec() == WorkerPhase::Executing {
                        final(self).phase_spec() == WorkerPhase::Executing
                            && act == WorkerAction::<T>::AwaitOutcome
                    } else {
                        final(self).phase_spec() == WorkerPhase::Selecting
                            && act == WorkerAction::<T>::PollInbox
                    }
                },
                WorkerEvent::ShutdownSignal | WorkerEvent::InboxClosed => {
                    if old(self).phase_spec() == WorkerPhase::Executing {
                        *final(self) == *old(self) && act == WorkerAction::<T>::AwaitOutcome
                    } else {
                        &&& final(self).phase_spec() == WorkerPhase::Stopped
                        &&& act == WorkerAction::<T>::Stop
                        &&& final(self).queued() == old(self).queued()
                        &&& final(self).statuses() == old(self).statuses()
                        &&& final(self).admitted_spec() == old(self).admitted_spec()
                        &&& final(self).running_spec() == old(self).running_spec()
                        &&& final(self).completed_spec() == old(self).completed_spec()
                        &&& final(self).failed_spec() == old(self).failed_spec()
                    }
                },
                WorkerEvent::WaitElapsed => Self::wait_post(*old(self), *final(self), act),
                WorkerEvent::ExecutionFinished(outcome) => Self::finish_post(
                    *old(self),
                    outcome,
                    *final(self),
                    act,
                ),
            }),
    {
        if self.phase == WorkerPhase::Stopped {
            return WorkerAction::Stop;
        }
        match event {
            WorkerEvent::TaskArrived { item, priority } => {
                let seq = self.next_seq;
                let ghost old_heap = self.heap@;
                self.heap.push(QueuedTask { item, priority, seq });
                self.next_seq = seq + 1;
                self.statuses = Ghost(self.statuses@.insert(seq, TaskStatus::Pending));
                proof {
                    assert forall|i: int| 0 <= i < self.heap@.len() implies (
                    #[trigger] self.heap@[i]).seq < self.next_seq && self.statuses@[self.heap@[i].seq]
                        == TaskStatus::Pending by {
                        if i < old_heap.len() {
                            assert(self.heap@[i] == old_heap[i]);
                        }
                    }
                    assert forall|i: int, j: int|
                        0 <= i < j < self.heap@.len() implies (#[trigger] self.heap@[i]).seq != (
                        #[trigger] self.heap@[j]).seq by {
                        assert(self.heap@[i] == old_heap[i]);
                        if j < old_heap.len() {
                            assert(self.heap@[j] == old_heap[j]);
                        }
                    }
                }
                if self.phase == WorkerPhase::Executing {
                    WorkerAction::AwaitOutcome
                } else {
                    self.phase = WorkerPhase::Selecting;
                    WorkerAction::PollInbox
                }
            },
            WorkerEvent::ShutdownSignal | WorkerEvent::InboxClosed => {
                if self.phase == WorkerPhase::Executing {
                    WorkerAction::AwaitOutcome
                } else {
                    self.phase = WorkerPhase::Stopped;
                    WorkerAction::Stop
                }
            },
            WorkerEvent::WaitElapsed => {
                let ghost before = *self;
                if self.phase == WorkerPhase::Selecting {
                    let ghost old_heap = self.heap@;
                    match self.heap.pop() {
                        Some(e) => {
                            let ghost w = choose|i: int|
                                0 <= i < old_heap.len() && old_heap[i] == e && self.heap@
                                    == old_heap.remove(i);
                            proof {
                                assert forall|i: int| 0 <= i < self.heap@.len() implies (
                                #[trigger] self.heap@[i]).seq != e.seq by {
                                    if i < w {
                                        assert(self.heap@[i] == old_heap[i]);
                                    } else {
                                        assert(self.heap@[i] == old_heap[i + 1]);
                                    }
                                }
                            }
                            self.statuses = Ghost(self.statuses@.insert(e.seq, TaskStatus::Running));
                            self.running = Some(e.seq);
                            self.phase = WorkerPhase::Executing;
                            proof {
                                assert forall|i: int| 0 <= i < self.heap@.len() implies (
                                #[trigger] self.heap@[i]).seq < self.next_seq
                                    && self.statuses@[self.heap@[i].seq] == TaskStatus::Pending by {
                                    if i < w {
                                        assert(self.heap@[i] == old_heap[i]);
                                    } else {
                                        assert(self.heap@[i] == old_heap[i + 1]);
                                    }
                                }
                                assert forall|i: int, j: int|
                                    0 <= i < j < self.heap@.len() implies (
                                    #[trigger] self.heap@[i]).seq != (#[trigger] self.heap@[j]).seq by {
                                    let ii = if i < w { i } else { i + 1 };
                                    let jj = if j < w { j } else { j + 1 };
                                    assert(self.heap@[i] == old_heap[ii]);
                                    assert(self.heap@[j] == old_heap[jj]);
                                }
                            }
                            let act = WorkerAction::Execute(e);
                            assert(Self::wait_post(before, *self, act));
                            act
                        },
                        None => {
                            WorkerAction::PollInbox
                        },
                    }
                } else {
                    self.next_wait()
                }
            },
            WorkerEvent::ExecutionFinished(outcome) => {
                let ghost before = *self;
                let ghost oc = outcome;
                match self.running {
                    Some(s) => {
                        let ok = outcome.is_ok();
                        let status = TaskStatus::from_outcome(outcome);
                        self.statuses = Ghost(self.statuses@.insert(s, status));
                        self.running = None;
                        if ok {
                            self.completed = self.completed + 1;
                        } else {
                            self.failed = self.failed + 1;
                        }
                        if self.heap.is_empty() {
                            self.phase = WorkerPhase::Idle;
                        } else {
                            self.phase = WorkerPhase::Selecting;
                        }
                        let act = WorkerAction::Record { seq: s, status };
                        assert(Self::finish_post(before, oc, *self, act));
                        act
                    },
                    None => {
                        self.next_wait()
                    },
                }
            },
        }
    }
}

/// A failed execution does not block the queue: after a failure the
/// worker holds the same queued tasks, rests in the same phase and waits on
/// the same thing as after a success; only the recorded status and the
/// counters differ.
pub proof fn lemma_failure_does_not_block<T>(
    before: Worker<T>,
    error: String,
    after_ok: Worker<T>,
    act_ok: WorkerAction<T>,
    after_err: Worker<T>,
    act_err: WorkerAction<T>,
)
    requires
        before.phase_spec() == WorkerPhase::Executing,
        Worker::finish_post(before, Ok(()), after_ok, act_ok),
        Worker::finish_post(before, Err(error), after_err, act_err),
    ensures
        after_err.queued() == after_ok.queued(),
        after_err.queued() == before.queued(),
        after_err.phase_spec() == after_ok.phase_spec(),
        after_err.phase_spec() != WorkerPhase::Stopped,
        Worker::<T>::waiting_action(after_err.phase_spec()) == Worker::<T>::waiting_action(
            after_ok.phase_spec(),
        ),
        after_err.admitted_spec() == after_ok.admitted_spec(),
        act_err == (WorkerAction::<T>::Record {
            seq: before.running_spec().unwrap(),
            status: (TaskStatus::Failed { error }),
        }),
{
}

/// The tasks handed out for execution by a sequence of actions, in order.
pub open spec fn executed<T>(acts: Seq<WorkerAction<T>>) -> Seq<QueuedTask<T>>
    decreases acts.len(),
{
    if acts.len() == 0 {
        Seq::empty()
    } else {
        match acts[0] {
            WorkerAction::Execute(e) => seq![e] + executed(acts.drop_first()),
            _ => executed(acts.drop_first()),
        }
    }
}

/// A step of the worker on which no task arrives and no shutdown comes:
/// a bounded wait elapsed, or an execution finished.
pub open spec fn quiet_step<T>(before: Worker<T>, after: Worker<T>, act: WorkerAction<T>) -> bool {
    Worker::wait_post(before, after, act) || exists|o: Result<(), String>|
        Worker::finish_post(before, o, after, act)
}

/// A run of workers `ws` linked by the actions `acts`, with no arrival.
pub open spec fn quiet_run<T>(ws: Seq<Worker<T>>, acts: Seq<WorkerAction<T>>) -> bool {
    &&& ws.len() == acts.len() + 1
    &&& forall|j: int| 0 <= j < acts.len() ==> quiet_step(#[trigger] ws[j], ws[j + 1], acts[j])
}

proof fn lemma_quiet_run_pops_from<T>(ws: Seq<Worker<T>>, acts: Seq<WorkerAction<T>>, k: int)
    requires
        quiet_run(ws, acts),
        0 <= k <= acts.len(),
    ensures
        successive_pops(ws[k].queued(), executed(acts.subrange(k, acts.len() as int))),
    decreases acts.len() - k,
{
    let n = acts.len() as int;
    if k < n {
        lemma_quiet_run_pops_from(ws, acts, k + 1);
        let sub = acts.subrange(k, n);
        let rest = acts.subrange(k + 1, n);
        assert(sub.drop_first() =~= rest);
        assert(sub[0] == acts[k]);
        assert(quiet_step(ws[k], ws[k + 1], acts[k]));
        let q = ws[k].queued();
        match acts[k] {
            WorkerAction::Execute(e) => {
                let out = executed(sub);
                assert(out == seq![e] + executed(rest));
                assert(out.drop_first() =~= executed(rest));
                if Worker::wait_post(ws[k], ws[k + 1], acts[k]) {
                    let i = choose|i: int|
                        0 <= i < q.len() && q[i] == e && ws[k + 1].queued() == q.remove(i);
                    assert(out[0] == e);
                } else {
                    let o = choose|o: Result<(), String>| #[trigger] Worker::finish_post(ws[k], o, ws[k + 1], acts[k]);
                    assert(Worker::finish_post(ws[k], o, ws[k + 1], acts[k]));
                }
            },
            _ => {
                assert(executed(sub) == executed(rest));
                if !Worker::wait_post(ws[k], ws[k + 1], acts[k]) {
                    let o = choose|o: Result<(), String>| #[trigger] Worker::finish_post(ws[k], o, ws[k + 1], acts[k]);
                    assert(Worker::finish_post(ws[k], o, ws[k + 1], acts[k]));
                }
                assert(ws[k + 1].queued() == q);
            },
        }
    } else {
        assert(acts.subrange(k, n) =~= Seq::<WorkerAction<T>>::empty());
    }
}

/// Tasks that are all queued before any of them runs execute in retrieval
/// order: over any run with no arrival, the executed tasks are successive
/// pops of the initial queue, so priorities never rise and, within a
/// priority, admission (submission) order is kept.
pub proof fn lemma_quiet_run_in_order<T>(ws: Seq<Worker<T>>, acts: Seq<WorkerAction<T>>)
    requires
        quiet_run(ws, acts),
    ensures
        successive_pops(ws[0].queued(), executed(acts)),
        in_retrieval_order(executed(acts)),
{
    lemma_quiet_run_pops_from(ws, acts, 0);
    assert(acts.subrange(0, acts.len() as int) =~= acts);
    lemma_successive_pops_in_order(ws[0].queued(), executed(acts));
}

} // verus!

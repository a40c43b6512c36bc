use vstd::prelude::*;

verus! {

/// Priority levels for tasks, ordered Low < Normal < High < Critical.
#[derive(Debug, Clone, Copy, PartialEq, Eq, Structural, Hash)]
pub enum TaskPriority {
    Low,
    Normal,
    High,
    Critical,
}

impl TaskPriority {
    /// The position of the priority in the order Low < Normal < High < Critical.
    pub open spec fn rank(self) -> nat {
        match self {
            TaskPriority::Low => 0,
            TaskPriority::Normal => 1,
            TaskPriority::High => 2,
            TaskPriority::Critical => 3,
        }
    }

    /// The numeric level of the priority (0 for Low up to 3 for Critical).
    pub fn level(&self) -> (r: u8)
        ensures
            r as nat == self.rank(),
    {
        match self {
            TaskPriority::Low => 0,
            TaskPriority::Normal => 1,
            TaskPriority::High => 2,
            TaskPriority::Critical => 3,
        }
    }

    /// Whether `self` ranks strictly above `other`.
    pub fn is_above(&self, other: &TaskPriority) -> (r: bool)
        ensures
            r == (self.rank() > other.rank()),
    {
        self.level() > other.level()
    }
}

/// Status of a task as persisted in its record.
#[derive(Debug, Clone, PartialEq, Eq)]
pub enum TaskStatus {
    Pending,
    Running,
    Completed,
    Failed { error: String },
}

impl TaskStatus {
    /// How far along its lifecycle a status is: Pending, then Running, then a
    /// terminal status (Completed or Failed).
    pub open spec fn stage(self) -> nat {
        match self {
            TaskStatus::Pending => 0,
            TaskStatus::Running => 1,
            TaskStatus::Completed => 2,
            TaskStatus::Failed { .. } => 2,
        }
    }

    /// Completed or Failed.
    pub open spec fn is_terminal_spec(self) -> bool {
        self.stage() == 2
    }

    /// Whether the status is terminal (Completed or Failed).
    pub fn is_terminal(&self) -> (r: bool)
        ensures
            r == self.is_terminal_spec(),
    {
        match self {
            TaskStatus::Completed => true,
            TaskStatus::Failed { .. } => true,
            _ => false,
        }
    }

    /// The terminal status that an execution outcome gives: Completed on
    /// success, Failed carrying the error text otherwise.
    pub open spec fn from_outcome_spec(outcome: Result<(), String>) -> TaskStatus {
        match outcome {
            Ok(()) => TaskStatus::Completed,
            Err(e) => TaskStatus::Failed { error: e },
        }
    }

    /// Turns the outcome of an execution into the terminal status to record.
    pub fn from_outcome(outcome: Result<(), String>) -> (r: TaskStatus)
        ensures
            r == Self::from_outcome_spec(outcome),
            r.is_terminal_spec(),
    {
        match outcome {
            Ok(()) => TaskStatus::Completed,
            Err(e) => TaskStatus::Failed { error: e },
        }
    }
}

/// A single step of the status lifecycle: Pending to Running, or Running to
/// a terminal status.
pub open spec fn advances(from: TaskStatus, to: TaskStatus) -> bool {
    ||| (from == TaskStatus::Pending && to == TaskStatus::Running)
    ||| (from == TaskStatus::Running && to.is_terminal_spec())
}

/// A status is either kept or moved one step forward.
pub open spec fn kept_or_advanced(from: TaskStatus, to: TaskStatus) -> bool {
    from == to || advances(from, to)
}

/// Whether recording `to` after `from` follows the lifecycle.
pub fn is_valid_transition(from: &TaskStatus, to: &TaskStatus) -> (r: bool)
    ensures
        r == advances(*from, *to),
{
    match (from, to) {
        (TaskStatus::Pending, TaskStatus::Running) => true,
        (TaskStatus::Running, TaskStatus::Completed) => true,
        (TaskStatus::Running, TaskStatus::Failed { .. }) => true,
        _ => false,
    }
}

/// A status never reverts: every lifecycle step strictly raises the stage,
/// so after any chain of steps no earlier status can be recorded again.
pub proof fn lemma_status_never_reverts(from: TaskStatus, to: TaskStatus)
    ensures
        advances(from, to) ==> from.stage() < to.stage(),
        kept_or_advanced(from, to) ==> from.stage() <= to.stage(),
        kept_or_advanced(from, to) && from.is_terminal_spec() ==> to == from,
        advances(from, to) ==> !advances(to, from),
{
}

/// One step of a record store: every known record keeps its status or
/// moves it one step forward, and every new record starts Pending.
pub open spec fn statuses_advance(before: Map<u64, TaskStatus>, after: Map<u64, TaskStatus>) -> bool {
    &&& forall|s: u64| #[trigger]
        before.contains_key(s) ==> after.contains_key(s) && kept_or_advanced(before[s], after[s])
    &&& forall|s: u64| #[trigger]
        after.contains_key(s) && !before.contains_key(s) ==> after[s] == TaskStatus::Pending
}

/// Over any run of steps, a record never goes back: once known it stays
/// known, its stage never decreases, and a terminal status never changes.
pub proof fn lemma_lifecycle_over_run(run: Seq<Map<u64, TaskStatus>>, i: int, j: int, s: u64)
    requires
        forall|k: int| 0 <= k < run.len() - 1 ==> statuses_advance(#[trigger] run[k], run[k + 1]),
        0 <= i <= j < run.len(),
        run[i].contains_key(s),
    ensures
        run[j].contains_key(s),
        run[i][s].stage() <= run[j][s].stage(),
        run[i][s].is_terminal_spec() ==> run[j][s] == run[i][s],
    decreases j - i,
{
    if i < j {
        lemma_lifecycle_over_run(run, i, j - 1, s);
        assert(statuses_advance(run[j - 1], run[j]));
        lemma_status_never_reverts(run[j - 1][s], run[j][s]);
    }
}

} // verus!

use media_collector::heap::{QueuedTask, TaskHeap};
use media_collector::queue::{is_valid_transition, TaskPriority, TaskStatus};
use media_collector::worker::{Worker, WorkerAction, WorkerEvent, WorkerPhase};

fn arrive(w: &mut Worker<&'static str>, name: &'static str, priority: TaskPriority) {
    let act = w.step(WorkerEvent::TaskArrived { item: name, priority });
    assert!(matches!(act, WorkerAction::PollInbox));
}

fn take_next(w: &mut Worker<&'static str>) -> &'static str {
    match w.step(WorkerEvent::WaitElapsed) {
        WorkerAction::Execute(t) => t.item,
        other => panic!("expected a task to execute, got {:?}", other),
    }
}

fn finish(w: &mut Worker<&'static str>, outcome: Result<(), String>) -> TaskStatus {
    match w.step(WorkerEvent::ExecutionFinished(outcome)) {
        WorkerAction::Record { status, .. } => status,
        other => panic!("expected a status to record, got {:?}", other),
    }
}

#[test]
fn idle_queue_runs_by_priority() {
    let mut w: Worker<&'static str> = Worker::new();
    assert!(matches!(w.next_wait(), WorkerAction::AwaitTask));
    arrive(&mut w, "A", TaskPriority::Low);
    arrive(&mut w, "B", TaskPriority::Critical);
    arrive(&mut w, "C", TaskPriority::Normal);
    let mut order = Vec::new();
    for _ in 0..3 {
        order.push(take_next(&mut w));
        assert_eq!(finish(&mut w, Ok(())), TaskStatus::Completed);
    }
    assert_eq!(order, vec!["B", "C", "A"]);
    assert_eq!(w.phase(), WorkerPhase::Idle);
    assert_eq!(w.completed(), 3);
}

#[test]
fn equal_priority_runs_in_submission_order() {
    let mut w: Worker<&'static str> = Worker::new();
    arrive(&mut w, "first", TaskPriority::High);
    arrive(&mut w, "second", TaskPriority::High);
    arrive(&mut w, "urgent", TaskPriority::Critical);
    arrive(&mut w, "third", TaskPriority::High);
    let mut order = Vec::new();
    for _ in 0..4 {
        order.push(take_next(&mut w));
        finish(&mut w, Ok(()));
    }
    assert_eq!(order, vec!["urgent", "first", "second", "third"]);
}

#[test]
fn late_arrival_is_admitted_before_next_pop() {
    let mut w: Worker<&'static str> = Worker::new();
    arrive(&mut w, "low1", TaskPriority::Low);
    arrive(&mut w, "low2", TaskPriority::Low);
    assert_eq!(take_next(&mut w), "low1");
    let act = w.step(WorkerEvent::TaskArrived { item: "high", priority: TaskPriority::High });
    assert!(matches!(act, WorkerAction::AwaitOutcome));
    finish(&mut w, Ok(()));
    assert_eq!(w.phase(), WorkerPhase::Selecting);
    assert_eq!(take_next(&mut w), "high");
    finish(&mut w, Ok(()));
    assert_eq!(take_next(&mut w), "low2");
}

#[test]
fn failed_task_does_not_block_the_next() {
    let mut w: Worker<&'static str> = Worker::new();
    arrive(&mut w, "bad", TaskPriority::Critical);
    arrive(&mut w, "good", TaskPriority::Normal);
    assert_eq!(take_next(&mut w), "bad");
    let status = finish(&mut w, Err("boom".to_string()));
    assert_eq!(status, TaskStatus::Failed { error: "boom".to_string() });
    assert_eq!(w.phase(), WorkerPhase::Selecting);
    assert_eq!(take_next(&mut w), "good");
    assert_eq!(finish(&mut w, Ok(())), TaskStatus::Completed);
    assert_eq!(w.failed(), 1);
    assert_eq!(w.completed(), 1);
}

#[test]
fn status_moves_pending_running_terminal() {
    let mut w: Worker<&'static str> = Worker::new();
    arrive(&mut w, "only", TaskPriority::Normal);
    let seq = match w.step(WorkerEvent::WaitElapsed) {
        WorkerAction::Execute(t) => t.seq,
        other => panic!("unexpected {:?}", other),
    };
    assert_eq!(w.phase(), WorkerPhase::Executing);
    match w.step(WorkerEvent::ExecutionFinished(Ok(()))) {
        WorkerAction::Record { seq: s, status } => {
            assert_eq!(s, seq);
            assert!(status.is_terminal());
            assert!(is_valid_transition(&TaskStatus::Running, &status));
        }
        other => panic!("unexpected {:?}", other),
    }
    assert!(is_valid_transition(&TaskStatus::Pending, &TaskStatus::Running));
    assert!(!is_valid_transition(&TaskStatus::Completed, &TaskStatus::Running));
    assert!(!is_valid_transition(&TaskStatus::Running, &TaskStatus::Pending));
    assert!(!is_valid_transition(&TaskStatus::Pending, &TaskStatus::Completed));
}

#[test]
fn shutdown_stops_admission() {
    let mut w: Worker<&'static str> = Worker::new();
    arrive(&mut w, "left", TaskPriority::Low);
    assert!(matches!(w.step(WorkerEvent::ShutdownSignal), WorkerAction::Stop));
    assert_eq!(w.phase(), WorkerPhase::Stopped);
    let act = w.step(WorkerEvent::TaskArrived { item: "late", priority: TaskPriority::High });
    assert!(matches!(act, WorkerAction::Stop));
    assert_eq!(w.admitted(), 1);
    assert_eq!(w.queued_len(), 1);
}

#[test]
fn closed_inbox_stops_idle_worker() {
    let mut w: Worker<u32> = Worker::new();
    assert!(matches!(w.step(WorkerEvent::WaitElapsed), WorkerAction::AwaitTask));
    assert!(matches!(w.step(WorkerEvent::InboxClosed), WorkerAction::Stop));
}

#[test]
fn heap_drains_in_retrieval_order() {
    let mut h: TaskHeap<u32> = TaskHeap::new();
    let input = [
        (1, TaskPriority::Low, 0),
        (2, TaskPriority::High, 1),
        (3, TaskPriority::Low, 2),
        (4, TaskPriority::Critical, 3),
        (5, TaskPriority::High, 4),
    ];
    for (item, priority, seq) in input {
        h.push(QueuedTask { item, priority, seq });
    }
    assert_eq!(h.len(), 5);
    let out: Vec<u32> = h.drain_ordered().into_iter().map(|t| t.item).collect();
    assert_eq!(out, vec![4, 2, 5, 1, 3]);
    assert!(h.is_empty());
    assert!(h.pop().is_none());
}

#[test]
fn priority_levels() {
    assert_eq!(TaskPriority::Low.level(), 0);
    assert_eq!(TaskPriority::Critical.level(), 3);
    assert!(TaskPriority::High.is_above(&TaskPriority::Normal));
    assert!(!TaskPriority::Normal.is_above(&TaskPriority::Normal));
}

#[test]
fn outcome_becomes_terminal_status() {
    assert_eq!(TaskStatus::from_outcome(Ok(())), TaskStatus::Completed);
    assert_eq!(
        TaskStatus::from_outcome(Err("x".to_string())),
        TaskStatus::Failed { error: "x".to_string() }
    );
    assert!(!TaskStatus::Pending.is_terminal());
}

use media_collector::module::{module_step, ModuleAction, ModuleEvent, ModuleMessage};
use media_collector::task_ids::TaskKind;

#[test]
fn module_loop_decisions() {
    assert_eq!(module_step(&ModuleEvent::Received(Some(ModuleMessage::Shutdown))), ModuleAction::ShutdownQueue);
    assert_eq!(
        module_step(&ModuleEvent::Received(Some(ModuleMessage::Custom("ping".to_string())))),
        ModuleAction::Continue
    );
    assert_eq!(module_step(&ModuleEvent::Received(None)), ModuleAction::Stop);
    assert_eq!(module_step(&ModuleEvent::PeriodElapsed), ModuleAction::Maintain);
}

#[test]
fn kind_priorities() {
    assert_eq!(TaskKind::MalUpdate.priority(), TaskPriority::High);
    assert_eq!(TaskKind::AniListFetch.priority(), TaskPriority::Normal);
    assert_eq!(TaskKind::Episodes.priority(), TaskPriority::Low);
}

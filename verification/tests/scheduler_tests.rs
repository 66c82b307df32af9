//! Draining the deterministic scheduler.

use testkit::app::TestAppContext;
use testkit::scheduler::{TaskAction, TestDispatcher, TestTask};

fn fresh_cx() -> TestAppContext {
    TestAppContext::new(TestDispatcher::new(), Some("scheduler_tests".to_string()))
}

/// A chain of tasks that themselves enqueue further tasks drains to an
/// empty queue in one call, and every transitively enqueued task runs.
#[test]
fn drains_self_enqueueing_chains_to_quiescence() {
    let mut cx = fresh_cx();
    let m = cx.new_model(0);

    // A task that sets the value, spawning a task that sets it again,
    // spawning a third: three generations from one spawn.
    let third = TestTask::leaf(vec![TaskAction::SetModel { model: m.id, value: 3 }]);
    let second = TestTask::with_children(
        vec![TaskAction::SetModel { model: m.id, value: 2 }],
        vec![third],
    );
    let first = TestTask::with_children(
        vec![TaskAction::SetModel { model: m.id, value: 1 }],
        vec![second],
    );
    cx.spawn(first);
    assert_eq!(cx.executor().pending_tasks(), 1);

    cx.run_until_parked();

    assert_eq!(cx.executor().pending_tasks(), 0);
    assert_eq!(cx.executor().completed_tasks(), 3);
    assert_eq!(cx.read_model(&m), 3);
}

/// Sibling tasks run in queue order, before the children they enqueue.
#[test]
fn runs_tasks_in_order_children_last() {
    let mut cx = fresh_cx();
    let m = cx.new_model(0);

    let child = TestTask::leaf(vec![TaskAction::EmitEvent { model: m.id, event: 30 }]);
    let first = TestTask::with_children(
        vec![TaskAction::EmitEvent { model: m.id, event: 10 }],
        vec![child],
    );
    let second = TestTask::leaf(vec![TaskAction::EmitEvent { model: m.id, event: 20 }]);
    cx.spawn(first);
    cx.spawn(second);
    let mut events = cx.events(&m);

    cx.run_until_parked();

    // The child of the first task runs after the already-queued second.
    let mut seen = Vec::new();
    loop {
        match events.next(&mut cx) {
            testkit::stream::EventPoll::Item(v) => seen.push(v),
            _ => break,
        }
    }
    assert_eq!(seen, vec![10, 20, 30]);
}

/// A second drain right after a first one performs no new dispatches.
#[test]
fn run_until_parked_twice_is_idempotent() {
    let mut cx = fresh_cx();
    let m = cx.new_model(0);
    cx.spawn(TestTask::leaf(vec![TaskAction::SetModel { model: m.id, value: 7 }]));

    cx.run_until_parked();
    let completed_after_first = cx.executor().completed_tasks();
    let value_after_first = cx.read_model(&m);

    cx.run_until_parked();

    assert_eq!(cx.executor().completed_tasks(), completed_after_first);
    assert_eq!(cx.read_model(&m), value_after_first);
    assert_eq!(cx.executor().pending_tasks(), 0);
    // Each drain is logged, even an empty one.
    assert_eq!(cx.executor().drain_count(), 2);
}

/// The drain never advances the clock: it runs work, it does not wait.
#[test]
fn draining_leaves_the_clock_alone() {
    let mut cx = fresh_cx();
    let m = cx.new_model(0);
    cx.spawn(TestTask::leaf(vec![TaskAction::NotifyModel { model: m.id }]));
    let before = cx.executor().now();
    cx.run_until_parked();
    assert_eq!(cx.executor().now(), before);
}

/// Actions aimed at a released entity do nothing; the drain still empties
/// the queue.
#[test]
fn actions_on_released_entities_are_inert() {
    let mut cx = fresh_cx();
    let m = cx.new_model(5);
    cx.release_model(&m);
    cx.spawn(TestTask::leaf(vec![TaskAction::SetModel { model: m.id, value: 9 }]));
    cx.run_until_parked();
    assert_eq!(cx.executor().pending_tasks(), 0);
    assert!(!cx.model_is_live(&m));
}

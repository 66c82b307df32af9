//! Condition waits and the notification/event bridge.

use testkit::app::TestAppContext;
use testkit::scheduler::{TaskAction, TestDispatcher, TestTask};
use testkit::stream::{
    ConditionOutcome, EventPoll, NextEvent, NextNotification, Predicate, StreamPoll,
};

fn fresh_cx() -> TestAppContext {
    TestAppContext::new(TestDispatcher::new(), Some("condition_tests".to_string()))
}

/// A predicate that already holds resolves at once, observing nothing.
#[test]
fn condition_resolves_immediately_when_predicate_holds() {
    let mut cx = fresh_cx();
    let m = cx.new_model(5);
    let r = cx.condition(&m, Predicate::AtLeast(5));
    assert_eq!(r, ConditionOutcome::Resolved);
}

/// A predicate that first holds at the third notification resolves at the
/// third synchronous check — not before, and the timer never wins.
#[test]
fn condition_resolves_exactly_on_third_notification() {
    let mut cx = fresh_cx();
    let m = cx.new_model(0);
    for value in [1, 2, 3] {
        cx.spawn(TestTask::leaf(vec![TaskAction::SetModel { model: m.id, value }]));
    }

    let r = cx.condition(&m, Predicate::AtLeast(3));

    assert_eq!(r, ConditionOutcome::Resolved);
    // All three notifications were needed and observed.
    assert_eq!(cx.notification_count(&m), 3);
    assert_eq!(cx.read_model(&m), 3);
    // The timer never won: the clock did not move.
    assert_eq!(cx.executor().now(), 0);
}

/// Every predicate form evaluates as written.
#[test]
fn predicates_evaluate_on_the_current_value() {
    let mut cx = fresh_cx();
    let m = cx.new_model(10);
    assert_eq!(cx.condition(&m, Predicate::EqValue(10)), ConditionOutcome::Resolved);
    assert_eq!(cx.condition(&m, Predicate::NeValue(11)), ConditionOutcome::Resolved);
    assert_eq!(cx.condition(&m, Predicate::Below(11)), ConditionOutcome::Resolved);
    assert_eq!(cx.condition(&m, Predicate::EqValue(11)), ConditionOutcome::TimedOut);
    assert_eq!(cx.condition(&m, Predicate::Below(10)), ConditionOutcome::TimedOut);
}

/// An entity released before the predicate ever holds fails the wait with
/// the distinct dropped outcome, not a timeout and not a hang.
#[test]
fn condition_reports_dropped_not_timed_out() {
    let mut cx = fresh_cx();
    let m = cx.new_model(0);
    cx.spawn(TestTask::leaf(vec![TaskAction::ReleaseModel { model: m.id }]));

    let r = cx.condition(&m, Predicate::AtLeast(1));

    assert_eq!(r, ConditionOutcome::Dropped);
}

/// With nothing left to run and the predicate still false, the timer wins:
/// the wait times out and the clock advances by the condition budget.
#[test]
fn condition_times_out_when_nothing_can_satisfy_it() {
    let mut cx = fresh_cx();
    let m = cx.new_model(0);
    let before = cx.executor().now();

    let r = cx.condition(&m, Predicate::AtLeast(1));

    assert_eq!(r, ConditionOutcome::TimedOut);
    assert_eq!(cx.executor().now(), before + 3000);
}

/// The condition budget is an explicit setting.
#[test]
fn condition_timeout_budget_is_configurable() {
    let mut cx = fresh_cx();
    cx.dispatcher.set_condition_timeout(250);
    let m = cx.new_model(0);
    let r = cx.condition(&m, Predicate::Always);
    assert_eq!(r, ConditionOutcome::Resolved);
    let r = cx.condition(&m, Predicate::Never);
    assert_eq!(r, ConditionOutcome::TimedOut);
    assert_eq!(cx.executor().now(), 250);
}

/// The notification stream yields one signal per notification, in order,
/// running queued work when its buffer is empty.
#[test]
fn notification_stream_delivers_each_signal_once() {
    let mut cx = fresh_cx();
    let m = cx.new_model(0);
    let mut stream = cx.notifications(&m);

    cx.update_model(&m, 1);
    cx.update_model(&m, 2);

    assert_eq!(stream.next(&mut cx), StreamPoll::Item);
    assert_eq!(stream.next(&mut cx), StreamPoll::Item);
    // Nothing buffered, nothing runnable: the poll reports a park rather
    // than blocking forever.
    assert_eq!(stream.next(&mut cx), StreamPoll::Parked);

    cx.spawn(TestTask::leaf(vec![TaskAction::NotifyModel { model: m.id }]));
    assert_eq!(stream.next(&mut cx), StreamPoll::Item);
}

/// After the entity's release the stream yields no further item: the
/// consumer observes closure — exactly that, every time it polls — rather
/// than a silent stall.
#[test]
fn notification_stream_closes_after_release() {
    let mut cx = fresh_cx();
    let m = cx.new_model(0);
    let mut stream = cx.notifications(&m);

    cx.update_model(&m, 1);
    cx.release_model(&m);

    // The signal buffered before the release is still delivered.
    assert_eq!(stream.next(&mut cx), StreamPoll::Item);
    // Then the stream closes, and stays closed.
    assert_eq!(stream.next(&mut cx), StreamPoll::Closed);
    assert_eq!(stream.next(&mut cx), StreamPoll::Closed);
}

/// Events are delivered in emission order, cloned at emission time, with
/// unbounded buffering: emitting never waits for the consumer.
#[test]
fn event_stream_buffers_without_bound() {
    let mut cx = fresh_cx();
    let m = cx.new_model(0);
    let mut stream = cx.events(&m);

    for e in 0..100 {
        cx.emit(&m, e);
    }

    for e in 0..100 {
        assert_eq!(stream.next(&mut cx), EventPoll::Item(e));
    }
    assert_eq!(stream.next(&mut cx), EventPoll::Parked);
}

/// An event stream only sees events emitted after subscription.
#[test]
fn event_stream_starts_at_subscription() {
    let mut cx = fresh_cx();
    let m = cx.new_model(0);
    cx.emit(&m, 1);
    let mut stream = cx.events(&m);
    cx.emit(&m, 2);
    assert_eq!(stream.next(&mut cx), EventPoll::Item(2));
}

/// Waiting for the next notification runs queued work until one arrives.
#[test]
fn next_notification_waits_for_queued_work() {
    let mut cx = fresh_cx();
    let m = cx.new_model(0);
    cx.spawn(TestTask::leaf(vec![TaskAction::SetModel { model: m.id, value: 1 }]));
    assert_eq!(cx.next_notification(&m), NextNotification::Notified);
}

/// With nothing to run, waiting for a notification times out and the
/// clock advances; a released entity is reported distinctly.
#[test]
fn next_notification_times_out_or_reports_drop() {
    let mut cx = fresh_cx();
    let m = cx.new_model(0);
    assert_eq!(cx.next_notification(&m), NextNotification::TimedOut);
    assert_eq!(cx.executor().now(), 3000);

    cx.release_model(&m);
    assert_eq!(cx.next_notification(&m), NextNotification::Dropped);
}

/// Waiting for the next event delivers the first event a queued task
/// emits.
#[test]
fn next_event_delivers_the_emitted_event() {
    let mut cx = fresh_cx();
    let m = cx.new_model(0);
    cx.spawn(TestTask::leaf(vec![TaskAction::EmitEvent { model: m.id, event: 42 }]));
    assert_eq!(cx.next_event(&m), NextEvent::Event(42));

    assert_eq!(cx.next_event(&m), NextEvent::TimedOut);
}

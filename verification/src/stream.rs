//! The condition waiter and the notification/event bridge.
//!
//! The bridge turns an entity's change notifications and emitted events into
//! pollable streams. A stream is a cursor into the entity's history: polling
//! yields each signal once, in order, runs queued work when nothing is
//! buffered, closes when the entity has been released, and reports a park —
//! never blocking — when the test would otherwise wait forever. The
//! condition waiter races a predicate over entity state against the
//! dispatcher's timer: the predicate is re-checked synchronously after every
//! notification it observes, and the wait ends in exactly one of resolution,
//! timeout, or entity release.

use vstd::prelude::*;

use crate::app::{step_once, Model, TestAppContext};
use crate::scheduler::{
    apply_action, apply_actions, lemma_tasks_weight_concat, step_state, task_weight, tasks_weight,
    SimView, TaskAction, TestTask,
};

verus! {

/// What polling a notification stream yields.
#[derive(Clone, Copy, Debug, PartialEq, Eq, Structural)]
pub enum StreamPoll {
    /// One buffered signal was delivered.
    Item,
    /// The entity was released and everything buffered has been delivered:
    /// the stream has closed and will never yield again.
    Closed,
    /// Nothing is buffered and nothing is runnable: waiting on would park
    /// the test forever, so the poll reports it instead of blocking.
    Parked,
}

/// What polling an event stream yields.
#[derive(Clone, Copy, Debug, PartialEq, Eq, Structural)]
pub enum EventPoll {
    /// One buffered event was delivered.
    Item(u64),
    /// The entity was released and everything buffered has been delivered.
    Closed,
    /// Nothing is buffered and nothing is runnable.
    Parked,
}

/// How a condition wait ends. Exactly one of these terminates every wait.
#[derive(Clone, Copy, Debug, PartialEq, Eq, Structural)]
pub enum ConditionOutcome {
    /// The predicate held at a synchronous check.
    Resolved,
    /// The timer won the race: a fatal test failure.
    TimedOut,
    /// The entity was released before the predicate ever held: a fatal test
    /// failure, distinct from a timeout.
    Dropped,
}

/// How waiting for a single notification ends.
#[derive(Clone, Copy, Debug, PartialEq, Eq, Structural)]
pub enum NextNotification {
    Notified,
    TimedOut,
    Dropped,
}

/// How waiting for a single event ends.
#[derive(Clone, Copy, Debug, PartialEq, Eq, Structural)]
pub enum NextEvent {
    Event(u64),
    TimedOut,
    Dropped,
}

/// A predicate over the value an entity holds, written as data so that a
/// wait's contract can say exactly when it resolves.
#[derive(Clone, Copy, Debug, PartialEq, Eq, Structural)]
pub enum Predicate {
    Always,
    Never,
    EqValue(u64),
    NeValue(u64),
    AtLeast(u64),
    Below(u64),
}

/// Whether the predicate holds of a value.
pub open spec fn eval_predicate(p: Predicate, v: u64) -> bool {
    match p {
        Predicate::Always => true,
        Predicate::Never => false,
        Predicate::EqValue(t) => v == t,
        Predicate::NeValue(t) => v != t,
        Predicate::AtLeast(t) => v >= t,
        Predicate::Below(t) => v < t,
    }
}

impl Predicate {
    /// Evaluate the predicate on a value.
    pub fn check(self, v: u64) -> (r: bool)
        ensures
            r == eval_predicate(self, v),
    {
        match self {
            Predicate::Always => true,
            Predicate::Never => false,
            Predicate::EqValue(t) => v == t,
            Predicate::NeValue(t) => v != t,
            Predicate::AtLeast(t) => v >= t,
            Predicate::Below(t) => v < t,
        }
    }
}

/// A pollable stream of the change notifications an entity sends from the
/// moment of subscription on.
pub struct NotificationStream {
    pub entity: usize,
    /// How many of the entity's notifications have been delivered already.
    pub cursor: usize,
}

/// A pollable stream of the events an entity emits from the moment of
/// subscription on. Events buffer without bound: a slow consumer never
/// makes the emitter wait.
pub struct EventStream {
    pub entity: usize,
    /// How many of the entity's events have been delivered already.
    pub cursor: usize,
}

/// How many notifications are buffered for a cursor.
pub open spec fn buffered_notifications(s: SimView, e: int, cursor: nat) -> nat {
    if 0 <= e < s.entities.len() && cursor <= s.entities[e].notify_log.len() {
        (s.entities[e].notify_log.len() - cursor) as nat
    } else {
        0
    }
}

/// What one poll of a notification stream does.
pub ghost struct StreamStep {
    pub poll: StreamPoll,
    pub state: SimView,
    pub queue: Seq<TestTask>,
    pub cursor: nat,
}

/// What one poll of an event stream does.
pub ghost struct EventStep {
    pub poll: EventPoll,
    pub state: SimView,
    pub queue: Seq<TestTask>,
    pub cursor: nat,
}

/// How a condition wait unwinds: its outcome, the state and queue it
/// leaves, and how many notifications it observed before ending.
pub ghost struct ConditionEnd {
    pub outcome: ConditionOutcome,
    pub state: SimView,
    pub queue: Seq<TestTask>,
    pub consumed: nat,
}

/// The meaning of polling a notification stream: deliver a buffered signal
/// if there is one; otherwise close if the entity is gone; otherwise run
/// queued work until a signal appears, and park if none ever can.
pub open spec fn stream_next_spec(s: SimView, q: Seq<TestTask>, e: int, cursor: nat) -> StreamStep
    decreases tasks_weight(q),
    via stream_next_spec_decreases
{
    if !(0 <= e < s.entities.len() && cursor <= s.entities[e].notify_log.len()) {
        StreamStep { poll: StreamPoll::Parked, state: s, queue: q, cursor }
    } else if cursor < s.entities[e].notify_log.len() {
        StreamStep { poll: StreamPoll::Item, state: s, queue: q, cursor: cursor + 1 }
    } else if !s.entities[e].live {
        StreamStep { poll: StreamPoll::Closed, state: s, queue: q, cursor }
    } else if q.len() > 0 {
        stream_next_spec(
            step_state(s, q[0]),
            q.subrange(1, q.len() as int) + q[0].children@,
            e,
            cursor,
        )
    } else {
        StreamStep { poll: StreamPoll::Parked, state: s, queue: q, cursor }
    }
}

#[via_fn]
proof fn stream_next_spec_decreases(s: SimView, q: Seq<TestTask>, e: int, cursor: nat) {
    if q.len() > 0 {
        let tail = q.subrange(1, q.len() as int);
        lemma_tasks_weight_concat(tail, q[0].children@);
        assert(tasks_weight(q) == task_weight(q[0]) + tasks_weight(tail));
        assert(task_weight(q[0]) == 1 + q[0].actions@.len() + tasks_weight(q[0].children@));
    }
}

/// The meaning of polling an event stream; as for notifications, with the
/// event value delivered.
pub open spec fn event_next_spec(s: SimView, q: Seq<TestTask>, e: int, cursor: nat) -> EventStep
    decreases tasks_weight(q),
    via event_next_spec_decreases
{
    if !(0 <= e < s.entities.len() && cursor <= s.entities[e].events.len()) {
        EventStep { poll: EventPoll::Parked, state: s, queue: q, cursor }
    } else if cursor < s.entities[e].events.len() {
        EventStep {
            poll: EventPoll::Item(s.entities[e].events[cursor as int]),
            state: s,
            queue: q,
            cursor: cursor + 1,
        }
    } else if !s.entities[e].live {
        EventStep { poll: EventPoll::Closed, state: s, queue: q, cursor }
    } else if q.len() > 0 {
        event_next_spec(
            step_state(s, q[0]),
            q.subrange(1, q.len() as int) + q[0].children@,
            e,
            cursor,
        )
    } else {
        EventStep { poll: EventPoll::Parked, state: s, queue: q, cursor }
    }
}

#[via_fn]
proof fn event_next_spec_decreases(s: SimView, q: Seq<TestTask>, e: int, cursor: nat) {
    if q.len() > 0 {
        let tail = q.subrange(1, q.len() as int);
        lemma_tasks_weight_concat(tail, q[0].children@);
        assert(tasks_weight(q) == task_weight(q[0]) + tasks_weight(tail));
        assert(task_weight(q[0]) == 1 + q[0].actions@.len() + tasks_weight(q[0].children@));
    }
}

/// The meaning of a condition wait, at a synchronous predicate check. The
/// wait fails as dropped if the entity is gone, resolves if the predicate
/// holds of the value now, and otherwise awaits the next notification.
pub open spec fn condition_spec(
    s: SimView,
    q: Seq<TestTask>,
    e: int,
    cursor: nat,
    p: Predicate,
) -> ConditionEnd
    decreases tasks_weight(q), buffered_notifications(s, e, cursor), 1int,
    via condition_spec_decreases
{
    if !(0 <= e < s.entities.len() && cursor <= s.entities[e].notify_log.len()) {
        ConditionEnd { outcome: ConditionOutcome::TimedOut, state: s, queue: q, consumed: 0 }
    } else if !s.entities[e].live {
        ConditionEnd { outcome: ConditionOutcome::Dropped, state: s, queue: q, consumed: 0 }
    } else if eval_predicate(p, s.entities[e].value) {
        ConditionEnd { outcome: ConditionOutcome::Resolved, state: s, queue: q, consumed: 0 }
    } else {
        condition_await(s, q, e, cursor, p)
    }
}

/// The meaning of a condition wait between predicate checks: observe one
/// buffered notification and re-check at once — notifications are never
/// batched — else fail as dropped if the entity is gone, else run queued
/// work, and let the timer win when nothing is left to run.
pub open spec fn condition_await(
    s: SimView,
    q: Seq<TestTask>,
    e: int,
    cursor: nat,
    p: Predicate,
) -> ConditionEnd
    decreases tasks_weight(q), buffered_notifications(s, e, cursor), 0int,
    via condition_await_decreases
{
    if !(0 <= e < s.entities.len() && cursor <= s.entities[e].notify_log.len()) {
        ConditionEnd { outcome: ConditionOutcome::TimedOut, state: s, queue: q, consumed: 0 }
    } else if cursor < s.entities[e].notify_log.len() {
        let r = condition_spec(s, q, e, cursor + 1, p);
        ConditionEnd { consumed: r.consumed + 1, ..r }
    } else if !s.entities[e].live {
        ConditionEnd { outcome: ConditionOutcome::Dropped, state: s, queue: q, consumed: 0 }
    } else if q.len() > 0 {
        condition_await(
            step_state(s, q[0]),
            q.subrange(1, q.len() as int) + q[0].children@,
            e,
            cursor,
            p,
        )
    } else {
        ConditionEnd { outcome: ConditionOutcome::TimedOut, state: s, queue: q, consumed: 0 }
    }
}

#[via_fn]
proof fn condition_spec_decreases(s: SimView, q: Seq<TestTask>, e: int, cursor: nat, p: Predicate) {
}

#[via_fn]
proof fn condition_await_decreases(
    s: SimView,
    q: Seq<TestTask>,
    e: int,
    cursor: nat,
    p: Predicate,
) {
    if 0 <= e < s.entities.len() && cursor <= s.entities[e].notify_log.len() && !(cursor
        < s.entities[e].notify_log.len()) && s.entities[e].live && q.len() > 0 {
        let tail = q.subrange(1, q.len() as int);
        lemma_tasks_weight_concat(tail, q[0].children@);
        assert(tasks_weight(q) == task_weight(q[0]) + tasks_weight(tail));
        assert(task_weight(q[0]) == 1 + q[0].actions@.len() + tasks_weight(q[0].children@));
    }
}

/// The sum that does not overflow: the clock sticks at its maximum rather
/// than wrapping.
pub open spec fn sat_add_spec(a: u64, b: u64) -> u64 {
    if a + b > u64::MAX {
        u64::MAX
    } else {
        (a + b) as u64
    }
}

fn sat_add(a: u64, b: u64) -> (r: u64)
    ensures
        r == sat_add_spec(a, b),
{
    if a > u64::MAX - b {
        u64::MAX
    } else {
        a + b
    }
}

/// After an entity's release, once its buffered signals are drained, a
/// notification stream yields no further item: every poll reports closure —
/// it never stalls — and leaves the state, the queue and the cursor
/// untouched, so repeated polls keep reporting the same closure.
pub proof fn lemma_stream_closed_after_release(s: SimView, q: Seq<TestTask>, e: int, cursor: nat)
    requires
        0 <= e < s.entities.len(),
        !s.entities[e].live,
        cursor == s.entities[e].notify_log.len(),
    ensures
        stream_next_spec(s, q, e, cursor) == (StreamStep {
            poll: StreamPoll::Closed,
            state: s,
            queue: q,
            cursor,
        }),
{
}

/// A wait on an entity that a queued task releases before the predicate
/// ever holds fails as dropped — distinctly, not as a timeout, and without
/// hanging.
pub proof fn lemma_condition_dropped_on_release(s: SimView, q: Seq<TestTask>, e: usize, p: Predicate)
    requires
        (e as int) < s.entities.len(),
        s.entities[e as int].live,
        !eval_predicate(p, s.entities[e as int].value),
        q.len() == 1,
        q[0].actions@ == seq![TaskAction::ReleaseModel { model: e }],
        q[0].children@.len() == 0,
    ensures
        condition_spec(
            s,
            q,
            e as int,
            s.entities[e as int].notify_log.len(),
            p,
        ).outcome is Dropped,
{
    let cursor = s.entities[e as int].notify_log.len();
    let acts = q[0].actions@;
    let s1 = step_state(s, q[0]);
    assert(acts.subrange(1, acts.len() as int) =~= Seq::<TaskAction>::empty());
    assert(apply_actions(s.entities, acts) == apply_actions(
        apply_action(s.entities, acts[0]),
        acts.subrange(1, acts.len() as int),
    ));
    assert(s1.entities == apply_action(s.entities, TaskAction::ReleaseModel { model: e }));
    assert(!s1.entities[e as int].live);
    assert(s1.entities[e as int].notify_log == s.entities[e as int].notify_log);
    let tail = q.subrange(1, q.len() as int);
    assert(tail + q[0].children@ =~= Seq::<TestTask>::empty());
    assert(condition_await(s, q, e as int, cursor, p) == condition_await(
        s1,
        Seq::empty(),
        e as int,
        cursor,
        p,
    ));
    assert(condition_await(s1, Seq::empty(), e as int, cursor, p).outcome is Dropped);
}

/// A predicate that first holds at the k-th change notification resolves
/// the wait exactly at the k-th synchronous check: the wait observes all k
/// notifications, no fewer and no more, and neither the timer nor a drop
/// ends it. The queue holds one value-setting task per notification; the
/// predicate fails on the value now held and on every set value before the
/// k-th.
pub proof fn lemma_condition_resolves_on_kth(
    s: SimView,
    q: Seq<TestTask>,
    e: usize,
    p: Predicate,
    values: Seq<u64>,
)
    requires
        (e as int) < s.entities.len(),
        s.entities[e as int].live,
        values.len() > 0,
        q.len() == values.len(),
        forall|i: int|
            0 <= i < q.len() ==> (#[trigger] q[i].actions@) == seq![
                TaskAction::SetModel { model: e, value: values[i] },
            ],
        forall|i: int| 0 <= i < q.len() ==> (#[trigger] q[i].children@).len() == 0,
        !eval_predicate(p, s.entities[e as int].value),
        forall|i: int| 0 <= i < values.len() - 1 ==> !eval_predicate(p, #[trigger] values[i]),
        eval_predicate(p, values.last()),
    ensures
        ({
            let end = condition_spec(s, q, e as int, s.entities[e as int].notify_log.len(), p);
            &&& end.outcome is Resolved
            &&& end.consumed == values.len()
        }),
    decreases values.len(),
{
    let cursor = s.entities[e as int].notify_log.len();
    let acts = q[0].actions@;
    let s1 = step_state(s, q[0]);
    assert(acts == seq![TaskAction::SetModel { model: e, value: values[0] }]);
    assert(acts.subrange(1, acts.len() as int) =~= Seq::<TaskAction>::empty());
    assert(apply_actions(s.entities, acts) == apply_actions(
        apply_action(s.entities, acts[0]),
        acts.subrange(1, acts.len() as int),
    ));
    assert(s1.entities == apply_action(
        s.entities,
        TaskAction::SetModel { model: e, value: values[0] },
    ));
    assert(s1.entities[e as int].live);
    assert(s1.entities[e as int].value == values[0]);
    assert(s1.entities[e as int].notify_log == s.entities[e as int].notify_log.push(values[0]));
    let tail = q.subrange(1, q.len() as int);
    assert(tail + q[0].children@ =~= tail);
    // The wait checks the predicate, fails, and awaits: the one runnable
    // task sets the value and notifies.
    assert(condition_spec(s, q, e as int, cursor, p) == condition_await(s, q, e as int, cursor, p));
    assert(condition_await(s, q, e as int, cursor, p) == condition_await(
        s1,
        tail,
        e as int,
        cursor,
        p,
    ));
    // The notification is observed and the predicate re-checked at once.
    let sub = condition_spec(s1, tail, e as int, cursor + 1, p);
    assert(condition_await(s1, tail, e as int, cursor, p) == (ConditionEnd {
        consumed: sub.consumed + 1,
        ..sub
    }));
    if values.len() == 1 {
        assert(eval_predicate(p, values[0]));
        assert(sub.outcome is Resolved && sub.consumed == 0);
    } else {
        assert(!eval_predicate(p, values[0]));
        let values1 = values.subrange(1, values.len() as int);
        assert(values1.last() == values.last());
        assert(forall|i: int|
            0 <= i < tail.len() ==> (#[trigger] tail[i].actions@) == seq![
                TaskAction::SetModel { model: e, value: values1[i] },
            ]);
        assert(forall|i: int| 0 <= i < tail.len() ==> (#[trigger] tail[i].children@).len() == 0);
        assert(forall|i: int| 0 <= i < values1.len() - 1 ==> !eval_predicate(
            p,
            #[trigger] values1[i],
        ));
        lemma_condition_resolves_on_kth(s1, tail, e, p, values1);
        assert(sub == condition_spec(
            s1,
            tail,
            e as int,
            s1.entities[e as int].notify_log.len(),
            p,
        ));
        assert(sub.outcome is Resolved && sub.consumed == values1.len());
    }
}

impl NotificationStream {
    /// The stream points at an entity of the context and its cursor is
    /// within the entity's history.
    pub open spec fn wf(&self, cx: &TestAppContext) -> bool {
        &&& self.entity < cx.entities@.len()
        &&& self.cursor <= cx.entities@[self.entity as int]@.notify_log.len()
    }

    /// Poll the stream: deliver the next signal, run queued work until one
    /// appears, close once the entity is released and the buffer is drained,
    /// or report that the test would park forever.
    pub fn next(&mut self, cx: &mut TestAppContext) -> (r: StreamPoll)
        requires
            old(self).wf(old(cx)),
        ensures
            ({
                let st = stream_next_spec(
                    old(cx).sim_view(),
                    old(cx).dispatcher.queue@,
                    old(self).entity as int,
                    old(self).cursor as nat,
                );
                &&& r == st.poll
                &&& final(cx).sim_view() == st.state
                &&& final(cx).dispatcher.queue@ == st.queue
                &&& final(self).cursor == st.cursor
            }),
            final(self).entity == old(self).entity,
            final(self).wf(final(cx)),
            final(cx).dispatcher.time == old(cx).dispatcher.time,
            final(cx).dispatcher.condition_timeout == old(cx).dispatcher.condition_timeout,
            final(cx).dispatcher.drain_log@ == old(cx).dispatcher.drain_log@,
            *final(cx) == (TestAppContext {
                dispatcher: final(cx).dispatcher,
                entities: final(cx).entities,
                ..*old(cx)
            }),
    {
        let e = self.entity;
        let ghost orig = stream_next_spec(
            old(cx).sim_view(),
            old(cx).dispatcher.queue@,
            e as int,
            self.cursor as nat,
        );
        loop
            invariant
                e == self.entity,
                self.entity == old(self).entity,
                self.wf(cx),
                self.cursor == old(self).cursor,
                stream_next_spec(cx.sim_view(), cx.dispatcher.queue@, e as int, self.cursor as nat)
                    == orig,
                orig == stream_next_spec(
                    old(cx).sim_view(),
                    old(cx).dispatcher.queue@,
                    old(self).entity as int,
                    old(self).cursor as nat,
                ),
                cx.dispatcher.time == old(cx).dispatcher.time,
                cx.dispatcher.condition_timeout == old(cx).dispatcher.condition_timeout,
                cx.dispatcher.drain_log@ == old(cx).dispatcher.drain_log@,
                *cx == (TestAppContext {
                    dispatcher: cx.dispatcher,
                    entities: cx.entities,
                    ..*old(cx)
                }),
            decreases tasks_weight(cx.dispatcher.queue@),
        {
            proof {
                assert(cx.sim_view().entities[e as int] == cx.entities@[e as int]@);
            }
            let log_len = cx.entities[e].notify_log.len();
            if self.cursor < log_len {
                proof {
                    assert(stream_next_spec(
                        cx.sim_view(),
                        cx.dispatcher.queue@,
                        e as int,
                        self.cursor as nat,
                    ) == (StreamStep {
                        poll: StreamPoll::Item,
                        state: cx.sim_view(),
                        queue: cx.dispatcher.queue@,
                        cursor: (self.cursor + 1) as nat,
                    }));
                }
                self.cursor = self.cursor + 1;
                return StreamPoll::Item;
            }
            if !cx.entities[e].live {
                return StreamPoll::Closed;
            }
            if cx.dispatcher.queue.len() != 0 {
                let ghost pre_sim = cx.sim_view();
                let ghost pre_q = cx.dispatcher.queue@;
                step_once(&mut cx.dispatcher, &mut cx.entities);
                proof {
                    let tail = pre_q.subrange(1, pre_q.len() as int);
                    lemma_tasks_weight_concat(tail, pre_q[0].children@);
                    assert(tasks_weight(pre_q) == task_weight(pre_q[0]) + tasks_weight(tail));
                    crate::scheduler::lemma_apply_actions_frame(pre_sim.entities, pre_q[0].actions@);
                    assert(cx.sim_view().entities[e as int] == cx.entities@[e as int]@);
                    assert(stream_next_spec(pre_sim, pre_q, e as int, self.cursor as nat)
                        == stream_next_spec(
                        cx.sim_view(),
                        cx.dispatcher.queue@,
                        e as int,
                        self.cursor as nat,
                    ));
                }
            } else {
                return StreamPoll::Parked;
            }
        }
    }
}

impl EventStream {
    /// The stream points at an entity of the context and its cursor is
    /// within the entity's history.
    pub open spec fn wf(&self, cx: &TestAppContext) -> bool {
        &&& self.entity < cx.entities@.len()
        &&& self.cursor <= cx.entities@[self.entity as int]@.events.len()
    }

    /// Poll the stream: deliver the next event — cloned at emission time,
    /// buffered without bound — run queued work until one appears, close
    /// once the entity is released and the buffer is drained, or report
    /// that the test would park forever.
    pub fn next(&mut self, cx: &mut TestAppContext) -> (r: EventPoll)
        requires
            old(self).wf(old(cx)),
        ensures
            ({
                let st = event_next_spec(
                    old(cx).sim_view(),
                    old(cx).dispatcher.queue@,
                    old(self).entity as int,
                    old(self).cursor as nat,
                );
                &&& r == st.poll
                &&& final(cx).sim_view() == st.state
                &&& final(cx).dispatcher.queue@ == st.queue
                &&& final(self).cursor == st.cursor
            }),
            final(self).entity == old(self).entity,
            final(self).wf(final(cx)),
            final(cx).dispatcher.time == old(cx).dispatcher.time,
            final(cx).dispatcher.condition_timeout == old(cx).dispatcher.condition_timeout,
            final(cx).dispatcher.drain_log@ == old(cx).dispatcher.drain_log@,
            *final(cx) == (TestAppContext {
                dispatcher: final(cx).dispatcher,
                entities: final(cx).entities,
                ..*old(cx)
            }),
    {
        let e = self.entity;
        let ghost orig = event_next_spec(
            old(cx).sim_view(),
            old(cx).dispatcher.queue@,
            e as int,
            self.cursor as nat,
        );
        loop
            invariant
                e == self.entity,
                self.entity == old(self).entity,
                self.wf(cx),
                self.cursor == old(self).cursor,
                event_next_spec(cx.sim_view(), cx.dispatcher.queue@, e as int, self.cursor as nat)
                    == orig,
                orig == event_next_spec(
                    old(cx).sim_view(),
                    old(cx).dispatcher.queue@,
                    old(self).entity as int,
                    old(self).cursor as nat,
                ),
                cx.dispatcher.time == old(cx).dispatcher.time,
                cx.dispatcher.condition_timeout == old(cx).dispatcher.condition_timeout,
                cx.dispatcher.drain_log@ == old(cx).dispatcher.drain_log@,
                *cx == (TestAppContext {
                    dispatcher: cx.dispatcher,
                    entities: cx.entities,
                    ..*old(cx)
                }),
            decreases tasks_weight(cx.dispatcher.queue@),
        {
            proof {
                assert(cx.sim_view().entities[e as int] == cx.entities@[e as int]@);
            }
            let events_len = cx.entities[e].events.len();
            if self.cursor < events_len {
                let v = cx.entities[e].events[self.cursor];
                proof {
                    assert(event_next_spec(
                        cx.sim_view(),
                        cx.dispatcher.queue@,
                        e as int,
                        self.cursor as nat,
                    ) == (EventStep {
                        poll: EventPoll::Item(v),
                        state: cx.sim_view(),
                        queue: cx.dispatcher.queue@,
                        cursor: (self.cursor + 1) as nat,
                    }));
                }
                self.cursor = self.cursor + 1;
                return EventPoll::Item(v);
            }
            if !cx.entities[e].live {
                return EventPoll::Closed;
            }
            if cx.dispatcher.queue.len() != 0 {
                let ghost pre_sim = cx.sim_view();
                let ghost pre_q = cx.dispatcher.queue@;
                step_once(&mut cx.dispatcher, &mut cx.entities);
                proof {
                    let tail = pre_q.subrange(1, pre_q.len() as int);
                    lemma_tasks_weight_concat(tail, pre_q[0].children@);
                    assert(tasks_weight(pre_q) == task_weight(pre_q[0]) + tasks_weight(tail));
                    crate::scheduler::lemma_apply_actions_frame(pre_sim.entities, pre_q[0].actions@);
                    assert(cx.sim_view().entities[e as int] == cx.entities@[e as int]@);
                    assert(event_next_spec(pre_sim, pre_q, e as int, self.cursor as nat)
                        == event_next_spec(
                        cx.sim_view(),
                        cx.dispatcher.queue@,
                        e as int,
                        self.cursor as nat,
                    ));
                }
            } else {
                return EventPoll::Parked;
            }
        }
    }
}

impl TestAppContext {
    /// Subscribe to the entity's change notifications: one unit signal per
    /// notification from now on, until the entity is released, at which
    /// point the stream closes rather than erring.
    pub fn notifications(&self, entity: &Model) -> (s: NotificationStream)
        requires
            self.has_model(*entity),
        ensures
            s.entity == entity.id,
            s.cursor == self.entity(*entity).notify_log.len(),
            s.wf(self),
    {
        NotificationStream { entity: entity.id, cursor: self.entities[entity.id].notify_log.len() }
    }

    /// Subscribe to the events the entity emits from now on. Buffering is
    /// unbounded: a slow consumer never makes the emitter wait.
    pub fn events(&self, entity: &Model) -> (s: EventStream)
        requires
            self.has_model(*entity),
        ensures
            s.entity == entity.id,
            s.cursor == self.entity(*entity).events.len(),
            s.wf(self),
    {
        EventStream { entity: entity.id, cursor: self.entities[entity.id].events.len() }
    }

    /// Suspend until the predicate holds of the entity's value. The
    /// predicate is checked at once, then synchronously after every change
    /// notification — never batched, and every check reads the value as it
    /// is at check time. The wait races the dispatcher's timer: with
    /// nothing left to run the timer wins and the clock advances by the
    /// condition budget. An entity released before the predicate holds
    /// fails the wait as dropped, distinctly from a timeout.
    pub fn condition(&mut self, model: &Model, predicate: Predicate) -> (r: ConditionOutcome)
        requires
            old(self).has_model(*model),
        ensures
            ({
                let end = condition_spec(
                    old(self).sim_view(),
                    old(self).dispatcher.queue@,
                    model.id as int,
                    old(self).entity(*model).notify_log.len(),
                    predicate,
                );
                &&& r == end.outcome
                &&& final(self).sim_view() == end.state
                &&& final(self).dispatcher.queue@ == end.queue
            }),
            r is TimedOut ==> final(self).dispatcher.time == sat_add_spec(
                old(self).dispatcher.time,
                old(self).dispatcher.condition_timeout,
            ),
            !(r is TimedOut) ==> final(self).dispatcher.time == old(self).dispatcher.time,
            final(self).dispatcher.condition_timeout == old(self).dispatcher.condition_timeout,
            final(self).dispatcher.drain_log@ == old(self).dispatcher.drain_log@,
            *final(self) == (TestAppContext {
                dispatcher: final(self).dispatcher,
                entities: final(self).entities,
                ..*old(self)
            }),
    {
        let e = model.id;
        let mut cursor = self.entities[e].notify_log.len();
        let ghost orig = condition_spec(
            self.sim_view(),
            self.dispatcher.queue@,
            e as int,
            cursor as nat,
            predicate,
        );
        proof {
            assert(self.sim_view().entities[e as int] == self.entities@[e as int]@);
        }
        if !self.entities[e].live {
            return ConditionOutcome::Dropped;
        }
        if predicate.check(self.entities[e].value) {
            return ConditionOutcome::Resolved;
        }
        loop
            invariant
                e == model.id,
                e < self.entities@.len(),
                cursor <= self.entities@[e as int]@.notify_log.len(),
                ({
                    let cur = condition_await(
                        self.sim_view(),
                        self.dispatcher.queue@,
                        e as int,
                        cursor as nat,
                        predicate,
                    );
                    &&& cur.outcome == orig.outcome
                    &&& cur.state == orig.state
                    &&& cur.queue == orig.queue
                }),
                orig == condition_spec(
                    old(self).sim_view(),
                    old(self).dispatcher.queue@,
                    model.id as int,
                    old(self).entity(*model).notify_log.len(),
                    predicate,
                ),
                self.dispatcher.time == old(self).dispatcher.time,
                self.dispatcher.condition_timeout == old(self).dispatcher.condition_timeout,
                self.dispatcher.drain_log@ == old(self).dispatcher.drain_log@,
                *self == (TestAppContext {
                    dispatcher: self.dispatcher,
                    entities: self.entities,
                    ..*old(self)
                }),
            decreases
                tasks_weight(self.dispatcher.queue@),
                buffered_notifications(self.sim_view(), e as int, cursor as nat),
        {
            proof {
                assert(self.sim_view().entities[e as int] == self.entities@[e as int]@);
            }
            let log_len = self.entities[e].notify_log.len();
            if cursor < log_len {
                // A notification was observed: re-check the predicate at
                // once, against the value as it is now.
                proof {
                    let s = self.sim_view();
                    let q = self.dispatcher.queue@;
                    let sub = condition_spec(s, q, e as int, (cursor + 1) as nat, predicate);
                    assert(condition_await(s, q, e as int, cursor as nat, predicate)
                        == (ConditionEnd { consumed: sub.consumed + 1, ..sub }));
                }
                cursor = cursor + 1;
                if !self.entities[e].live {
                    return ConditionOutcome::Dropped;
                }
                if predicate.check(self.entities[e].value) {
                    return ConditionOutcome::Resolved;
                }
            } else if !self.entities[e].live {
                return ConditionOutcome::Dropped;
            } else if self.dispatcher.queue.len() != 0 {
                let ghost pre_sim = self.sim_view();
                let ghost pre_q = self.dispatcher.queue@;
                step_once(&mut self.dispatcher, &mut self.entities);
                proof {
                    let tail = pre_q.subrange(1, pre_q.len() as int);
                    lemma_tasks_weight_concat(tail, pre_q[0].children@);
                    assert(tasks_weight(pre_q) == task_weight(pre_q[0]) + tasks_weight(tail));
                    crate::scheduler::lemma_apply_actions_frame(pre_sim.entities, pre_q[0].actions@);
                    assert(self.sim_view().entities[e as int] == self.entities@[e as int]@);
                    assert(condition_await(pre_sim, pre_q, e as int, cursor as nat, predicate)
                        == condition_await(
                        self.sim_view(),
                        self.dispatcher.queue@,
                        e as int,
                        cursor as nat,
                        predicate,
                    ));
                }
            } else {
                let t = self.dispatcher.time;
                let b = self.dispatcher.condition_timeout;
                self.dispatcher.time = sat_add(t, b);
                return ConditionOutcome::TimedOut;
            }
        }
    }

    /// Wait for the entity's next change notification, racing the
    /// dispatcher's timer. A timeout or a release before the notification
    /// is a fatal test failure, the two reported distinctly.
    pub fn next_notification(&mut self, model: &Model) -> (r: NextNotification)
        requires
            old(self).has_model(*model),
        ensures
            ({
                let st = stream_next_spec(
                    old(self).sim_view(),
                    old(self).dispatcher.queue@,
                    model.id as int,
                    old(self).entity(*model).notify_log.len(),
                );
                &&& r == (match st.poll {
                    StreamPoll::Item => NextNotification::Notified,
                    StreamPoll::Closed => NextNotification::Dropped,
                    StreamPoll::Parked => NextNotification::TimedOut,
                })
                &&& final(self).sim_view() == st.state
                &&& final(self).dispatcher.queue@ == st.queue
            }),
            r is TimedOut ==> final(self).dispatcher.time == sat_add_spec(
                old(self).dispatcher.time,
                old(self).dispatcher.condition_timeout,
            ),
            !(r is TimedOut) ==> final(self).dispatcher.time == old(self).dispatcher.time,
            final(self).dispatcher.condition_timeout == old(self).dispatcher.condition_timeout,
            final(self).dispatcher.drain_log@ == old(self).dispatcher.drain_log@,
            *final(self) == (TestAppContext {
                dispatcher: final(self).dispatcher,
                entities: final(self).entities,
                ..*old(self)
            }),
    {
        let mut s = self.notifications(model);
        let p = s.next(self);
        match p {
            StreamPoll::Item => NextNotification::Notified,
            StreamPoll::Closed => NextNotification::Dropped,
            StreamPoll::Parked => {
                let t = self.dispatcher.time;
                let b = self.dispatcher.condition_timeout;
                self.dispatcher.time = sat_add(t, b);
                NextNotification::TimedOut
            },
        }
    }

    /// Wait for the next event the entity emits, racing the dispatcher's
    /// timer. A timeout or a release before any event is a fatal test
    /// failure, the two reported distinctly.
    pub fn next_event(&mut self, model: &Model) -> (r: NextEvent)
        requires
            old(self).has_model(*model),
        ensures
            ({
                let st = event_next_spec(
                    old(self).sim_view(),
                    old(self).dispatcher.queue@,
                    model.id as int,
                    old(self).entity(*model).events.len(),
                );
                &&& r == (match st.poll {
                    EventPoll::Item(v) => NextEvent::Event(v),
                    EventPoll::Closed => NextEvent::Dropped,
                    EventPoll::Parked => NextEvent::TimedOut,
                })
                &&& final(self).sim_view() == st.state
                &&& final(self).dispatcher.queue@ == st.queue
            }),
            r is TimedOut ==> final(self).dispatcher.time == sat_add_spec(
                old(self).dispatcher.time,
                old(self).dispatcher.condition_timeout,
            ),
            !(r is TimedOut) ==> final(self).dispatcher.time == old(self).dispatcher.time,
            final(self).dispatcher.condition_timeout == old(self).dispatcher.condition_timeout,
            final(self).dispatcher.drain_log@ == old(self).dispatcher.drain_log@,
            *final(self) == (TestAppContext {
                dispatcher: final(self).dispatcher,
                entities: final(self).entities,
                ..*old(self)
            }),
    {
        let mut s = self.events(model);
        let p = s.next(self);
        match p {
            EventPoll::Item(v) => NextEvent::Event(v),
            EventPoll::Closed => NextEvent::Dropped,
            EventPoll::Parked => {
                let t = self.dispatcher.time;
                let b = self.dispatcher.condition_timeout;
                self.dispatcher.time = sat_add(t, b);
                NextEvent::TimedOut
            },
        }
    }
}

} // verus!

//! The deterministic scheduler's data model.
//!
//! A [`TestTask`] is a unit of deferred work: a list of primitive effects on
//! the application's entities, plus further tasks that running it enqueues.
//! [`TestDispatcher`] holds the pending queue together with the logical clock
//! and the logs that tests inspect. The functional meaning of draining the
//! queue is given by [`run_queue`]; the executable drain loop in the context
//! module is proved equal to it.

use vstd::prelude::*;

verus! {

/// One primitive effect a queued task performs on the application's
/// entities when the scheduler runs it.
#[derive(Clone, Copy, Debug, PartialEq, Eq, Structural)]
pub enum TaskAction {
    /// Do nothing.
    Idle,
    /// Overwrite the value held by the entity and notify its observers.
    SetModel { model: usize, value: u64 },
    /// Notify the entity's observers without changing its value.
    NotifyModel { model: usize },
    /// Emit an event from the entity.
    EmitEvent { model: usize, event: u64 },
    /// Release the entity: its notification streams close.
    ReleaseModel { model: usize },
}

/// A unit of deferred work. Running it applies `actions` in order and then
/// enqueues `children` at the back of the queue.
pub struct TestTask {
    pub actions: Vec<TaskAction>,
    pub children: Vec<TestTask>,
}

/// The cooperative task queue, the logical clock, and the logs of what has
/// been run. All pending work is drained synchronously; nothing waits on
/// wall-clock time.
pub struct TestDispatcher {
    /// Tasks that are runnable, in the order they will run.
    pub queue: Vec<TestTask>,
    /// One entry per task that has run, holding its action count.
    pub completed: Vec<usize>,
    /// One entry per drain to quiescence, holding how many tasks that
    /// drain executed.
    pub drain_log: Vec<usize>,
    /// The logical clock, in milliseconds. It advances only when a wait
    /// would otherwise park forever.
    pub time: u64,
    /// The budget a condition wait gets before its timer wins the race,
    /// in milliseconds.
    pub condition_timeout: u64,
}

/// What the scheduler sees of one entity.
pub ghost struct EntityView {
    /// False once the entity has been released.
    pub live: bool,
    /// The value the entity currently holds.
    pub value: u64,
    /// The value the entity held at each change notification so far.
    pub notify_log: Seq<u64>,
    /// Every event the entity has emitted, in emission order.
    pub events: Seq<u64>,
}

/// The part of the application state that queued tasks act on: the entities
/// and the count of tasks run so far.
pub ghost struct SimView {
    pub entities: Seq<EntityView>,
    pub completed: nat,
}

/// The weight of a task: itself, its actions, and all tasks it transitively
/// enqueues. Draining strictly consumes weight, which bounds the work a
/// drain performs.
pub open spec fn task_weight(t: TestTask) -> nat
    decreases t,
{
    1 + t.actions@.len() + tasks_weight(t.children@)
}

/// The summed weight of a queue of tasks.
pub open spec fn tasks_weight(q: Seq<TestTask>) -> nat
    decreases q,
{
    if q.len() == 0 {
        0
    } else {
        task_weight(q[0]) + tasks_weight(q.subrange(1, q.len() as int))
    }
}

/// The effect of one primitive action on the entities. An action aimed at a
/// missing or released entity does nothing.
pub open spec fn apply_action(ents: Seq<EntityView>, a: TaskAction) -> Seq<EntityView> {
    match a {
        TaskAction::Idle => ents,
        TaskAction::SetModel { model, value } => {
            if 0 <= model < ents.len() && ents[model as int].live {
                ents.update(
                    model as int,
                    EntityView {
                        value,
                        notify_log: ents[model as int].notify_log.push(value),
                        ..ents[model as int]
                    },
                )
            } else {
                ents
            }
        },
        TaskAction::NotifyModel { model } => {
            if 0 <= model < ents.len() && ents[model as int].live {
                ents.update(
                    model as int,
                    EntityView {
                        notify_log: ents[model as int].notify_log.push(ents[model as int].value),
                        ..ents[model as int]
                    },
                )
            } else {
                ents
            }
        },
        TaskAction::EmitEvent { model, event } => {
            if 0 <= model < ents.len() && ents[model as int].live {
                ents.update(
                    model as int,
                    EntityView { events: ents[model as int].events.push(event), ..ents[model as int] },
                )
            } else {
                ents
            }
        },
        TaskAction::ReleaseModel { model } => {
            if 0 <= model < ents.len() {
                ents.update(model as int, EntityView { live: false, ..ents[model as int] })
            } else {
                ents
            }
        },
    }
}

/// The effect of a list of actions, applied left to right.
pub open spec fn apply_actions(ents: Seq<EntityView>, acts: Seq<TaskAction>) -> Seq<EntityView>
    decreases acts.len(),
{
    if acts.len() == 0 {
        ents
    } else {
        apply_actions(apply_action(ents, acts[0]), acts.subrange(1, acts.len() as int))
    }
}

/// Running the first task of the queue: its actions are applied and its
/// children join the back of the queue.
pub open spec fn step_state(s: SimView, t: TestTask) -> SimView {
    SimView { entities: apply_actions(s.entities, t.actions@), completed: s.completed + 1 }
}

/// Draining the queue to quiescence: tasks run in order, and the tasks they
/// enqueue run too, until nothing is runnable. This is the meaning of
/// `run_until_parked`.
pub open spec fn run_queue(s: SimView, q: Seq<TestTask>) -> SimView
    decreases tasks_weight(q),
    via run_queue_decreases
{
    if q.len() == 0 {
        s
    } else {
        run_queue(step_state(s, q[0]), q.subrange(1, q.len() as int) + q[0].children@)
    }
}

#[via_fn]
proof fn run_queue_decreases(s: SimView, q: Seq<TestTask>) {
    if q.len() != 0 {
        let tail = q.subrange(1, q.len() as int);
        lemma_tasks_weight_concat(tail, q[0].children@);
        assert(tasks_weight(q) == task_weight(q[0]) + tasks_weight(tail));
        assert(task_weight(q[0]) == 1 + q[0].actions@.len() + tasks_weight(q[0].children@));
    }
}

/// Weight distributes over queue concatenation.
pub proof fn lemma_tasks_weight_concat(a: Seq<TestTask>, b: Seq<TestTask>)
    ensures
        tasks_weight(a + b) == tasks_weight(a) + tasks_weight(b),
    decreases a.len(),
{
    if a.len() == 0 {
        assert(a + b =~= b);
    } else {
        assert((a + b)[0] == a[0]);
        assert((a + b).subrange(1, (a + b).len() as int) =~= a.subrange(1, a.len() as int) + b);
        lemma_tasks_weight_concat(a.subrange(1, a.len() as int), b);
    }
}

/// The number of tasks in the queue, counting the tasks each one
/// transitively enqueues.
pub open spec fn task_count(t: TestTask) -> nat
    decreases t,
{
    1 + tasks_count(t.children@)
}

/// The summed task count of a queue.
pub open spec fn tasks_count(q: Seq<TestTask>) -> nat
    decreases q,
{
    if q.len() == 0 {
        0
    } else {
        task_count(q[0]) + tasks_count(q.subrange(1, q.len() as int))
    }
}

/// Task count distributes over queue concatenation.
pub proof fn lemma_tasks_count_concat(a: Seq<TestTask>, b: Seq<TestTask>)
    ensures
        tasks_count(a + b) == tasks_count(a) + tasks_count(b),
    decreases a.len(),
{
    if a.len() == 0 {
        assert(a + b =~= b);
    } else {
        assert((a + b)[0] == a[0]);
        assert((a + b).subrange(1, (a + b).len() as int) =~= a.subrange(1, a.len() as int) + b);
        lemma_tasks_count_concat(a.subrange(1, a.len() as int), b);
    }
}

/// Draining runs every task that is queued or transitively enqueued:
/// the completed count grows by exactly the queue's task count, and the
/// entities end in the drained state. With an empty queue the state does
/// not change at all, so a second drain right after a first one runs
/// nothing new.
pub proof fn lemma_run_queue_completed(s: SimView, q: Seq<TestTask>)
    ensures
        run_queue(s, q).completed == s.completed + tasks_count(q),
        q.len() == 0 ==> run_queue(s, q) == s,
    decreases tasks_weight(q),
{
    if q.len() != 0 {
        let tail = q.subrange(1, q.len() as int);
        lemma_tasks_weight_concat(tail, q[0].children@);
        lemma_tasks_count_concat(tail, q[0].children@);
        assert(tasks_weight(q) == task_weight(q[0]) + tasks_weight(tail));
        assert(task_weight(q[0]) == 1 + q[0].actions@.len() + tasks_weight(q[0].children@));
        assert(tasks_count(q) == task_count(q[0]) + tasks_count(tail));
        assert(task_count(q[0]) == 1 + tasks_count(q[0].children@));
        lemma_run_queue_completed(step_state(s, q[0]), tail + q[0].children@);
        assert(run_queue(s, q) == run_queue(step_state(s, q[0]), tail + q[0].children@));
    }
}

/// Actions keep the entity count, and an entity's histories only grow.
pub proof fn lemma_apply_action_frame(ents: Seq<EntityView>, a: TaskAction)
    ensures
        apply_action(ents, a).len() == ents.len(),
        forall|e: int| #![trigger apply_action(ents, a)[e]]
            0 <= e < ents.len() ==> apply_action(ents, a)[e].notify_log.len()
                >= ents[e].notify_log.len() && apply_action(ents, a)[e].events.len()
                >= ents[e].events.len(),
{
}

/// Action lists keep the entity count, and an entity's histories only grow.
pub proof fn lemma_apply_actions_frame(ents: Seq<EntityView>, acts: Seq<TaskAction>)
    ensures
        apply_actions(ents, acts).len() == ents.len(),
        forall|e: int| #![trigger apply_actions(ents, acts)[e]]
            0 <= e < ents.len() ==> apply_actions(ents, acts)[e].notify_log.len()
                >= ents[e].notify_log.len() && apply_actions(ents, acts)[e].events.len()
                >= ents[e].events.len(),
    decreases acts.len(),
{
    if acts.len() != 0 {
        lemma_apply_action_frame(ents, acts[0]);
        lemma_apply_actions_frame(apply_action(ents, acts[0]), acts.subrange(1, acts.len() as int));
    }
}

/// Draining is idempotent: a second drain right after a first one finds an
/// empty queue, runs nothing, and leaves the state exactly as it was.
pub proof fn lemma_run_queue_idempotent(s: SimView, q: Seq<TestTask>)
    ensures
        run_queue(run_queue(s, q), Seq::empty()) == run_queue(s, q),
{
}

impl TestDispatcher {
    /// A fresh dispatcher: nothing queued, nothing run, the clock at zero,
    /// and the default condition-wait budget of three seconds.
    pub fn new() -> (d: TestDispatcher)
        ensures
            d.queue@.len() == 0,
            d.completed@.len() == 0,
            d.drain_log@.len() == 0,
            d.time == 0,
            d.condition_timeout == 3000,
    {
        TestDispatcher {
            queue: Vec::new(),
            completed: Vec::new(),
            drain_log: Vec::new(),
            time: 0,
            condition_timeout: 3000,
        }
    }

    /// How many tasks are currently runnable.
    pub fn pending_tasks(&self) -> (n: usize)
        ensures
            n == self.queue@.len(),
    {
        self.queue.len()
    }

    /// How many tasks have run since the start of the test.
    pub fn completed_tasks(&self) -> (n: usize)
        ensures
            n == self.completed@.len(),
    {
        self.completed.len()
    }

    /// How many drains to quiescence have been performed.
    pub fn drain_count(&self) -> (n: usize)
        ensures
            n == self.drain_log@.len(),
    {
        self.drain_log.len()
    }

    /// The logical clock, in milliseconds.
    pub fn now(&self) -> (t: u64)
        ensures
            t == self.time,
    {
        self.time
    }

    /// Set the budget a condition wait gets before timing out. The budget
    /// is an explicit setting, not read from the environment, so tests
    /// stay deterministic.
    pub fn set_condition_timeout(&mut self, budget_ms: u64)
        ensures
            *final(self) == (TestDispatcher { condition_timeout: budget_ms, ..*old(self) }),
    {
        self.condition_timeout = budget_ms;
    }
}

impl TestTask {
    /// A task that performs the given actions and enqueues nothing.
    pub fn leaf(actions: Vec<TaskAction>) -> (t: TestTask)
        ensures
            t.actions@ == actions@,
            t.children@.len() == 0,
    {
        TestTask { actions, children: Vec::new() }
    }

    /// A task that performs the given actions and then enqueues the given
    /// tasks at the back of the queue.
    pub fn with_children(actions: Vec<TaskAction>, children: Vec<TestTask>) -> (t: TestTask)
        ensures
            t.actions@ == actions@,
            t.children@ == children@,
    {
        TestTask { actions, children }
    }
}

} // verus!

//! The test application context: entities, windows, platform state, and the
//! drain loop that runs the deterministic scheduler to quiescence.

use vstd::prelude::*;

use crate::input::{
    Action, AnyWindowHandle, Bounds, ClipboardItem, InputEvent, InputEventView, Point, Size,
    TestWindow, TestWindowView, TextSystem,
};
use crate::keystroke::{
    parse_keystroke_sequence, parse_keystrokes, Keystroke, KeystrokeView, Modifiers,
};
use crate::scheduler::{
    apply_action, apply_actions, run_queue, step_state, tasks_weight, EntityView, SimView,
    TaskAction, TestDispatcher, TestTask, lemma_tasks_weight_concat,
};

verus! {

/// A handle to an entity (a model) held by the context.
#[derive(Clone, Copy, Debug, PartialEq, Eq, Structural)]
pub struct Model {
    pub id: usize,
}

/// One entity: the value it holds, its notification history, and the events
/// it has emitted.
pub struct EntityRecord {
    /// False once the entity has been released.
    pub live: bool,
    pub value: u64,
    /// The value held at each change notification so far.
    pub notify_log: Vec<u64>,
    /// Every event emitted so far, in emission order.
    pub events: Vec<u64>,
}

impl View for EntityRecord {
    type V = EntityView;

    open spec fn view(&self) -> EntityView {
        EntityView {
            live: self.live,
            value: self.value,
            notify_log: self.notify_log@,
            events: self.events@,
        }
    }
}

/// The entity views of a record sequence.
pub open spec fn views_of(entities: Seq<EntityRecord>) -> Seq<EntityView> {
    entities.map_values(|r: EntityRecord| r@)
}

/// The scheduler-visible part of a context: its entities and how many tasks
/// have run.
pub open spec fn sim_of(entities: Seq<EntityRecord>, completed: nat) -> SimView {
    SimView { entities: views_of(entities), completed }
}

/// The test-time application context. It owns the application state — the
/// entities, the windows, the platform pieces a test inspects — together
/// with the deterministic dispatcher that runs deferred work.
pub struct TestAppContext {
    pub dispatcher: TestDispatcher,
    pub entities: Vec<EntityRecord>,
    pub windows: Vec<TestWindow>,
    /// The global values, keyed by global number; each key at most once.
    pub globals: Vec<(u64, u64)>,
    pub clipboard: Option<ClipboardItem>,
    /// The button labels of the open alert dialog, if one is open.
    pub pending_prompt: Option<Vec<String>>,
    /// The button chosen for each answered alert dialog, in order.
    pub prompt_answers: Vec<usize>,
    /// The directory of the open "save as" dialog, if one is open.
    pub pending_path_prompt: Option<String>,
    /// True once any "save as" dialog has been opened.
    pub path_prompted: bool,
    /// The selection made for each answered "save as" dialog, in order.
    pub path_selections: Vec<Option<String>>,
    /// Every URL opened during the test, in order.
    pub opened_urls: Vec<String>,
    pub active_window: Option<AnyWindowHandle>,
    /// True once the test has ended and the context has shut down.
    pub quitting: bool,
    pub fn_name: Option<String>,
    pub name: Option<String>,
    pub text_system: TextSystem,
}

impl TestAppContext {
    /// The context is well formed: each global key occurs at most once.
    pub open spec fn wf(&self) -> bool {
        forall|i: int, j: int|
            0 <= i < j < self.globals@.len() ==> self.globals@[i].0 != self.globals@[j].0
    }

    /// The scheduler-visible part of the context.
    pub open spec fn sim_view(&self) -> SimView {
        sim_of(self.entities@, self.dispatcher.completed@.len())
    }

    /// The entity the handle points at.
    pub open spec fn entity(&self, m: Model) -> EntityView {
        self.entities@[m.id as int]@
    }

    /// The handle points at an entity of this context.
    pub open spec fn has_model(&self, m: Model) -> bool {
        m.id < self.entities@.len()
    }

    /// The windows of the context, as views.
    pub open spec fn window_views(&self) -> Seq<TestWindowView> {
        self.windows@.map_values(|w: TestWindow| w@)
    }

    /// The handle points at a window of this context.
    pub open spec fn has_window(&self, h: AnyWindowHandle) -> bool {
        h.id < self.windows@.len()
    }

    /// The window the handle points at.
    pub open spec fn window(&self, h: AnyWindowHandle) -> TestWindowView {
        self.windows@[h.id as int]@
    }

    /// A fresh context over the given dispatcher, named after the test
    /// function that created it. Nothing is open, held or queued.
    pub fn new(dispatcher: TestDispatcher, fn_name: Option<String>) -> (cx: TestAppContext)
        ensures
            cx.wf(),
            cx.dispatcher == dispatcher,
            cx.entities@.len() == 0,
            cx.windows@.len() == 0,
            cx.globals@.len() == 0,
            cx.clipboard is None,
            cx.pending_prompt is None,
            cx.prompt_answers@.len() == 0,
            cx.pending_path_prompt is None,
            !cx.path_prompted,
            cx.path_selections@.len() == 0,
            cx.opened_urls@.len() == 0,
            cx.active_window is None,
            !cx.quitting,
            fn_name matches Some(n) ==> (cx.fn_name matches Some(m) && m@ == n@),
            fn_name is None ==> cx.fn_name is None,
            cx.name is None,
    {
        TestAppContext {
            dispatcher,
            entities: Vec::new(),
            windows: Vec::new(),
            globals: Vec::new(),
            clipboard: None,
            pending_prompt: None,
            prompt_answers: Vec::new(),
            pending_path_prompt: None,
            path_prompted: false,
            path_selections: Vec::new(),
            opened_urls: Vec::new(),
            active_window: None,
            quitting: false,
            fn_name,
            name: None,
            text_system: TextSystem { font_family: String::new() },
        }
    }

    /// Create an entity holding the given value. No notification is sent
    /// for the creation itself.
    pub fn new_model(&mut self, value: u64) -> (m: Model)
        ensures
            m.id == old(self).entities@.len(),
            views_of(final(self).entities@) == views_of(old(self).entities@).push(
                EntityView { live: true, value, notify_log: Seq::empty(), events: Seq::empty() },
            ),
            *final(self) == (TestAppContext { entities: final(self).entities, ..*old(self) }),
    {
        let id = self.entities.len();
        self.entities.push(
            EntityRecord { live: true, value, notify_log: Vec::new(), events: Vec::new() },
        );
        proof {
            assert(views_of(self.entities@) =~= views_of(old(self).entities@).push(
                EntityView { live: true, value, notify_log: Seq::empty(), events: Seq::empty() },
            ));
        }
        Model { id }
    }

    /// Read the value an entity holds.
    pub fn read_model(&self, m: &Model) -> (v: u64)
        requires
            self.has_model(*m),
            self.entity(*m).live,
        ensures
            v == self.entity(*m).value,
    {
        self.entities[m.id].value
    }

    /// True while the entity has not been released.
    pub fn model_is_live(&self, m: &Model) -> (r: bool)
        requires
            self.has_model(*m),
        ensures
            r == self.entity(*m).live,
    {
        self.entities[m.id].live
    }

    /// How many change notifications the entity has sent so far.
    pub fn notification_count(&self, m: &Model) -> (n: usize)
        requires
            self.has_model(*m),
        ensures
            n == self.entity(*m).notify_log.len(),
    {
        self.entities[m.id].notify_log.len()
    }

    /// Overwrite the value an entity holds and notify its observers. The
    /// observers see the change at once: the notification carries the new
    /// value into the entity's history.
    pub fn update_model(&mut self, m: &Model, value: u64)
        requires
            old(self).has_model(*m),
            old(self).entity(*m).live,
        ensures
            views_of(final(self).entities@) == apply_action(
                views_of(old(self).entities@),
                TaskAction::SetModel { model: m.id, value },
            ),
            *final(self) == (TestAppContext { entities: final(self).entities, ..*old(self) }),
    {
        apply_one(&mut self.entities, TaskAction::SetModel { model: m.id, value });
    }

    /// Emit an event from the entity. Events buffer without bound: emission
    /// never waits for a consumer.
    pub fn emit(&mut self, m: &Model, event: u64)
        requires
            old(self).has_model(*m),
            old(self).entity(*m).live,
        ensures
            views_of(final(self).entities@) == apply_action(
                views_of(old(self).entities@),
                TaskAction::EmitEvent { model: m.id, event },
            ),
            *final(self) == (TestAppContext { entities: final(self).entities, ..*old(self) }),
    {
        apply_one(&mut self.entities, TaskAction::EmitEvent { model: m.id, event });
    }

    /// Release the entity. Its notification streams close; no further
    /// notification or event is ever delivered for it.
    pub fn release_model(&mut self, m: &Model)
        requires
            old(self).has_model(*m),
        ensures
            views_of(final(self).entities@) == apply_action(
                views_of(old(self).entities@),
                TaskAction::ReleaseModel { model: m.id },
            ),
            *final(self) == (TestAppContext { entities: final(self).entities, ..*old(self) }),
    {
        apply_one(&mut self.entities, TaskAction::ReleaseModel { model: m.id });
    }

    /// Enqueue a unit of deferred work at the back of the queue. It runs on
    /// the next drain.
    pub fn spawn(&mut self, task: TestTask)
        ensures
            final(self).dispatcher == (TestDispatcher {
                queue: final(self).dispatcher.queue,
                ..old(self).dispatcher
            }),
            final(self).dispatcher.queue@ == old(self).dispatcher.queue@.push(task),
            *final(self) == (TestAppContext { dispatcher: final(self).dispatcher, ..*old(self) }),
    {
        self.dispatcher.queue.push(task);
    }

    /// The executor that runs background-labelled work. In the harness all
    /// work is drained on one queue, so this is the dispatcher itself.
    pub fn executor(&self) -> (d: &TestDispatcher)
        ensures
            d == &self.dispatcher,
    {
        &self.dispatcher
    }

    /// The executor that runs main-thread work: the same dispatcher.
    pub fn foreground_executor(&self) -> (d: &TestDispatcher)
        ensures
            d == &self.dispatcher,
    {
        &self.dispatcher
    }

    /// Run every queued task, and every task those tasks enqueue, until
    /// nothing is runnable. The call returns only with an empty queue: a
    /// fixed point, not a single pass. It never waits on wall-clock time.
    pub fn run_until_parked(&mut self)
        ensures
            final(self).sim_view() == run_queue(
                old(self).sim_view(),
                old(self).dispatcher.queue@,
            ),
            final(self).dispatcher.queue@.len() == 0,
            final(self).dispatcher.time == old(self).dispatcher.time,
            final(self).dispatcher.condition_timeout == old(self).dispatcher.condition_timeout,
            final(self).dispatcher.drain_log@.len() == old(self).dispatcher.drain_log@.len() + 1,
            final(self).dispatcher.drain_log@.drop_last() == old(self).dispatcher.drain_log@,
            final(self).dispatcher.drain_log@.last() == final(self).dispatcher.completed@.len()
                - old(self).dispatcher.completed@.len(),
            *final(self) == (TestAppContext {
                dispatcher: final(self).dispatcher,
                entities: final(self).entities,
                ..*old(self)
            }),
    {
        let start = self.dispatcher.completed.len();
        drain(&mut self.dispatcher, &mut self.entities);
        let executed = self.dispatcher.completed.len() - start;
        self.dispatcher.drain_log.push(executed);
    }
}

/// The map a list of global entries stands for. Later entries win, though
/// a well-formed context never holds a key twice.
pub open spec fn globals_map(s: Seq<(u64, u64)>) -> Map<u64, u64>
    decreases s.len(),
{
    if s.len() == 0 {
        Map::empty()
    } else {
        globals_map(s.drop_last()).insert(s.last().0, s.last().1)
    }
}

/// A key is in the map exactly when some entry holds it.
pub proof fn lemma_globals_map_dom(s: Seq<(u64, u64)>, k: u64)
    ensures
        globals_map(s).dom().contains(k) <==> exists|i: int| 0 <= i < s.len() && s[i].0 == k,
    decreases s.len(),
{
    if s.len() != 0 {
        lemma_globals_map_dom(s.drop_last(), k);
        if globals_map(s).dom().contains(k) && s.last().0 != k {
            let i = choose|i: int| 0 <= i < s.drop_last().len() && s.drop_last()[i].0 == k;
            assert(s[i].0 == k);
        }
        if exists|i: int| 0 <= i < s.len() && s[i].0 == k {
            let i = choose|i: int| 0 <= i < s.len() && s[i].0 == k;
            if i < s.len() - 1 {
                assert(s.drop_last()[i].0 == k);
            }
        }
    }
}

/// With no key twice, the entry at any index gives the map's value there.
pub proof fn lemma_globals_map_index(s: Seq<(u64, u64)>, i: int)
    requires
        forall|p: int, q: int| 0 <= p < q < s.len() ==> s[p].0 != s[q].0,
        0 <= i < s.len(),
    ensures
        globals_map(s).dom().contains(s[i].0),
        globals_map(s)[s[i].0] == s[i].1,
    decreases s.len(),
{
    if i == s.len() - 1 {
    } else {
        lemma_globals_map_index(s.drop_last(), i);
        assert(s.drop_last()[i] == s[i]);
        assert(s.last().0 != s[i].0);
    }
}

/// Replacing the entry that holds a key updates the map at that key alone.
pub proof fn lemma_globals_map_update(s: Seq<(u64, u64)>, i: int, v: u64)
    requires
        forall|p: int, q: int| 0 <= p < q < s.len() ==> s[p].0 != s[q].0,
        0 <= i < s.len(),
    ensures
        globals_map(s.update(i, (s[i].0, v))) =~= globals_map(s).insert(s[i].0, v),
    decreases s.len(),
{
    let t = s.update(i, (s[i].0, v));
    if i == s.len() - 1 {
        assert(t.drop_last() =~= s.drop_last());
    } else {
        lemma_globals_map_update(s.drop_last(), i, v);
        assert(t.drop_last() =~= s.drop_last().update(i, (s[i].0, v)));
        assert(s.drop_last()[i] == s[i]);
        assert(t.last() == s.last());
        assert(s.last().0 != s[i].0);
    }
}

/// Every entity of the sequence, released.
pub open spec fn released_views(es: Seq<EntityView>) -> Seq<EntityView> {
    es.map_values(|e: EntityView| EntityView { live: false, ..e })
}

impl TestAppContext {
    /// The value of a global, as the map the globals stand for gives it.
    pub open spec fn global_of(&self, id: u64) -> u64 {
        globals_map(self.globals@)[id]
    }

    /// True if the given global is defined.
    pub fn has_global(&self, id: u64) -> (r: bool)
        requires
            self.wf(),
        ensures
            r == globals_map(self.globals@).dom().contains(id),
    {
        let n = self.globals.len();
        let mut i: usize = 0;
        while i < n
            invariant
                i <= n,
                n == self.globals@.len(),
                forall|j: int| 0 <= j < i ==> self.globals@[j].0 != id,
            decreases n - i,
        {
            if self.globals[i].0 == id {
                proof {
                    lemma_globals_map_dom(self.globals@, id);
                }
                return true;
            }
            i = i + 1;
        }
        proof {
            lemma_globals_map_dom(self.globals@, id);
        }
        false
    }

    /// Read a global that is defined.
    pub fn read_global(&self, id: u64) -> (v: u64)
        requires
            self.wf(),
            globals_map(self.globals@).dom().contains(id),
        ensures
            v == self.global_of(id),
    {
        let n = self.globals.len();
        let mut i: usize = 0;
        proof {
            lemma_globals_map_dom(self.globals@, id);
        }
        while i < n
            invariant
                i <= n,
                n == self.globals@.len(),
                self.wf(),
                exists|j: int| i <= j < n && self.globals@[j].0 == id,
            decreases n - i,
        {
            if self.globals[i].0 == id {
                proof {
                    lemma_globals_map_index(self.globals@, i as int);
                }
                return self.globals[i].1;
            }
            i = i + 1;
        }
        proof {
            assert(false);
        }
        0
    }

    /// Read a global if it is defined.
    pub fn try_read_global(&self, id: u64) -> (r: Option<u64>)
        requires
            self.wf(),
        ensures
            r is Some <==> globals_map(self.globals@).dom().contains(id),
            r matches Some(v) ==> v == self.global_of(id),
    {
        if self.has_global(id) {
            Some(self.read_global(id))
        } else {
            None
        }
    }

    /// Define or overwrite a global.
    pub fn set_global(&mut self, id: u64, value: u64)
        requires
            old(self).wf(),
        ensures
            final(self).wf(),
            globals_map(final(self).globals@) == globals_map(old(self).globals@).insert(id, value),
            *final(self) == (TestAppContext { globals: final(self).globals, ..*old(self) }),
    {
        let n = self.globals.len();
        let mut i: usize = 0;
        while i < n
            invariant
                i <= n,
                n == self.globals@.len(),
                *self == *old(self),
                self.wf(),
                forall|j: int| 0 <= j < i ==> self.globals@[j].0 != id,
            decreases n - i,
        {
            if self.globals[i].0 == id {
                proof {
                    lemma_globals_map_update(self.globals@, i as int, value);
                }
                let r = vstd::std_specs::vec::vec_index_mut(&mut self.globals, i);
                r.1 = value;
                proof {
                    assert(self.globals@ =~= old(self).globals@.update(
                        i as int,
                        (old(self).globals@[i as int].0, value),
                    ));
                }
                return ;
            }
            i = i + 1;
        }
        self.globals.push((id, value));
        proof {
            assert(self.globals@.drop_last() =~= old(self).globals@);
        }
    }

    /// Update a defined global with the given function and return the new
    /// value.
    pub fn update_global<F: Fn(u64) -> u64>(&mut self, id: u64, f: F) -> (r: u64)
        requires
            old(self).wf(),
            globals_map(old(self).globals@).dom().contains(id),
            call_requires(f, (globals_map(old(self).globals@)[id],)),
        ensures
            final(self).wf(),
            call_ensures(f, (globals_map(old(self).globals@)[id],), r),
            globals_map(final(self).globals@) == globals_map(old(self).globals@).insert(id, r),
            *final(self) == (TestAppContext { globals: final(self).globals, ..*old(self) }),
    {
        let v = self.read_global(id);
        let new_value = f(v);
        self.set_global(id, new_value);
        new_value
    }
}

impl TestAppContext {
    /// The name of the test function that created this context.
    pub fn test_function_name(&self) -> (r: &Option<String>)
        ensures
            r == &self.fn_name,
    {
        &self.fn_name
    }

    /// Set a name for this context.
    pub fn set_name(&mut self, name: String)
        ensures
            final(self).name matches Some(n) && n@ == name@,
            *final(self) == (TestAppContext { name: final(self).name, ..*old(self) }),
    {
        self.name = Some(name);
    }

    /// The text system the windows share.
    pub fn text_system(&self) -> (r: &TextSystem)
        ensures
            r == &self.text_system,
    {
        &self.text_system
    }

    /// A fresh context that interleaves with this one: same test name, same
    /// condition-wait budget, nothing yet held or queued.
    pub fn new_app(&self) -> (cx: TestAppContext)
        ensures
            cx.wf(),
            cx.entities@.len() == 0,
            cx.windows@.len() == 0,
            cx.dispatcher.queue@.len() == 0,
            cx.dispatcher.completed@.len() == 0,
            cx.dispatcher.condition_timeout == self.dispatcher.condition_timeout,
            self.fn_name matches Some(n) ==> (cx.fn_name matches Some(m) && m@ == n@),
            self.fn_name is None ==> cx.fn_name is None,
    {
        let mut dispatcher = TestDispatcher::new();
        let budget = self.dispatcher.condition_timeout;
        dispatcher.set_condition_timeout(budget);
        let fn_name = match &self.fn_name {
            Some(n) => Some(n.clone()),
            None => None,
        };
        TestAppContext::new(dispatcher, fn_name)
    }

    /// End the test: release every entity, close every window, and cancel
    /// everything still queued. Cancelled work never runs: the completed
    /// log is untouched.
    pub fn quit(&mut self)
        ensures
            final(self).quitting,
            final(self).windows@.len() == 0,
            final(self).dispatcher.queue@.len() == 0,
            final(self).dispatcher == (TestDispatcher {
                queue: final(self).dispatcher.queue,
                ..old(self).dispatcher
            }),
            views_of(final(self).entities@) == released_views(views_of(old(self).entities@)),
            *final(self) == (TestAppContext {
                quitting: true,
                windows: final(self).windows,
                dispatcher: final(self).dispatcher,
                entities: final(self).entities,
                ..*old(self)
            }),
    {
        let n = self.entities.len();
        let mut i: usize = 0;
        while i < n
            invariant
                i <= n,
                n == self.entities@.len(),
                *self == (TestAppContext { entities: self.entities, ..*old(self) }),
                forall|j: int| 0 <= j < i ==> self.entities@[j]@ == (EntityView {
                    live: false,
                    ..old(self).entities@[j]@
                }),
                forall|j: int| i <= j < n ==> self.entities@[j] == old(self).entities@[j],
            decreases n - i,
        {
            let r = vstd::std_specs::vec::vec_index_mut(&mut self.entities, i);
            r.live = false;
            i = i + 1;
        }
        self.windows.clear();
        self.dispatcher.queue.clear();
        self.quitting = true;
        proof {
            assert(views_of(self.entities@) =~= released_views(views_of(old(self).entities@)));
        }
    }

    /// Simulate writing to the platform clipboard.
    pub fn write_to_clipboard(&mut self, item: ClipboardItem)
        ensures
            final(self).clipboard == Some(item),
            *final(self) == (TestAppContext { clipboard: final(self).clipboard, ..*old(self) }),
    {
        self.clipboard = Some(item);
    }

    /// Simulate reading from the platform clipboard: the most recent value
    /// written, if any.
    pub fn read_from_clipboard(&self) -> (r: Option<&ClipboardItem>)
        ensures
            self.clipboard matches Some(c) ==> (r matches Some(rc) && *rc == c),
            self.clipboard is None ==> r is None,
    {
        match &self.clipboard {
            Some(c) => Some(c),
            None => None,
        }
    }

    /// Open a URL with the platform. The harness records it instead of
    /// launching anything.
    pub fn open_url(&mut self, url: String)
        ensures
            final(self).opened_urls@ == old(self).opened_urls@.push(url),
            *final(self) == (TestAppContext { opened_urls: final(self).opened_urls, ..*old(self) }),
    {
        self.opened_urls.push(url);
    }

    /// The URL most recently opened during this test, if any.
    pub fn opened_url(&self) -> (r: Option<&String>)
        ensures
            self.opened_urls@.len() == 0 ==> r is None,
            self.opened_urls@.len() > 0 ==> (r matches Some(u) && *u == self.opened_urls@.last()),
    {
        let n = self.opened_urls.len();
        if n == 0 {
            None
        } else {
            Some(&self.opened_urls[n - 1])
        }
    }

    /// Open a platform-level alert dialog with the given button labels.
    /// Only one can be open at a time.
    pub fn prompt(&mut self, buttons: Vec<String>)
        requires
            old(self).pending_prompt is None,
        ensures
            final(self).pending_prompt == Some(buttons),
            *final(self) == (TestAppContext {
                pending_prompt: final(self).pending_prompt,
                ..*old(self)
            }),
    {
        self.pending_prompt = Some(buttons);
    }

    /// True if an alert dialog is open.
    pub fn has_pending_prompt(&self) -> (r: bool)
        ensures
            r == (self.pending_prompt is Some),
    {
        self.pending_prompt.is_some()
    }

    /// Simulate clicking a button of the open alert dialog.
    pub fn simulate_prompt_answer(&mut self, button_ix: usize)
        requires
            old(self).pending_prompt matches Some(b) && button_ix < b@.len(),
        ensures
            final(self).pending_prompt is None,
            final(self).prompt_answers@ == old(self).prompt_answers@.push(button_ix),
            *final(self) == (TestAppContext {
                pending_prompt: None,
                prompt_answers: final(self).prompt_answers,
                ..*old(self)
            }),
    {
        self.pending_prompt = None;
        self.prompt_answers.push(button_ix);
    }

    /// Open the platform's "save as" dialog over the given directory. Only
    /// one can be open at a time.
    pub fn prompt_for_new_path(&mut self, directory: String)
        requires
            old(self).pending_path_prompt is None,
        ensures
            final(self).pending_path_prompt == Some(directory),
            final(self).path_prompted,
            *final(self) == (TestAppContext {
                pending_path_prompt: final(self).pending_path_prompt,
                path_prompted: true,
                ..*old(self)
            }),
    {
        self.pending_path_prompt = Some(directory);
        self.path_prompted = true;
    }

    /// Whether any "save as" dialog has been opened during this test.
    pub fn did_prompt_for_new_path(&self) -> (r: bool)
        ensures
            r == self.path_prompted,
    {
        self.path_prompted
    }

    /// Simulate choosing a file in the open "save as" dialog; `None`
    /// cancels it.
    pub fn simulate_new_path_selection(&mut self, selection: Option<String>)
        requires
            old(self).pending_path_prompt is Some,
        ensures
            final(self).pending_path_prompt is None,
            final(self).path_selections@ == old(self).path_selections@.push(selection),
            *final(self) == (TestAppContext {
                pending_path_prompt: None,
                path_selections: final(self).path_selections,
                ..*old(self)
            }),
    {
        self.pending_path_prompt = None;
        self.path_selections.push(selection);
    }
}

/// The bounds of the simulated display. Windows open maximized to it.
pub open spec fn test_display_bounds() -> Bounds {
    Bounds { origin: Point { x: 0, y: 0 }, size: Size { width: 1024, height: 768 } }
}

impl TestAppContext {
    /// Every window of this context but the given one is unchanged.
    pub open spec fn other_windows_unchanged(&self, pre: &TestAppContext, h: AnyWindowHandle) -> bool {
        &&& self.windows@.len() == pre.windows@.len()
        &&& forall|j: int|
            0 <= j < pre.windows@.len() && j != h.id ==> self.windows@[j] == pre.windows@[j]
    }

    /// Open a window, maximized to the simulated display, whose root view
    /// is built from the given value. The new window becomes active.
    pub fn add_window(&mut self, root_value: u64) -> (h: AnyWindowHandle)
        ensures
            h.id == old(self).windows@.len(),
            final(self).window_views() == old(self).window_views().push(
                TestWindowView {
                    root_value,
                    title: None,
                    bounds: test_display_bounds(),
                    input_log: Seq::empty(),
                    action_log: Seq::empty(),
                    dirty: false,
                    should_close_verdict: None,
                },
            ),
            final(self).active_window == Some(h),
            *final(self) == (TestAppContext {
                windows: final(self).windows,
                active_window: final(self).active_window,
                ..*old(self)
            }),
    {
        let id = self.windows.len();
        let bounds = Bounds {
            origin: Point { x: 0, y: 0 },
            size: Size { width: 1024, height: 768 },
        };
        let w = TestWindow::new(root_value, bounds);
        self.windows.push(w);
        let h = AnyWindowHandle { id };
        self.active_window = Some(h);
        proof {
            assert(self.window_views() =~= old(self).window_views().push(
                TestWindowView {
                    root_value,
                    title: None,
                    bounds: test_display_bounds(),
                    input_log: Seq::empty(),
                    action_log: Seq::empty(),
                    dirty: false,
                    should_close_verdict: None,
                },
            ));
        }
        h
    }

    /// Handles to all open windows, in the order they were opened.
    pub fn windows(&self) -> (r: Vec<AnyWindowHandle>)
        ensures
            r@.len() == self.windows@.len(),
            forall|j: int| 0 <= j < r@.len() ==> r@[j].id == j,
    {
        let n = self.windows.len();
        let mut r: Vec<AnyWindowHandle> = Vec::new();
        let mut i: usize = 0;
        while i < n
            invariant
                i <= n,
                r@.len() == i,
                forall|j: int| 0 <= j < i ==> r@[j].id == j,
            decreases n - i,
        {
            r.push(AnyWindowHandle { id: i });
            i = i + 1;
        }
        r
    }

    /// The test window behind the given handle.
    pub fn test_window(&self, h: AnyWindowHandle) -> (w: &TestWindow)
        requires
            self.has_window(h),
        ensures
            *w == self.windows@[h.id as int],
    {
        &self.windows[h.id]
    }

    /// Simulate the user resizing the window to the new size.
    pub fn simulate_window_resize(&mut self, h: AnyWindowHandle, size: Size)
        requires
            old(self).has_window(h),
        ensures
            final(self).other_windows_unchanged(old(self), h),
            final(self).window(h) == (TestWindowView {
                bounds: Bounds { origin: old(self).window(h).bounds.origin, size },
                ..old(self).window(h)
            }),
            *final(self) == (TestAppContext { windows: final(self).windows, ..*old(self) }),
    {
        let w = vstd::std_specs::vec::vec_index_mut(&mut self.windows, h.id);
        w.bounds.size = size;
    }

    /// Set the window's title.
    pub fn set_window_title(&mut self, h: AnyWindowHandle, title: String)
        requires
            old(self).has_window(h),
        ensures
            final(self).other_windows_unchanged(old(self), h),
            final(self).window(h) == (TestWindowView {
                title: Some(title@),
                ..old(self).window(h)
            }),
            *final(self) == (TestAppContext { windows: final(self).windows, ..*old(self) }),
    {
        let w = vstd::std_specs::vec::vec_index_mut(&mut self.windows, h.id);
        w.title = Some(title);
    }

    /// Install the answer the window's should-close handler gives.
    pub fn on_should_close(&mut self, h: AnyWindowHandle, verdict: bool)
        requires
            old(self).has_window(h),
        ensures
            final(self).other_windows_unchanged(old(self), h),
            final(self).window(h) == (TestWindowView {
                should_close_verdict: Some(verdict),
                ..old(self).window(h)
            }),
            *final(self) == (TestAppContext { windows: final(self).windows, ..*old(self) }),
    {
        let w = vstd::std_specs::vec::vec_index_mut(&mut self.windows, h.id);
        w.should_close_verdict = Some(verdict);
    }

    /// Make the given window the active one, or none.
    pub fn set_active_window(&mut self, h: Option<AnyWindowHandle>)
        requires
            h matches Some(hh) ==> old(self).has_window(hh),
        ensures
            final(self).active_window == h,
            *final(self) == (TestAppContext { active_window: h, ..*old(self) }),
    {
        self.active_window = h;
    }

    /// Schedule every window to be redrawn.
    pub fn refresh(&mut self)
        ensures
            final(self).window_views() == old(self).window_views().map_values(
                |w: TestWindowView| TestWindowView { dirty: true, ..w },
            ),
            *final(self) == (TestAppContext { windows: final(self).windows, ..*old(self) }),
    {
        let n = self.windows.len();
        let mut i: usize = 0;
        while i < n
            invariant
                i <= n,
                n == self.windows@.len(),
                *self == (TestAppContext { windows: self.windows, ..*old(self) }),
                forall|j: int| 0 <= j < i ==> self.windows@[j]@ == (TestWindowView {
                    dirty: true,
                    ..old(self).windows@[j]@
                }),
                forall|j: int| i <= j < n ==> self.windows@[j] == old(self).windows@[j],
            decreases n - i,
        {
            let w = vstd::std_specs::vec::vec_index_mut(&mut self.windows, i);
            w.dirty = true;
            i = i + 1;
        }
        proof {
            assert(self.window_views() =~= old(self).window_views().map_values(
                |w: TestWindowView| TestWindowView { dirty: true, ..w },
            ));
        }
    }

    /// Dispatch a single keystroke through the window's input path. No
    /// drain happens here; composed input drains once at its end.
    pub fn dispatch_keystroke(&mut self, window: AnyWindowHandle, keystroke: Keystroke)
        requires
            old(self).has_window(window),
        ensures
            final(self).other_windows_unchanged(old(self), window),
            final(self).window(window) == (TestWindowView {
                input_log: old(self).window(window).input_log.push(
                    InputEventView::KeyDown { keystroke: keystroke@ },
                ),
                ..old(self).window(window)
            }),
            *final(self) == (TestAppContext { windows: final(self).windows, ..*old(self) }),
    {
        let ghost pre = self.window(window);
        let w = vstd::std_specs::vec::vec_index_mut(&mut self.windows, window.id);
        w.input_log.push(InputEvent::KeyDown { keystroke });
        proof {
            assert(self.window(window).input_log =~= pre.input_log.push(
                InputEventView::KeyDown { keystroke: keystroke@ },
            ));
        }
    }

    /// Feed one primitive input event through the window's input path and
    /// drain the scheduler once.
    pub fn simulate_event(&mut self, window: AnyWindowHandle, event: InputEvent)
        requires
            old(self).has_window(window),
        ensures
            final(self).other_windows_unchanged(old(self), window),
            final(self).window(window) == (TestWindowView {
                input_log: old(self).window(window).input_log.push(event@),
                ..old(self).window(window)
            }),
            final(self).sim_view() == run_queue(old(self).sim_view(), old(self).dispatcher.queue@),
            final(self).dispatcher.queue@.len() == 0,
            final(self).dispatcher.time == old(self).dispatcher.time,
            final(self).dispatcher.condition_timeout == old(self).dispatcher.condition_timeout,
            final(self).dispatcher.drain_log@.len() == old(self).dispatcher.drain_log@.len() + 1,
            *final(self) == (TestAppContext {
                windows: final(self).windows,
                dispatcher: final(self).dispatcher,
                entities: final(self).entities,
                ..*old(self)
            }),
    {
        let ghost pre = self.window(window);
        let w = vstd::std_specs::vec::vec_index_mut(&mut self.windows, window.id);
        w.input_log.push(event);
        proof {
            assert(self.window(window).input_log =~= pre.input_log.push(event@));
        }
        self.run_until_parked();
    }

    /// Dispatch an action to the window's focused node, then drain the
    /// scheduler to quiescence.
    pub fn dispatch_action(&mut self, window: AnyWindowHandle, action: Action)
        requires
            old(self).has_window(window),
        ensures
            final(self).other_windows_unchanged(old(self), window),
            final(self).window(window) == (TestWindowView {
                action_log: old(self).window(window).action_log.push(action),
                ..old(self).window(window)
            }),
            final(self).sim_view() == run_queue(old(self).sim_view(), old(self).dispatcher.queue@),
            final(self).dispatcher.queue@.len() == 0,
            final(self).dispatcher.time == old(self).dispatcher.time,
            final(self).dispatcher.condition_timeout == old(self).dispatcher.condition_timeout,
            final(self).dispatcher.drain_log@.len() == old(self).dispatcher.drain_log@.len() + 1,
            *final(self) == (TestAppContext {
                windows: final(self).windows,
                dispatcher: final(self).dispatcher,
                entities: final(self).entities,
                ..*old(self)
            }),
    {
        let w = vstd::std_specs::vec::vec_index_mut(&mut self.windows, window.id);
        w.action_log.push(action);
        self.run_until_parked();
    }
}

/// The key-down events a keystroke sequence dispatches, in order.
pub open spec fn key_down_events(ks: Seq<KeystrokeView>) -> Seq<InputEventView> {
    ks.map_values(|k: KeystrokeView| InputEventView::KeyDown { keystroke: k })
}

/// The keystrokes that typing a text dispatches: one per character, with no
/// modifiers held.
pub open spec fn char_keystrokes(s: Seq<char>) -> Seq<KeystrokeView> {
    s.map_values(|c: char| KeystrokeView { modifiers: Modifiers::none_spec(), key: seq![c] })
}

impl TestAppContext {
    /// Type a space-separated list of keystroke tokens, such as
    /// `cmd-p escape`, into the window. The primitives are dispatched in
    /// the order written, each through the same input path a platform
    /// event takes, and the scheduler is drained once after the whole
    /// sequence. A malformed token is a test-authoring error and is ruled
    /// out up front.
    pub fn simulate_keystrokes(&mut self, window: AnyWindowHandle, keystrokes: &str)
        requires
            old(self).has_window(window),
            parse_keystrokes(keystrokes@) is Some,
        ensures
            final(self).other_windows_unchanged(old(self), window),
            final(self).window(window) == (TestWindowView {
                input_log: old(self).window(window).input_log + key_down_events(
                    parse_keystrokes(keystrokes@)->0,
                ),
                ..old(self).window(window)
            }),
            final(self).sim_view() == run_queue(old(self).sim_view(), old(self).dispatcher.queue@),
            final(self).dispatcher.queue@.len() == 0,
            final(self).dispatcher.time == old(self).dispatcher.time,
            final(self).dispatcher.condition_timeout == old(self).dispatcher.condition_timeout,
            final(self).dispatcher.drain_log@.len() == old(self).dispatcher.drain_log@.len() + 1,
            *final(self) == (TestAppContext {
                windows: final(self).windows,
                dispatcher: final(self).dispatcher,
                entities: final(self).entities,
                ..*old(self)
            }),
    {
        let parsed = parse_keystroke_sequence(keystrokes);
        let mut v = match parsed {
            Ok(v) => v,
            Err(_) => {
                proof {
                    assert(false);
                }
                return ;
            },
        };
        let ghost total = parse_keystrokes(keystrokes@)->0;
        let ghost pre_log = self.window(window).input_log;
        proof {
            assert(total.subrange(0, 0) =~= Seq::<KeystrokeView>::empty());
            assert(key_down_events(Seq::empty()) =~= Seq::<InputEventView>::empty());
            assert(pre_log + key_down_events(total.subrange(0, 0)) =~= pre_log);
            assert(v@.map_values(|k: Keystroke| k@) =~= total.subrange(0, total.len() as int));
        }
        while v.len() != 0
            invariant
                v@.len() <= total.len(),
                v@.map_values(|k: Keystroke| k@) == total.subrange(
                    total.len() - v@.len(),
                    total.len() as int,
                ),
                self.has_window(window),
                self.other_windows_unchanged(old(self), window),
                self.window(window) == (TestWindowView {
                    input_log: pre_log + key_down_events(
                        total.subrange(0, total.len() - v@.len()),
                    ),
                    ..old(self).window(window)
                }),
                pre_log == old(self).window(window).input_log,
                *self == (TestAppContext { windows: self.windows, ..*old(self) }),
            decreases v@.len(),
        {
            let ghost k = total.len() - v@.len();
            let ghost rem = v@.map_values(|kk: Keystroke| kk@);
            let t = v.remove(0);
            proof {
                assert(rem[0] == total[k]);
                assert(t@ == total[k]);
                assert(v@.map_values(|kk: Keystroke| kk@) =~= rem.subrange(1, rem.len() as int));
                assert(v@.map_values(|kk: Keystroke| kk@) =~= total.subrange(
                    k + 1,
                    total.len() as int,
                ));
            }
            let ghost log_before = self.window(window).input_log;
            self.dispatch_keystroke(window, t);
            proof {
                assert(key_down_events(total.subrange(0, k + 1)) =~= key_down_events(
                    total.subrange(0, k),
                ).push(InputEventView::KeyDown { keystroke: total[k] }));
                assert(self.window(window).input_log =~= pre_log + key_down_events(
                    total.subrange(0, k + 1),
                ));
            }
        }
        proof {
            assert(total.subrange(0, total.len() as int) =~= total);
        }
        self.run_until_parked();
    }

    /// Type a text into the window, character by character, through the
    /// same input path a platform event takes, then drain the scheduler
    /// once.
    pub fn simulate_input(&mut self, window: AnyWindowHandle, input: &str)
        requires
            old(self).has_window(window),
        ensures
            final(self).other_windows_unchanged(old(self), window),
            final(self).window(window) == (TestWindowView {
                input_log: old(self).window(window).input_log + key_down_events(
                    char_keystrokes(input@),
                ),
                ..old(self).window(window)
            }),
            final(self).sim_view() == run_queue(old(self).sim_view(), old(self).dispatcher.queue@),
            final(self).dispatcher.queue@.len() == 0,
            final(self).dispatcher.time == old(self).dispatcher.time,
            final(self).dispatcher.condition_timeout == old(self).dispatcher.condition_timeout,
            final(self).dispatcher.drain_log@.len() == old(self).dispatcher.drain_log@.len() + 1,
            *final(self) == (TestAppContext {
                windows: final(self).windows,
                dispatcher: final(self).dispatcher,
                entities: final(self).entities,
                ..*old(self)
            }),
    {
        let ghost total = char_keystrokes(input@);
        let ghost pre_log = self.window(window).input_log;
        let n = input.unicode_len();
        let mut i: usize = 0;
        proof {
            assert(pre_log + key_down_events(total.subrange(0, 0)) =~= pre_log);
        }
        while i < n
            invariant
                i <= n,
                n == input@.len(),
                total == char_keystrokes(input@),
                self.has_window(window),
                self.other_windows_unchanged(old(self), window),
                self.window(window) == (TestWindowView {
                    input_log: pre_log + key_down_events(total.subrange(0, i as int)),
                    ..old(self).window(window)
                }),
                pre_log == old(self).window(window).input_log,
                *self == (TestAppContext { windows: self.windows, ..*old(self) }),
            decreases n - i,
        {
            let ch = input.substring_char(i, i + 1);
            let t = Keystroke { modifiers: Modifiers::none(), key: ch.to_owned() };
            proof {
                assert(ch@ =~= seq![input@[i as int]]);
                assert(t@ == total[i as int]);
            }
            self.dispatch_keystroke(window, t);
            proof {
                assert(key_down_events(total.subrange(0, i + 1)) =~= key_down_events(
                    total.subrange(0, i as int),
                ).push(InputEventView::KeyDown { keystroke: total[i as int] }));
                assert(self.window(window).input_log =~= pre_log + key_down_events(
                    total.subrange(0, i + 1),
                ));
            }
            i = i + 1;
        }
        proof {
            assert(total.subrange(0, total.len() as int) =~= total);
        }
        self.run_until_parked();
    }
}

/// Apply one primitive task action to the entities. An action aimed at a
/// missing or released entity does nothing.
fn apply_one(entities: &mut Vec<EntityRecord>, a: TaskAction)
    ensures
        views_of(final(entities)@) == apply_action(views_of(old(entities)@), a),
{
    let ghost pre = views_of(entities@);
    match a {
        TaskAction::Idle => {
            proof {
                assert(views_of(entities@) =~= apply_action(pre, a));
            }
        },
        TaskAction::SetModel { model, value } => {
            if model < entities.len() && entities[model].live {
                let r = vstd::std_specs::vec::vec_index_mut(entities, model);
                r.value = value;
                r.notify_log.push(value);
            }
            proof {
                assert(views_of(entities@) =~= apply_action(pre, a));
            }
        },
        TaskAction::NotifyModel { model } => {
            if model < entities.len() && entities[model].live {
                let r = vstd::std_specs::vec::vec_index_mut(entities, model);
                let v = r.value;
                r.notify_log.push(v);
            }
            proof {
                assert(views_of(entities@) =~= apply_action(pre, a));
            }
        },
        TaskAction::EmitEvent { model, event } => {
            if model < entities.len() && entities[model].live {
                let r = vstd::std_specs::vec::vec_index_mut(entities, model);
                r.events.push(event);
            }
            proof {
                assert(views_of(entities@) =~= apply_action(pre, a));
            }
        },
        TaskAction::ReleaseModel { model } => {
            if model < entities.len() {
                let r = vstd::std_specs::vec::vec_index_mut(entities, model);
                r.live = false;
            }
            proof {
                assert(views_of(entities@) =~= apply_action(pre, a));
            }
        },
    }
}

/// Apply a task's actions in order.
fn apply_task_actions(entities: &mut Vec<EntityRecord>, actions: &Vec<TaskAction>)
    ensures
        views_of(final(entities)@) == apply_actions(views_of(old(entities)@), actions@),
{
    let ghost all = actions@;
    let ghost start = views_of(entities@);
    let n = actions.len();
    proof {
        assert(all.subrange(0, n as int) =~= all);
    }
    let mut i: usize = 0;
    while i < n
        invariant
            i <= n,
            n == all.len(),
            actions@ == all,
            apply_actions(views_of(entities@), all.subrange(i as int, n as int))
                == apply_actions(start, all),
        decreases n - i,
    {
        let ghost pre = views_of(entities@);
        apply_one(entities, actions[i]);
        proof {
            let rest = all.subrange(i as int, n as int);
            assert(rest[0] == all[i as int]);
            assert(rest.subrange(1, rest.len() as int) =~= all.subrange(i + 1, n as int));
            assert(apply_actions(pre, rest) == apply_actions(
                apply_action(pre, all[i as int]),
                all.subrange(i + 1, n as int),
            ));
        }
        i = i + 1;
    }
    proof {
        assert(all.subrange(n as int, n as int) =~= Seq::<TaskAction>::empty());
        assert(apply_actions(views_of(entities@), Seq::empty()) == views_of(entities@));
    }
}

/// Run the task at the front of the queue: apply its actions and enqueue
/// its children at the back.
pub(crate) fn step_once(d: &mut TestDispatcher, entities: &mut Vec<EntityRecord>)
    requires
        old(d).queue@.len() > 0,
    ensures
        sim_of(final(entities)@, final(d).completed@.len()) == step_state(
            sim_of(old(entities)@, old(d).completed@.len()),
            old(d).queue@[0],
        ),
        final(d).queue@ == old(d).queue@.subrange(1, old(d).queue@.len() as int)
            + old(d).queue@[0].children@,
        final(d).completed@.len() == old(d).completed@.len() + 1,
        final(d).time == old(d).time,
        final(d).condition_timeout == old(d).condition_timeout,
        final(d).drain_log@ == old(d).drain_log@,
{
    let ghost pre_q = d.queue@;
    let t = d.queue.remove(0);
    apply_task_actions(entities, &t.actions);
    d.completed.push(t.actions.len());
    let mut children = t.children;
    d.queue.append(&mut children);
    proof {
        let tail = pre_q.subrange(1, pre_q.len() as int);
        assert(pre_q.remove(0) =~= tail);
        assert(d.queue@ =~= tail + pre_q[0].children@);
    }
}

/// Drain the queue: run tasks in order, enqueueing what they spawn, until
/// the queue is empty.
fn drain(d: &mut TestDispatcher, entities: &mut Vec<EntityRecord>)
    ensures
        sim_of(final(entities)@, final(d).completed@.len()) == run_queue(
            sim_of(old(entities)@, old(d).completed@.len()),
            old(d).queue@,
        ),
        final(d).queue@.len() == 0,
        final(d).completed@.len() >= old(d).completed@.len(),
        final(d).time == old(d).time,
        final(d).condition_timeout == old(d).condition_timeout,
        final(d).drain_log@ == old(d).drain_log@,
{
    let ghost orig_sim = sim_of(entities@, d.completed@.len());
    let ghost orig_q = d.queue@;
    let ghost time0 = d.time;
    let ghost timeout0 = d.condition_timeout;
    let ghost drain_log0 = d.drain_log@;
    let ghost completed0 = d.completed@.len();
    while d.queue.len() != 0
        invariant
            run_queue(sim_of(entities@, d.completed@.len()), d.queue@) == run_queue(
                orig_sim,
                orig_q,
            ),
            d.completed@.len() >= completed0,
            d.time == time0,
            d.condition_timeout == timeout0,
            d.drain_log@ == drain_log0,
        decreases tasks_weight(d.queue@),
    {
        let ghost pre_sim = sim_of(entities@, d.completed@.len());
        let ghost pre_q = d.queue@;
        step_once(d, entities);
        proof {
            let tail = pre_q.subrange(1, pre_q.len() as int);
            assert(run_queue(pre_sim, pre_q) == run_queue(
                step_state(pre_sim, pre_q[0]),
                tail + pre_q[0].children@,
            ));
            lemma_tasks_weight_concat(tail, pre_q[0].children@);
            assert(tasks_weight(pre_q) == crate::scheduler::task_weight(pre_q[0])
                + tasks_weight(tail));
        }
    }
    proof {
        assert(run_queue(sim_of(entities@, d.completed@.len()), d.queue@) == sim_of(
            entities@,
            d.completed@.len(),
        ));
    }
}

} // verus!

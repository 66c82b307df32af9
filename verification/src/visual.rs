//! A context bound to one window, for window-specific test code.

use vstd::prelude::*;

use crate::app::{
    char_keystrokes, key_down_events, test_display_bounds, views_of, Model, TestAppContext,
};
use crate::input::{
    Action, AnyWindowHandle, Bounds, InputEvent, InputEventView, MouseButton, Point, Size,
    TestWindowView,
};
use crate::keystroke::{parse_keystrokes, Modifiers};
use crate::scheduler::{run_queue, EntityView, SimView};

verus! {

/// A test context bound to one window. It owns the application context and
/// addresses every simulation at its window.
pub struct VisualTestContext {
    /// The underlying application context.
    pub cx: TestAppContext,
    /// The window this context is bound to.
    pub window: AnyWindowHandle,
}

impl VisualTestContext {
    /// The bound window is a window of the owned context.
    pub open spec fn wf(&self) -> bool {
        self.cx.has_window(self.window_handle())
    }

    /// The handle of the bound window.
    pub open spec fn window_handle(&self) -> AnyWindowHandle {
        self.window
    }

    /// The view of the bound window.
    pub open spec fn bound_window(&self) -> TestWindowView {
        self.cx.window(self.window)
    }

    /// Bind a context to one of its windows. The context moves in; the
    /// bound context is used in its place for the rest of the test.
    pub fn from_window(window: AnyWindowHandle, cx: TestAppContext) -> (vcx: VisualTestContext)
        requires
            cx.has_window(window),
        ensures
            vcx.cx == cx,
            vcx.window_handle() == window,
            vcx.wf(),
    {
        VisualTestContext { cx, window }
    }

    /// The handle of the window this context is bound to.
    pub fn handle(&self) -> (h: AnyWindowHandle)
        ensures
            h == self.window_handle(),
    {
        self.window
    }

    /// Run every queued task, and every task those tasks enqueue, until
    /// nothing is runnable.
    pub fn run_until_parked(&mut self)
        ensures
            final(self).window_handle() == old(self).window_handle(),
            final(self).cx.sim_view() == run_queue(
                old(self).cx.sim_view(),
                old(self).cx.dispatcher.queue@,
            ),
            final(self).cx.dispatcher.queue@.len() == 0,
            final(self).cx.dispatcher.drain_log@.len() == old(self).cx.dispatcher.drain_log@.len()
                + 1,
            *final(self) == (VisualTestContext {
                cx: (TestAppContext {
                    dispatcher: final(self).cx.dispatcher,
                    entities: final(self).cx.entities,
                    ..old(self).cx
                }),
                ..*old(self)
            }),
    {
        self.cx.run_until_parked();
    }

    /// Dispatch an action to the window's focused node, then drain the
    /// scheduler to quiescence.
    pub fn dispatch_action(&mut self, action: Action)
        requires
            old(self).wf(),
        ensures
            final(self).window_handle() == old(self).window_handle(),
            final(self).wf(),
            final(self).cx.other_windows_unchanged(&old(self).cx, old(self).window_handle()),
            final(self).bound_window() == (TestWindowView {
                action_log: old(self).bound_window().action_log.push(action),
                ..old(self).bound_window()
            }),
            final(self).cx.sim_view() == run_queue(
                old(self).cx.sim_view(),
                old(self).cx.dispatcher.queue@,
            ),
            final(self).cx.dispatcher.queue@.len() == 0,
            *final(self) == (VisualTestContext {
                cx: (TestAppContext {
                    windows: final(self).cx.windows,
                    dispatcher: final(self).cx.dispatcher,
                    entities: final(self).cx.entities,
                    ..old(self).cx
                }),
                ..*old(self)
            }),
    {
        let h = self.window;
        self.cx.dispatch_action(h, action);
    }

    /// The window's title, if one has been set.
    pub fn window_title(&self) -> (r: Option<String>)
        requires
            self.wf(),
        ensures
            r is Some <==> self.bound_window().title is Some,
            r matches Some(t) ==> self.bound_window().title == Some(t@),
    {
        let w = self.cx.test_window(self.window);
        match &w.title {
            Some(t) => Some(t.clone()),
            None => None,
        }
    }

    /// Type a space-separated list of keystroke tokens, such as
    /// `cmd-p escape`, into the window, then drain the scheduler once.
    pub fn simulate_keystrokes(&mut self, keystrokes: &str)
        requires
            old(self).wf(),
            parse_keystrokes(keystrokes@) is Some,
        ensures
            final(self).window_handle() == old(self).window_handle(),
            final(self).wf(),
            final(self).cx.other_windows_unchanged(&old(self).cx, old(self).window_handle()),
            final(self).bound_window() == (TestWindowView {
                input_log: old(self).bound_window().input_log + key_down_events(
                    parse_keystrokes(keystrokes@)->0,
                ),
                ..old(self).bound_window()
            }),
            final(self).cx.sim_view() == run_queue(
                old(self).cx.sim_view(),
                old(self).cx.dispatcher.queue@,
            ),
            final(self).cx.dispatcher.queue@.len() == 0,
            *final(self) == (VisualTestContext {
                cx: (TestAppContext {
                    windows: final(self).cx.windows,
                    dispatcher: final(self).cx.dispatcher,
                    entities: final(self).cx.entities,
                    ..old(self).cx
                }),
                ..*old(self)
            }),
    {
        let h = self.window;
        self.cx.simulate_keystrokes(h, keystrokes);
    }

    /// Type a text into the window, character by character, then drain the
    /// scheduler once.
    pub fn simulate_input(&mut self, input: &str)
        requires
            old(self).wf(),
        ensures
            final(self).window_handle() == old(self).window_handle(),
            final(self).wf(),
            final(self).cx.other_windows_unchanged(&old(self).cx, old(self).window_handle()),
            final(self).bound_window() == (TestWindowView {
                input_log: old(self).bound_window().input_log + key_down_events(
                    char_keystrokes(input@),
                ),
                ..old(self).bound_window()
            }),
            final(self).cx.sim_view() == run_queue(
                old(self).cx.sim_view(),
                old(self).cx.dispatcher.queue@,
            ),
            final(self).cx.dispatcher.queue@.len() == 0,
            *final(self) == (VisualTestContext {
                cx: (TestAppContext {
                    windows: final(self).cx.windows,
                    dispatcher: final(self).cx.dispatcher,
                    entities: final(self).cx.entities,
                    ..old(self).cx
                }),
                ..*old(self)
            }),
    {
        let h = self.window;
        self.cx.simulate_input(h, input);
    }

    /// Feed one primitive input event through the window's input path and
    /// drain the scheduler once.
    pub fn simulate_event(&mut self, event: InputEvent)
        requires
            old(self).wf(),
        ensures
            final(self).window_handle() == old(self).window_handle(),
            final(self).wf(),
            final(self).cx.other_windows_unchanged(&old(self).cx, old(self).window_handle()),
            final(self).bound_window() == (TestWindowView {
                input_log: old(self).bound_window().input_log.push(event@),
                ..old(self).bound_window()
            }),
            final(self).cx.sim_view() == run_queue(
                old(self).cx.sim_view(),
                old(self).cx.dispatcher.queue@,
            ),
            final(self).cx.dispatcher.queue@.len() == 0,
            *final(self) == (VisualTestContext {
                cx: (TestAppContext {
                    windows: final(self).cx.windows,
                    dispatcher: final(self).cx.dispatcher,
                    entities: final(self).cx.entities,
                    ..old(self).cx
                }),
                ..*old(self)
            }),
    {
        let h = self.window;
        self.cx.simulate_event(h, event);
    }

    /// Simulate the mouse moving to the given position.
    pub fn simulate_mouse_move(
        &mut self,
        position: Point,
        button: Option<MouseButton>,
        modifiers: Modifiers,
    )
        requires
            old(self).wf(),
        ensures
            final(self).window_handle() == old(self).window_handle(),
            final(self).wf(),
            final(self).cx.other_windows_unchanged(&old(self).cx, old(self).window_handle()),
            final(self).bound_window() == (TestWindowView {
                input_log: old(self).bound_window().input_log.push(
                    InputEventView::MouseMove { position, pressed_button: button, modifiers },
                ),
                ..old(self).bound_window()
            }),
            final(self).cx.sim_view() == run_queue(
                old(self).cx.sim_view(),
                old(self).cx.dispatcher.queue@,
            ),
            final(self).cx.dispatcher.queue@.len() == 0,
            *final(self) == (VisualTestContext {
                cx: (TestAppContext {
                    windows: final(self).cx.windows,
                    dispatcher: final(self).cx.dispatcher,
                    entities: final(self).cx.entities,
                    ..old(self).cx
                }),
                ..*old(self)
            }),
    {
        self.simulate_event(
            InputEvent::MouseMove { position, pressed_button: button, modifiers },
        );
    }

    /// Simulate pressing a mouse button at the given position.
    pub fn simulate_mouse_down(&mut self, position: Point, button: MouseButton, modifiers: Modifiers)
        requires
            old(self).wf(),
        ensures
            final(self).window_handle() == old(self).window_handle(),
            final(self).wf(),
            final(self).cx.other_windows_unchanged(&old(self).cx, old(self).window_handle()),
            final(self).bound_window() == (TestWindowView {
                input_log: old(self).bound_window().input_log.push(
                    InputEventView::MouseDown {
                        position,
                        button,
                        modifiers,
                        click_count: 1,
                        first_mouse: false,
                    },
                ),
                ..old(self).bound_window()
            }),
            final(self).cx.sim_view() == run_queue(
                old(self).cx.sim_view(),
                old(self).cx.dispatcher.queue@,
            ),
            final(self).cx.dispatcher.queue@.len() == 0,
            *final(self) == (VisualTestContext {
                cx: (TestAppContext {
                    windows: final(self).cx.windows,
                    dispatcher: final(self).cx.dispatcher,
                    entities: final(self).cx.entities,
                    ..old(self).cx
                }),
                ..*old(self)
            }),
    {
        self.simulate_event(
            InputEvent::MouseDown { position, button, modifiers, click_count: 1, first_mouse: false },
        );
    }

    /// Simulate releasing a mouse button at the given position.
    pub fn simulate_mouse_up(&mut self, position: Point, button: MouseButton, modifiers: Modifiers)
        requires
            old(self).wf(),
        ensures
            final(self).window_handle() == old(self).window_handle(),
            final(self).wf(),
            final(self).cx.other_windows_unchanged(&old(self).cx, old(self).window_handle()),
            final(self).bound_window() == (TestWindowView {
                input_log: old(self).bound_window().input_log.push(
                    InputEventView::MouseUp { position, button, modifiers, click_count: 1 },
                ),
                ..old(self).bound_window()
            }),
            final(self).cx.sim_view() == run_queue(
                old(self).cx.sim_view(),
                old(self).cx.dispatcher.queue@,
            ),
            final(self).cx.dispatcher.queue@.len() == 0,
            *final(self) == (VisualTestContext {
                cx: (TestAppContext {
                    windows: final(self).cx.windows,
                    dispatcher: final(self).cx.dispatcher,
                    entities: final(self).cx.entities,
                    ..old(self).cx
                }),
                ..*old(self)
            }),
    {
        self.simulate_event(InputEvent::MouseUp { position, button, modifiers, click_count: 1 });
    }

    /// Simulate a primary-button click at the given position: a mouse-down
    /// then a mouse-up, each drained.
    pub fn simulate_click(&mut self, position: Point, modifiers: Modifiers)
        requires
            old(self).wf(),
        ensures
            final(self).window_handle() == old(self).window_handle(),
            final(self).wf(),
            final(self).cx.other_windows_unchanged(&old(self).cx, old(self).window_handle()),
            final(self).bound_window() == (TestWindowView {
                input_log: old(self).bound_window().input_log.push(
                    InputEventView::MouseDown {
                        position,
                        button: MouseButton::Left,
                        modifiers,
                        click_count: 1,
                        first_mouse: false,
                    },
                ).push(
                    InputEventView::MouseUp {
                        position,
                        button: MouseButton::Left,
                        modifiers,
                        click_count: 1,
                    },
                ),
                ..old(self).bound_window()
            }),
            final(self).cx.sim_view() == run_queue(
                old(self).cx.sim_view(),
                old(self).cx.dispatcher.queue@,
            ),
            final(self).cx.dispatcher.queue@.len() == 0,
            *final(self) == (VisualTestContext {
                cx: (TestAppContext {
                    windows: final(self).cx.windows,
                    dispatcher: final(self).cx.dispatcher,
                    entities: final(self).cx.entities,
                    ..old(self).cx
                }),
                ..*old(self)
            }),
    {
        self.simulate_mouse_down(position, MouseButton::Left, modifiers);
        self.simulate_mouse_up(position, MouseButton::Left, modifiers);
    }

    /// Simulate the held modifiers changing.
    pub fn simulate_modifiers_change(&mut self, modifiers: Modifiers)
        requires
            old(self).wf(),
        ensures
            final(self).window_handle() == old(self).window_handle(),
            final(self).wf(),
            final(self).cx.other_windows_unchanged(&old(self).cx, old(self).window_handle()),
            final(self).bound_window() == (TestWindowView {
                input_log: old(self).bound_window().input_log.push(
                    InputEventView::ModifiersChanged { modifiers },
                ),
                ..old(self).bound_window()
            }),
            final(self).cx.sim_view() == run_queue(
                old(self).cx.sim_view(),
                old(self).cx.dispatcher.queue@,
            ),
            final(self).cx.dispatcher.queue@.len() == 0,
            *final(self) == (VisualTestContext {
                cx: (TestAppContext {
                    windows: final(self).cx.windows,
                    dispatcher: final(self).cx.dispatcher,
                    entities: final(self).cx.entities,
                    ..old(self).cx
                }),
                ..*old(self)
            }),
    {
        self.simulate_event(InputEvent::ModifiersChanged { modifiers });
    }

    /// Simulate the user resizing the window to the new size.
    pub fn simulate_resize(&mut self, size: Size)
        requires
            old(self).wf(),
        ensures
            final(self).window_handle() == old(self).window_handle(),
            final(self).wf(),
            final(self).cx.other_windows_unchanged(&old(self).cx, old(self).window_handle()),
            final(self).bound_window() == (TestWindowView {
                bounds: Bounds { origin: old(self).bound_window().bounds.origin, size },
                ..old(self).bound_window()
            }),
            *final(self) == (VisualTestContext {
                cx: (TestAppContext { windows: final(self).cx.windows, ..old(self).cx }),
                ..*old(self)
            }),
    {
        let h = self.window;
        self.cx.simulate_window_resize(h, size);
    }

    /// Simulate the user blurring the window: if it is the active one,
    /// none is active afterwards; then drain the scheduler once.
    pub fn deactivate_window(&mut self)
        requires
            old(self).wf(),
        ensures
            final(self).window_handle() == old(self).window_handle(),
            final(self).wf(),
            old(self).cx.active_window == Some(old(self).window_handle())
                ==> final(self).cx.active_window is None,
            old(self).cx.active_window != Some(old(self).window_handle())
                ==> final(self).cx.active_window == old(self).cx.active_window,
            final(self).cx.sim_view() == run_queue(
                old(self).cx.sim_view(),
                old(self).cx.dispatcher.queue@,
            ),
            final(self).cx.dispatcher.queue@.len() == 0,
            *final(self) == (VisualTestContext {
                cx: (TestAppContext {
                    active_window: final(self).cx.active_window,
                    dispatcher: final(self).cx.dispatcher,
                    entities: final(self).cx.entities,
                    ..old(self).cx
                }),
                ..*old(self)
            }),
    {
        let is_active = match self.cx.active_window {
            Some(h) => h == self.window,
            None => false,
        };
        if is_active {
            self.cx.set_active_window(None);
        }
        self.cx.run_until_parked();
    }

    /// Simulate the user closing the window: the installed should-close
    /// handler answers, and stays installed; with no handler the window
    /// does not close. Returns whether the window closed.
    pub fn simulate_close(&mut self) -> (r: bool)
        requires
            old(self).wf(),
        ensures
            r == (old(self).bound_window().should_close_verdict == Some(true)),
            *final(self) == *old(self),
    {
        let w = self.cx.test_window(self.window);
        match w.should_close_verdict {
            Some(v) => v,
            None => false,
        }
    }
}

impl TestAppContext {
    /// Open an empty window and bind the context to it. The context moves
    /// into the bound one, which is used in its place; the scheduler is
    /// drained once.
    pub fn add_empty_window(self) -> (vcx: VisualTestContext)
        ensures
            vcx.wf(),
            vcx.window_handle().id == self.windows@.len(),
            vcx.cx.window_views() == self.window_views().push(
                TestWindowView {
                    root_value: 0,
                    title: None,
                    bounds: test_display_bounds(),
                    input_log: Seq::empty(),
                    action_log: Seq::empty(),
                    dirty: false,
                    should_close_verdict: None,
                },
            ),
            vcx.cx.sim_view() == run_queue(self.sim_view(), self.dispatcher.queue@),
            vcx.cx.dispatcher.queue@.len() == 0,
            vcx.cx == (TestAppContext {
                windows: vcx.cx.windows,
                active_window: Some(vcx.window_handle()),
                dispatcher: vcx.cx.dispatcher,
                entities: vcx.cx.entities,
                ..self
            }),
    {
        let mut cx = self;
        let h = cx.add_window(0);
        proof {
            assert(cx.window_views().len() == cx.windows@.len());
        }
        cx.run_until_parked();
        VisualTestContext::from_window(h, cx)
    }

    /// Open a window whose root view is built from the given value, create
    /// the entity holding that value, and bind the context to the window.
    /// The scheduler is drained once, so work already queued runs — and may
    /// act on the new entity.
    pub fn add_window_view(self, root_value: u64) -> (r: (Model, VisualTestContext))
        ensures
            r.1.wf(),
            r.0.id == self.entities@.len(),
            r.1.window_handle().id == self.windows@.len(),
            r.1.cx.window_views() == self.window_views().push(
                TestWindowView {
                    root_value,
                    title: None,
                    bounds: test_display_bounds(),
                    input_log: Seq::empty(),
                    action_log: Seq::empty(),
                    dirty: false,
                    should_close_verdict: None,
                },
            ),
            r.1.cx.sim_view() == run_queue(
                SimView {
                    entities: views_of(self.entities@).push(
                        EntityView {
                            live: true,
                            value: root_value,
                            notify_log: Seq::empty(),
                            events: Seq::empty(),
                        },
                    ),
                    completed: self.dispatcher.completed@.len(),
                },
                self.dispatcher.queue@,
            ),
            r.1.cx.dispatcher.queue@.len() == 0,
    {
        let mut cx = self;
        let m = cx.new_model(root_value);
        let h = cx.add_window(root_value);
        proof {
            assert(cx.window_views().len() == cx.windows@.len());
        }
        cx.run_until_parked();
        let vcx = VisualTestContext::from_window(h, cx);
        (m, vcx)
    }
}

} // verus!

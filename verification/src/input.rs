//! Synthetic input events, window geometry, and the test window itself.
//!
//! Positions and sizes are whole pixels. Every simulated event is appended
//! to the window's input log, the same path a platform event would take, so
//! tests can check exactly what was dispatched and in what order.

use vstd::prelude::*;

use crate::keystroke::{Keystroke, KeystrokeView, Modifiers};

verus! {

/// A position in the window, in pixels.
#[derive(Clone, Copy, Debug, PartialEq, Eq, Structural)]
pub struct Point {
    pub x: i64,
    pub y: i64,
}

/// A size, in pixels.
#[derive(Clone, Copy, Debug, PartialEq, Eq, Structural)]
pub struct Size {
    pub width: i64,
    pub height: i64,
}

/// A rectangle: its top-left corner and its size.
#[derive(Clone, Copy, Debug, PartialEq, Eq, Structural)]
pub struct Bounds {
    pub origin: Point,
    pub size: Size,
}

/// A mouse button.
#[derive(Clone, Copy, Debug, PartialEq, Eq, Structural)]
pub enum MouseButton {
    Left,
    Right,
    Middle,
}

/// An action dispatched to the focused node of a window, identified by a
/// registered action number.
#[derive(Clone, Copy, Debug, PartialEq, Eq, Structural)]
pub struct Action {
    pub id: u64,
}

/// What the platform clipboard holds.
pub struct ClipboardItem {
    pub text: String,
}

/// A handle to a window owned by the context.
#[derive(Clone, Copy, Debug, PartialEq, Eq, Structural)]
pub struct AnyWindowHandle {
    pub id: usize,
}

/// The text system handed to windows. The harness does no shaping or
/// rasterisation, so only the family name is kept.
pub struct TextSystem {
    pub font_family: String,
}

/// One primitive input event, as the platform would deliver it.
pub enum InputEvent {
    KeyDown { keystroke: Keystroke },
    MouseMove { position: Point, pressed_button: Option<MouseButton>, modifiers: Modifiers },
    MouseDown {
        position: Point,
        button: MouseButton,
        modifiers: Modifiers,
        click_count: usize,
        first_mouse: bool,
    },
    MouseUp { position: Point, button: MouseButton, modifiers: Modifiers, click_count: usize },
    ModifiersChanged { modifiers: Modifiers },
}

/// The mathematical form of an input event.
pub ghost enum InputEventView {
    KeyDown { keystroke: KeystrokeView },
    MouseMove { position: Point, pressed_button: Option<MouseButton>, modifiers: Modifiers },
    MouseDown {
        position: Point,
        button: MouseButton,
        modifiers: Modifiers,
        click_count: usize,
        first_mouse: bool,
    },
    MouseUp { position: Point, button: MouseButton, modifiers: Modifiers, click_count: usize },
    ModifiersChanged { modifiers: Modifiers },
}

impl View for InputEvent {
    type V = InputEventView;

    open spec fn view(&self) -> InputEventView {
        match self {
            InputEvent::KeyDown { keystroke } => (InputEventView::KeyDown { keystroke: keystroke@ }),
            InputEvent::MouseMove { position, pressed_button, modifiers } => (InputEventView::MouseMove {
                position: *position,
                pressed_button: *pressed_button,
                modifiers: *modifiers,
            }),
            InputEvent::MouseDown { position, button, modifiers, click_count, first_mouse } => (InputEventView::MouseDown {
                position: *position,
                button: *button,
                modifiers: *modifiers,
                click_count: *click_count,
                first_mouse: *first_mouse,
            }),
            InputEvent::MouseUp { position, button, modifiers, click_count } => (InputEventView::MouseUp {
                position: *position,
                button: *button,
                modifiers: *modifiers,
                click_count: *click_count,
            }),
            InputEvent::ModifiersChanged { modifiers } => (InputEventView::ModifiersChanged {
                modifiers: *modifiers,
            }),
        }
    }
}

/// A window of the test application. Everything the harness simulates on it
/// is recorded here as plain values.
pub struct TestWindow {
    /// The value the window's root view was built from.
    pub root_value: u64,
    /// The window title, once one has been set.
    pub title: Option<String>,
    pub bounds: Bounds,
    /// Every input event dispatched to the window, in dispatch order.
    pub input_log: Vec<InputEvent>,
    /// Every action dispatched to the window, in dispatch order.
    pub action_log: Vec<Action>,
    /// True while a redraw is pending.
    pub dirty: bool,
    /// What the window's should-close handler answers, if one is installed.
    pub should_close_verdict: Option<bool>,
}

/// The mathematical form of a test window.
pub ghost struct TestWindowView {
    pub root_value: u64,
    pub title: Option<Seq<char>>,
    pub bounds: Bounds,
    pub input_log: Seq<InputEventView>,
    pub action_log: Seq<Action>,
    pub dirty: bool,
    pub should_close_verdict: Option<bool>,
}

impl View for TestWindow {
    type V = TestWindowView;

    open spec fn view(&self) -> TestWindowView {
        TestWindowView {
            root_value: self.root_value,
            title: match self.title {
                Some(t) => Some(t@),
                None => None,
            },
            bounds: self.bounds,
            input_log: self.input_log@.map_values(|e: InputEvent| e@),
            action_log: self.action_log@,
            dirty: self.dirty,
            should_close_verdict: self.should_close_verdict,
        }
    }
}

impl TestWindow {
    /// A fresh window with the given root value and bounds: nothing
    /// dispatched yet, no title, not dirty, no should-close handler.
    pub fn new(root_value: u64, bounds: Bounds) -> (w: TestWindow)
        ensures
            w@ == (TestWindowView {
                root_value,
                title: None,
                bounds,
                input_log: Seq::empty(),
                action_log: Seq::empty(),
                dirty: false,
                should_close_verdict: None,
            }),
    {
        let w = TestWindow {
            root_value,
            title: None,
            bounds,
            input_log: Vec::new(),
            action_log: Vec::new(),
            dirty: false,
            should_close_verdict: None,
        };
        proof {
            assert(w@.input_log =~= Seq::<InputEventView>::empty());
        }
        w
    }
}

} // verus!

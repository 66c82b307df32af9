//! The platform pieces of the test context: clipboard, prompts, globals,
//! windows and window-bound simulation.

use testkit::app::TestAppContext;
use testkit::input::{Action, ClipboardItem, InputEvent, MouseButton, Point, Size};
use testkit::keystroke::Modifiers;
use testkit::scheduler::TestDispatcher;
use testkit::visual::VisualTestContext;

fn fresh_cx() -> TestAppContext {
    TestAppContext::new(TestDispatcher::new(), Some("context_tests".to_string()))
}

#[test]
fn clipboard_returns_the_most_recent_write() {
    let mut cx = fresh_cx();
    assert!(cx.read_from_clipboard().is_none());
    cx.write_to_clipboard(ClipboardItem { text: "first".to_string() });
    cx.write_to_clipboard(ClipboardItem { text: "second".to_string() });
    assert_eq!(cx.read_from_clipboard().unwrap().text, "second");
}

#[test]
fn opened_url_is_the_last_one() {
    let mut cx = fresh_cx();
    assert!(cx.opened_url().is_none());
    cx.open_url("https://zed.dev/terms-of-service".to_string());
    cx.open_url("https://zed.dev/blog/".to_string());
    assert_eq!(cx.opened_url().unwrap(), "https://zed.dev/blog/");
}

#[test]
fn prompts_are_answered_by_button_index() {
    let mut cx = fresh_cx();
    assert!(!cx.has_pending_prompt());
    cx.prompt(vec!["Cancel".to_string(), "Overwrite".to_string()]);
    assert!(cx.has_pending_prompt());
    cx.simulate_prompt_answer(1);
    assert!(!cx.has_pending_prompt());
    assert_eq!(cx.prompt_answers, vec![1]);
}

#[test]
fn path_prompts_record_the_selection() {
    let mut cx = fresh_cx();
    assert!(!cx.did_prompt_for_new_path());
    cx.prompt_for_new_path("/projects".to_string());
    assert!(cx.did_prompt_for_new_path());
    cx.simulate_new_path_selection(Some("/projects/new.txt".to_string()));
    assert_eq!(cx.path_selections, vec![Some("/projects/new.txt".to_string())]);
    // The flag keeps recording that a prompt was shown.
    assert!(cx.did_prompt_for_new_path());
}

#[test]
fn globals_are_set_read_and_updated() {
    let mut cx = fresh_cx();
    assert!(!cx.has_global(1));
    assert!(cx.try_read_global(1).is_none());

    cx.set_global(1, 10);
    cx.set_global(2, 20);
    assert!(cx.has_global(1));
    assert_eq!(cx.read_global(1), 10);
    assert_eq!(cx.try_read_global(2), Some(20));

    cx.set_global(1, 11);
    assert_eq!(cx.read_global(1), 11);

    let doubler = |v: u64| v * 2;
    let new_value = cx.update_global(2, doubler);
    assert_eq!(new_value, 40);
    assert_eq!(cx.read_global(2), 40);
}

#[test]
fn windows_open_resize_and_title() {
    let mut cx = fresh_cx();
    let w = cx.add_window(7);
    assert_eq!(cx.windows().len(), 1);
    assert_eq!(cx.test_window(w).root_value, 7);
    assert_eq!(cx.test_window(w).bounds.size.width, 1024);
    assert_eq!(cx.test_window(w).bounds.size.height, 768);
    assert_eq!(cx.active_window, Some(w));

    cx.simulate_window_resize(w, Size { width: 800, height: 600 });
    assert_eq!(cx.test_window(w).bounds.size.width, 800);

    cx.set_window_title(w, "Untitled".to_string());
    let vcx = VisualTestContext::from_window(w, cx);
    assert_eq!(vcx.window_title().unwrap(), "Untitled");
}

#[test]
fn dispatch_action_lands_before_the_drain() {
    let mut cx = fresh_cx();
    let w = cx.add_window(0);
    let drains_before = cx.executor().drain_count();
    cx.dispatch_action(w, Action { id: 9 });
    assert_eq!(cx.test_window(w).action_log, vec![Action { id: 9 }]);
    assert_eq!(cx.executor().drain_count(), drains_before + 1);
}

#[test]
fn mouse_events_take_the_input_path_in_order() {
    let cx = fresh_cx();
    let mut vcx = cx.add_empty_window();
    let p = Point { x: 10, y: 20 };
    let mods = Modifiers::none();

    vcx.simulate_mouse_move(p, None, mods);
    vcx.simulate_click(p, mods);
    vcx.simulate_modifiers_change(Modifiers { shift: true, ..Modifiers::none() });

    let handle = vcx.handle();
    let log = &vcx.cx.test_window(handle).input_log;
    assert_eq!(log.len(), 4);
    assert!(matches!(log[0], InputEvent::MouseMove { .. }));
    assert!(matches!(
        log[1],
        InputEvent::MouseDown { button: MouseButton::Left, click_count: 1, .. }
    ));
    assert!(matches!(
        log[2],
        InputEvent::MouseUp { button: MouseButton::Left, click_count: 1, .. }
    ));
    assert!(matches!(log[3], InputEvent::ModifiersChanged { .. }));
}

#[test]
fn deactivate_window_clears_the_active_window() {
    let cx = fresh_cx();
    let mut vcx = cx.add_empty_window();
    assert_eq!(vcx.cx.active_window, Some(vcx.handle()));
    vcx.deactivate_window();
    assert!(vcx.cx.active_window.is_none());
}

#[test]
fn simulate_close_asks_the_installed_handler() {
    let cx = fresh_cx();
    let mut vcx = cx.add_empty_window();
    // No handler: the window does not close.
    assert!(!vcx.simulate_close());

    let handle = vcx.handle();
    vcx.cx.on_should_close(handle, true);
    assert!(vcx.simulate_close());
    // The handler stays installed.
    assert!(vcx.simulate_close());

    vcx.cx.on_should_close(handle, false);
    assert!(!vcx.simulate_close());
}

#[test]
fn refresh_marks_every_window_dirty() {
    let mut cx = fresh_cx();
    let w1 = cx.add_window(1);
    let w2 = cx.add_window(2);
    assert!(!cx.test_window(w1).dirty);
    cx.refresh();
    assert!(cx.test_window(w1).dirty);
    assert!(cx.test_window(w2).dirty);
}

#[test]
fn quit_releases_everything_and_cancels_queued_work() {
    let mut cx = fresh_cx();
    let m = cx.new_model(1);
    cx.add_window(0);
    cx.spawn(testkit::scheduler::TestTask::leaf(vec![]));
    let completed_before = cx.executor().completed_tasks();

    cx.quit();

    assert!(cx.quitting);
    assert!(cx.windows().is_empty());
    assert!(!cx.model_is_live(&m));
    // Cancelled work never ran.
    assert_eq!(cx.executor().completed_tasks(), completed_before);
    assert_eq!(cx.executor().pending_tasks(), 0);
}

#[test]
fn new_app_shares_the_configuration_only() {
    let mut cx = fresh_cx();
    cx.dispatcher.set_condition_timeout(500);
    cx.new_model(1);
    let other = cx.new_app();
    assert_eq!(other.dispatcher.condition_timeout, 500);
    assert_eq!(other.entities.len(), 0);
    assert_eq!(
        other.fn_name.as_deref(),
        Some("context_tests")
    );
}

#[test]
fn names_are_recorded() {
    let mut cx = fresh_cx();
    assert_eq!(cx.test_function_name().as_deref(), Some("context_tests"));
    cx.set_name("renamed".to_string());
    assert_eq!(cx.name.as_deref(), Some("renamed"));
}

#[test]
fn add_window_view_creates_the_root_entity() {
    let cx = fresh_cx();
    let (m, vcx) = cx.add_window_view(9);
    assert_eq!(vcx.cx.read_model(&m), 9);
    assert_eq!(vcx.cx.test_window(vcx.handle()).root_value, 9);
}

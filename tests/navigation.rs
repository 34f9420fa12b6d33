use gitu::items::TargetData;
use gitu::ops::{key_context, Op, SubmenuOp};
use gitu::screen::{Item, Rect, Screen, ScreenKind};
use gitu::state::{Effect, Event, State};

fn size() -> Rect {
    Rect::new(0, 0, 80, 24)
}

fn file_item(path: &str) -> Item {
    Item {
        display: path.to_string(),
        target_data: Some(TargetData::File(path.to_string())),
    }
}

#[test]
fn create_opens_status_view() {
    let state = State::create(size(), None);
    assert_eq!(state.screens.len(), 1);
    assert_eq!(state.screens[0].kind, ScreenKind::Status);
    assert_eq!(state.screens[0].size, size());
    assert!(!state.quit);
    assert_eq!(state.pending_submenu_op, SubmenuOp::Base);
    assert!(state.cmd_meta_buffer.is_none());
    assert!(state.error_buffer.is_none());
    assert!(state.prompt.pending_op.is_none());
}

#[test]
fn create_with_reference_opens_show_view() {
    let state = State::create(size(), Some("HEAD~1".to_string()));
    assert_eq!(state.screens[0].kind, ScreenKind::Show("HEAD~1".to_string()));
}

#[test]
fn pop_keeps_stack_nonempty_until_last() {
    let mut state = State::create(size(), None);
    state.push_screen(Screen::create(ScreenKind::ShowRefs, size()));
    state.push_screen(Screen::create(ScreenKind::Log(None), size()));
    assert_eq!(state.handle_quit(false), Some(Effect::Refresh));
    assert_eq!(state.screens.len(), 2);
    assert!(!state.quit);
    assert_eq!(state.handle_quit(false), Some(Effect::Refresh));
    assert_eq!(state.screens.len(), 1);
    assert!(!state.quit);
    assert_eq!(state.handle_quit(false), None);
    assert_eq!(state.screens.len(), 0);
    assert!(state.quit);
}

#[test]
fn quit_in_submenu_only_closes_it() {
    let mut state = State::create(size(), None);
    assert_eq!(state.handle_op(Op::Submenu(SubmenuOp::Push)), None);
    assert_eq!(state.pending_submenu_op, SubmenuOp::Push);
    assert_eq!(state.handle_op(Op::Quit), None);
    assert_eq!(state.pending_submenu_op, SubmenuOp::Base);
    assert_eq!(state.screens.len(), 1);
    assert!(!state.quit);
}

#[test]
fn goto_log_from_depth_yields_two_screens() {
    let mut state = State::create(size(), None);
    state.push_screen(Screen::create(ScreenKind::ShowRefs, Rect::new(0, 0, 10, 10)));
    state.push_screen(Screen::create(ScreenKind::Show("abc".to_string()), size()));
    assert_eq!(state.goto_log_screen(None), Effect::Refresh);
    assert_eq!(state.screens.len(), 2);
    assert_eq!(state.screens[0].kind, ScreenKind::Status);
    assert_eq!(state.screens[1].kind, ScreenKind::Log(None));
    assert_eq!(state.screens[1].size, size());
}

#[test]
fn goto_refs_from_base_yields_two_screens() {
    let mut state = State::create(size(), None);
    assert_eq!(state.handle_op(Op::ShowRefs), Some(Effect::Refresh));
    assert_eq!(state.screens.len(), 2);
    assert_eq!(state.screens[1].kind, ScreenKind::ShowRefs);
    assert_eq!(state.handle_op(Op::ShowRefs), Some(Effect::Refresh));
    assert_eq!(state.screens.len(), 2);
}

#[test]
fn resize_updates_every_screen() {
    let mut state = State::create(size(), None);
    state.push_screen(Screen::create(ScreenKind::ShowRefs, size()));
    state.push_screen(Screen::create(ScreenKind::Log(None), size()));
    state.resize(120, 40);
    assert_eq!(state.screens.len(), 3);
    for screen in state.screens.iter() {
        assert_eq!(screen.size, Rect::new(0, 0, 120, 40));
    }
    assert_eq!(state.screens[2].kind, ScreenKind::Log(None));
}

#[test]
fn resize_event_goes_through_update() {
    let mut state = State::create(size(), None);
    state.push_screen(Screen::create(ScreenKind::ShowRefs, size()));
    let effects = state.update(Event::Resize(100, 30));
    assert!(effects.is_empty());
    assert_eq!(state.screens[0].size, Rect::new(0, 0, 100, 30));
    assert_eq!(state.screens[1].size, Rect::new(0, 0, 100, 30));
}

#[test]
fn help_context_is_transparent() {
    assert_eq!(key_context(SubmenuOp::Help), SubmenuOp::Base);
    assert_eq!(key_context(SubmenuOp::Commit), SubmenuOp::Commit);
    assert_eq!(key_context(SubmenuOp::Base), SubmenuOp::Base);
}

#[test]
fn key_press_clears_buffers() {
    let mut state = State::create(size(), None);
    state.report_error("boom".to_string());
    assert!(state.error_buffer.is_some());
    let effects = state.update(Event::Key { press: true, op: None });
    assert!(effects.is_empty());
    assert!(state.error_buffer.is_none());
    assert!(state.cmd_meta_buffer.is_none());
}

#[test]
fn key_release_is_ignored() {
    let mut state = State::create(size(), None);
    state.report_error("boom".to_string());
    let effects = state.update(Event::Key { press: false, op: Some(Op::LogCurrent) });
    assert!(effects.is_empty());
    assert!(state.error_buffer.is_some());
    assert_eq!(state.screens.len(), 1);
}

#[test]
fn refresh_keeps_cursor_in_range() {
    let mut state = State::create(size(), None);
    state.refresh_screen(vec![file_item("a"), file_item("b"), file_item("c")]);
    state.screens[0].select(2);
    assert_eq!(state.screens[0].cursor, 2);
    state.refresh_screen(vec![file_item("a")]);
    assert_eq!(state.screens[0].cursor, 0);
    state.refresh_screen(vec![]);
    assert_eq!(state.screens[0].cursor, 0);
}

#[test]
fn log_then_pop_returns_to_refreshed_status() {
    let mut state = State::create(size(), None);
    state.refresh_screen(vec![file_item("a")]);
    assert_eq!(state.update(Event::Key { press: true, op: Some(Op::LogCurrent) }), vec![Effect::Refresh]);
    assert_eq!(state.screens.len(), 2);
    assert_eq!(state.screens[1].kind, ScreenKind::Log(None));
    assert_eq!(state.update(Event::Key { press: true, op: Some(Op::Quit) }), vec![Effect::Refresh]);
    assert_eq!(state.screens.len(), 1);
    assert_eq!(state.screens[0].kind, ScreenKind::Status);
}

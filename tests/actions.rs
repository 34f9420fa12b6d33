use gitu::git::GitCmd;
use gitu::items::{get_action, Action, TargetData};
use gitu::ops::{Op, TargetOp};
use gitu::prompt::PromptStatus;
use gitu::screen::{Item, Rect, ScreenKind};
use gitu::state::{Effect, Event, State};

fn cmd(args: &[&str]) -> GitCmd {
    GitCmd { args: args.iter().map(|a| a.to_string()).collect() }
}

fn state_with(items: Vec<Item>) -> State {
    let mut state = State::create(Rect::new(0, 0, 80, 24), None);
    state.refresh_screen(items);
    state
}

fn item(data: Option<TargetData>) -> Item {
    Item { display: "line".to_string(), target_data: data }
}

#[test]
fn stage_file_runs_git_add() {
    let file = TargetData::File("src/main.rs".to_string());
    assert_eq!(
        get_action(Some(&file), TargetOp::Stage),
        Some(Action::Run { cmd: cmd(&["add", "src/main.rs"]), input: vec![] })
    );
}

#[test]
fn stage_hunk_feeds_patch() {
    let hunk = TargetData::Hunk(b"@@ -1 +1 @@\n-a\n+b\n".to_vec());
    assert_eq!(
        get_action(Some(&hunk), TargetOp::Stage),
        Some(Action::Run {
            cmd: cmd(&["apply", "--cached"]),
            input: b"@@ -1 +1 @@\n-a\n+b\n".to_vec()
        })
    );
    assert_eq!(
        get_action(Some(&hunk), TargetOp::Unstage),
        Some(Action::Run {
            cmd: cmd(&["apply", "--cached", "--reverse"]),
            input: b"@@ -1 +1 @@\n-a\n+b\n".to_vec()
        })
    );
}

#[test]
fn commit_actions() {
    let commit = TargetData::Commit("abc123".to_string());
    assert_eq!(get_action(Some(&commit), TargetOp::Show), Some(Action::Show("abc123".to_string())));
    assert_eq!(
        get_action(Some(&commit), TargetOp::RebaseAutosquash),
        Some(Action::Subscreen {
            cmd: cmd(&["rebase", "-i", "--autosquash", "--keep-empty", "--autostash", "abc123"])
        })
    );
    assert_eq!(
        get_action(Some(&commit), TargetOp::CommitFixup),
        Some(Action::Subscreen { cmd: cmd(&["commit", "--fixup", "abc123"]) })
    );
}

#[test]
fn inapplicable_operations_give_nothing() {
    let branch = TargetData::Branch("main".to_string());
    assert_eq!(get_action(Some(&branch), TargetOp::Stage), None);
    assert_eq!(get_action(Some(&branch), TargetOp::Discard), None);
    assert_eq!(get_action(None, TargetOp::Stage), None);
    assert_eq!(
        get_action(Some(&branch), TargetOp::Checkout),
        Some(Action::Run { cmd: cmd(&["checkout", "main"]), input: vec![] })
    );
}

#[test]
fn stage_through_key_shows_pending_command() {
    let mut state = state_with(vec![item(Some(TargetData::File("a.txt".to_string())))]);
    let effects = state.update(Event::Key { press: true, op: Some(Op::Target(TargetOp::Stage)) });
    assert_eq!(effects, vec![Effect::Run { cmd: cmd(&["add", "a.txt"]), input: vec![] }]);
    let meta = state.cmd_meta_buffer.as_ref().unwrap();
    assert_eq!(meta.args, "git add a.txt");
    assert_eq!(meta.out, None);
    assert_eq!(state.record_output(&cmd(&["add", "a.txt"]), String::new()), Effect::Refresh);
    assert_eq!(state.cmd_meta_buffer.as_ref().unwrap().out, Some(String::new()));
}

#[test]
fn show_commit_pushes_view() {
    let mut state = state_with(vec![item(Some(TargetData::Commit("abc".to_string())))]);
    assert_eq!(state.handle_op(Op::Target(TargetOp::Show)), Some(Effect::Refresh));
    assert_eq!(state.screens.len(), 2);
    assert_eq!(state.screens[1].kind, ScreenKind::Show("abc".to_string()));
}

#[test]
fn discard_prompt_not_opened_when_inapplicable() {
    let mut state = state_with(vec![item(Some(TargetData::Branch("main".to_string())))]);
    assert_eq!(state.handle_op(Op::Target(TargetOp::Discard)), None);
    assert_eq!(state.prompt.pending_op, None);
    assert!(!state.prompt.focused);
    let mut empty = state_with(vec![]);
    empty.prompt_action(Op::Target(TargetOp::Discard));
    assert_eq!(empty.prompt.pending_op, None);
}

#[test]
fn discard_confirmed_with_y() {
    let mut state = state_with(vec![item(Some(TargetData::File("a.txt".to_string())))]);
    let effects = state.update(Event::Key { press: true, op: Some(Op::Target(TargetOp::Discard)) });
    assert!(effects.is_empty());
    assert_eq!(state.prompt.pending_op, Some(Op::Target(TargetOp::Discard)));
    assert!(state.prompt.focused);
    let effects = state.update(Event::PromptInput { status: PromptStatus::Pending, value: "y".to_string() });
    assert_eq!(effects, vec![Effect::Run { cmd: cmd(&["checkout", "--", "a.txt"]), input: vec![] }]);
    assert_eq!(state.prompt.pending_op, None);
    assert!(!state.prompt.focused);
    assert_eq!(state.cmd_meta_buffer.as_ref().unwrap().args, "git checkout -- a.txt");
}

#[test]
fn discard_waits_on_empty_value() {
    let mut state = state_with(vec![item(Some(TargetData::File("a.txt".to_string())))]);
    state.handle_op(Op::Target(TargetOp::Discard));
    let effects = state.update(Event::PromptInput { status: PromptStatus::Pending, value: String::new() });
    assert!(effects.is_empty());
    assert_eq!(state.prompt.pending_op, Some(Op::Target(TargetOp::Discard)));
    assert!(state.error_buffer.is_none());
}

#[test]
fn discard_declined_with_other_value() {
    for answer in ["n", "Y", "yes"] {
        let mut state = state_with(vec![item(Some(TargetData::File("a.txt".to_string())))]);
        state.handle_op(Op::Target(TargetOp::Discard));
        let effects = state.update(Event::PromptInput { status: PromptStatus::Pending, value: answer.to_string() });
        assert!(effects.is_empty());
        assert_eq!(state.prompt.pending_op, None);
        assert_eq!(state.error_buffer.as_ref().unwrap().0, "Target(Discard) aborted");
    }
}

#[test]
fn new_branch_prompt_dispatches_once() {
    let mut state = state_with(vec![]);
    assert_eq!(state.handle_op(Op::CheckoutNewBranch), None);
    assert_eq!(state.prompt.pending_op, Some(Op::CheckoutNewBranch));
    let effects = state.update(Event::PromptInput { status: PromptStatus::Pending, value: "feature-x".to_string() });
    assert!(effects.is_empty());
    let effects = state.update(Event::PromptInput { status: PromptStatus::Done, value: "feature-x".to_string() });
    assert_eq!(
        effects,
        vec![Effect::Run { cmd: cmd(&["checkout", "-b", "feature-x"]), input: vec![] }]
    );
    assert_eq!(state.prompt.pending_op, None);
    assert_eq!(state.cmd_meta_buffer.as_ref().unwrap().args, "git checkout -b feature-x");
    assert!(state.update(Event::Other).is_empty());
}

#[test]
fn aborted_prompt_resets() {
    let mut state = state_with(vec![]);
    state.handle_op(Op::CheckoutNewBranch);
    let effects = state.update(Event::PromptInput { status: PromptStatus::Aborted, value: "x".to_string() });
    assert!(effects.is_empty());
    assert_eq!(state.prompt.pending_op, None);
    assert_eq!(state.prompt.status, PromptStatus::Pending);
    assert!(state.error_buffer.is_none());
}

#[test]
fn keys_go_to_focused_prompt() {
    let mut state = state_with(vec![]);
    state.handle_op(Op::CheckoutNewBranch);
    let effects = state.update(Event::Key { press: true, op: Some(Op::Push) });
    assert!(effects.is_empty());
    assert!(state.cmd_meta_buffer.is_none());
}

#[test]
fn plain_operations() {
    let mut state = state_with(vec![]);
    assert_eq!(state.handle_op(Op::Push), Some(Effect::Run { cmd: cmd(&["push"]), input: vec![] }));
    assert_eq!(state.cmd_meta_buffer.as_ref().unwrap().args, "git push");
    assert_eq!(state.handle_op(Op::Commit), Some(Effect::Subscreen { cmd: cmd(&["commit"]) }));
    assert_eq!(
        state.handle_op(Op::FetchAll),
        Some(Effect::Run { cmd: cmd(&["fetch", "--all"]), input: vec![] })
    );
}

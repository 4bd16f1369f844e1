use std::sync::mpsc::{channel, Receiver, Sender};

use next_ui::classic::accounts::{self, LoginDialog, SubmitRejection};
use next_ui::classic::layout::{pane_is_interactive, Kind, PaneContext, Side, Transition};
use next_ui::classic::library::{self, LibraryState, Search};
use next_ui::classic::snapshots;
use next_ui::classic::Message;
use next_ui::operation::CoreFailure;
use tokio_util::sync::CancellationToken;

type Prompt = Sender<String>;

fn prompt() -> (Prompt, Receiver<String>) {
    channel()
}

fn submit(dialog: &mut LoginDialog<Option<Prompt>>) {
    let answer = dialog.submission();
    let result = match dialog.prompt.take() {
        Some(sender) => sender.send(answer).map_err(|_| SubmitRejection::SessionClosed),
        None => Err(SubmitRejection::AlreadyAnswered),
    };
    dialog.record_submission(result);
}

#[test]
fn login_prompt_submission_is_one_shot() {
    let (sender, answer) = prompt();
    let mut dialog = LoginDialog::new("https://example.com".into(), "Sign in".into(), Some(sender));
    dialog.set_code("first".into());

    submit(&mut dialog);
    assert!(dialog.submitting);
    submit(&mut dialog);
    assert_eq!(dialog.error.as_deref(), Some("account-link prompt was already answered"));
    assert_eq!(answer.recv().unwrap(), "first");
}

#[test]
fn cancellation_stays_active_until_the_terminal_event() {
    let mut state = accounts::State::<Prompt>::new();
    let cancellation = CancellationToken::new();
    state.link_generation = 1;
    state.link_cancellation = Some(cancellation.clone());
    let (sender, answer) = prompt();
    state.login_dialog = Some(LoginDialog::new("https://example.com".into(), "Sign in".into(), sender));

    state.cancel_active_operation();

    assert!(cancellation.is_cancelled());
    assert!(state.login_dialog.is_none());
    assert!(state.has_active_operation());
    assert!(answer.recv().is_err());

    state.finish_link(Err(CoreFailure { cancelled: true, text: "cancelled".into() }));

    assert!(!state.has_active_operation());
    assert!(state.last_error.is_none());
}

#[test]
fn stale_prompts_do_not_attach_to_a_later_link() {
    let mut state = accounts::State::<Prompt>::new();
    state.link_generation = 2;
    state.link_cancellation = Some(CancellationToken::new());
    let (sender, answer) = prompt();

    state.receive_prompt(1, "https://example.com".into(), "Sign in".into(), sender);

    assert!(state.login_dialog.is_none());
    assert!(answer.recv().is_err());
}

#[test]
fn current_prompts_open_the_dialog() {
    let mut state = accounts::State::<Prompt>::new();
    state.link_generation = 2;
    state.link_cancellation = Some(CancellationToken::new());
    let (sender, _answer) = prompt();

    state.receive_prompt(2, "https://example.com".into(), "Sign in".into(), sender);

    let dialog = state.login_dialog.as_ref().unwrap();
    assert_eq!(dialog.url, "https://example.com");
    assert_eq!(dialog.submit_label(), "Submit");
}

#[test]
fn failed_links_show_their_error() {
    let mut state = accounts::State::<Prompt>::new();
    state.finish_link(Err(CoreFailure { cancelled: false, text: "denied".into() }));
    assert_eq!(state.last_error.as_deref(), Some("denied"));
    assert_eq!(SubmitRejection::SessionClosed.message(), "account-link session is closed");
}

fn root_context() -> PaneContext {
    PaneContext { standalone: true, owns_window_control: true }
}

fn owners(contexts: [PaneContext; 2]) -> [bool; 2] {
    contexts.map(|context| context.owns_window_control)
}

#[test]
fn navigation_assigns_the_window_control_to_the_visible_platform_edge() {
    let navigation = Kind::Navigation(root_context());

    assert_eq!(owners(navigation.contexts(true, false, true)), [true, false]);
    assert_eq!(owners(navigation.contexts(true, true, true)), [true, false]);
    assert_eq!(owners(navigation.contexts(true, true, false)), [false, true]);
    assert_eq!(owners(navigation.contexts(false, true, true)), [false, true]);

    let nested = Kind::Navigation(PaneContext { standalone: false, owns_window_control: false });
    assert_eq!(owners(nested.contexts(true, true, false)), [false, false]);
}

#[test]
fn side_panels_reserve_only_the_window_control_edge_they_cover() {
    let start = Kind::SidePanel(Side::Start);
    let end = Kind::SidePanel(Side::End);

    assert_eq!(owners(start.contexts(true, false, true)), [true, false]);
    assert_eq!(owners(start.contexts(false, true, false)), [false, true]);
    assert_eq!(owners(start.contexts(true, true, true)), [false, true]);
    assert_eq!(owners(start.contexts(true, true, false)), [false, false]);
    assert_eq!(owners(end.contexts(true, true, true)), [false, false]);
    assert_eq!(owners(end.contexts(true, true, false)), [false, true]);
}

#[test]
fn side_panels_block_the_base_until_the_transition_finishes() {
    let side_panel = Kind::SidePanel(Side::End);

    assert!(!side_panel.base_is_blocked(false, Transition::Start));
    assert!(side_panel.base_is_blocked(true, Transition::Start));
    assert!(side_panel.base_is_blocked(false, Transition::Moving));
    assert!(!Kind::Navigation(root_context()).base_is_blocked(true, Transition::End));
    assert!(!pane_is_interactive(0, true, Transition::End, true));
    assert!(pane_is_interactive(1, true, Transition::End, true));
}

#[test]
fn wide_navigation_keeps_both_panes_interactive() {
    assert!(pane_is_interactive(0, true, Transition::End, false));
    assert!(pane_is_interactive(1, true, Transition::End, false));
    assert!(root_context().is_standalone());
    assert!(Side::Start.owns(true));
    assert!(!Side::End.owns(true));
}

#[test]
fn stale_search_completions_are_ignored() {
    let mut search = Search::<()>::new();
    let (stale, _) = search.begin();
    let (current, _) = search.begin();

    search.finish(stale);

    assert!(search.state == LibraryState::Loading);

    search.finish(current);
    assert!(search.state == LibraryState::Loaded);
}

#[test]
fn cancelled_searches_remain_active_until_their_terminal_message() {
    let mut search = Search::<()>::new();
    let (generation, cancellation) = search.begin();

    search.cancel();

    assert!(cancellation.is_cancelled());
    assert!(search.is_active());

    search.finish(generation);
    assert!(!search.is_active());
}

#[test]
fn draining_accepts_task_messages_but_rejects_new_actions() {
    type M = Message<(), (), (), (), (), ()>;
    assert!(M::Library(library::Message::Loaded(1)).allowed_while_draining());
    assert!(!M::Library(library::Message::QueryChanged("new search".into())).allowed_while_draining());
    assert!(!M::AddBottle.allowed_while_draining());
}

#[test]
fn cancellation_stays_active_until_the_terminal_message() {
    let mut state = snapshots::State::new();
    let cancellation = CancellationToken::new();
    state.loads.insert(1, cancellation.clone());

    state.cancel_active_operations();

    assert!(cancellation.is_cancelled());
    assert!(state.has_active_operation());

    state.update(snapshots::Message::Loaded { generation: 1, result: None });
    assert!(!state.has_active_operation());
}

#[test]
fn prompts_attach_only_to_the_live_current_session() {
    let mut state = accounts::State::<Prompt>::new();
    state.link_generation = 3;
    state.link_cancellation = Some(CancellationToken::new());

    let (sender, answer) = prompt();
    state.attach_prompt(3, "https://example.com".into(), "Sign in".into(), sender, true);
    assert!(state.login_dialog.is_none());
    assert!(answer.recv().is_err());

    let (sender, _answer) = prompt();
    state.attach_prompt(2, "https://example.com".into(), "Sign in".into(), sender, false);
    assert!(state.login_dialog.is_none());

    let (sender, _answer) = prompt();
    state.attach_prompt(3, "https://example.com".into(), "Sign in".into(), sender, false);
    let dialog = state.login_dialog.as_ref().unwrap();
    assert_eq!(dialog.instructions, "Sign in");
    assert!(dialog.code_draft.is_empty() && !dialog.submitting && dialog.error.is_none());
}

use next_ui::features::bottles::{
    failure_entry, Effect, Message, RunnerOption, State, DEFAULT_ARCHITECTURE, DEFAULT_BOTTLE_NAME, DEFAULT_PURPOSE,
};
use next_ui::features::settings::{self, Context};
use next_ui::shell::{self, SplitViewState, WindowAction};

fn runner(id: u128, label: &str) -> RunnerOption {
    RunnerOption { id, label: label.into() }
}

fn loaded() -> State {
    let mut state = State::new();
    let runners = vec![runner(3, "wine 9.0"), runner(4, "proton 8")];
    assert!(matches!(state.update(Message::BottlesLoaded(Ok((runners, vec![7])))), Effect::Nothing));
    state
}

#[test]
fn the_form_starts_with_its_defaults() {
    let state = State::new();
    assert!(!state.loaded);
    assert_eq!(state.bottle_name, DEFAULT_BOTTLE_NAME);
    assert_eq!(state.purpose, DEFAULT_PURPOSE);
    assert_eq!(state.architecture, DEFAULT_ARCHITECTURE);
    assert!(state.selected_runner.is_none());
    assert!(state.creation_log.is_empty());
}

#[test]
fn opening_the_store_selects_its_first_runner() {
    let state = loaded();
    assert!(state.loaded);
    assert_eq!(state.runners.len(), 2);
    assert_eq!(state.selected_runner.as_ref().map(|r| r.id), Some(3));
    assert!(state.lists(7) && !state.lists(8));
    let mut empty = State::new();
    empty.update(Message::BottlesLoaded(Ok((Vec::new(), Vec::new()))));
    assert!(empty.loaded && empty.selected_runner.is_none());
    let mut failed = State::new();
    failed.update(Message::BottlesLoaded(Err("no store".into())));
    assert!(!failed.loaded);
}

#[test]
fn creating_needs_an_open_store_and_a_runner() {
    let mut state = State::new();
    assert!(matches!(state.update(Message::CreateBottle), Effect::Nothing));
    let mut state = loaded();
    state.update(Message::BottleNameChanged("Games".into()));
    state.update(Message::RunnerSelected(runner(4, "proton 8")));
    state.update(Message::BottleCreationProgress("old line".into()));
    match state.update(Message::CreateBottle) {
        Effect::CreateBottle { name, runner_id } => {
            assert_eq!(name, "Games");
            assert_eq!(runner_id, 4);
        }
        other => panic!("unexpected effect {other:?}"),
    }
    assert!(state.creation_log.is_empty());
    assert!(state.creation_log_expanded);
    assert!(!state.creation_failed);
}

#[test]
fn progress_lines_are_joined_by_newlines() {
    let mut state = loaded();
    state.update(Message::BottleCreationProgress("12:00:00 Downloading".into()));
    state.update(Message::BottleCreationProgress("12:00:05 Extracting".into()));
    assert_eq!(state.creation_log, "12:00:00 Downloading\n12:00:05 Extracting");
    state.update(Message::ToggleCreationLog);
    assert!(state.creation_log_expanded);
    state.update(Message::AddBottle);
    assert!(state.creation_log.is_empty());
}

#[test]
fn a_failed_creation_is_logged_with_a_time_stamp() {
    let mut state = loaded();
    state.update(Message::BottleCreationProgress("12:00:00 Downloading".into()));
    state.update(Message::BottleCreated(Err("disk full".into())));
    assert!(state.creation_failed);
    let (first, last) = state.creation_log.split_once('\n').expect("two lines");
    assert_eq!(first, "12:00:00 Downloading");
    assert_eq!(last.len(), "00:00:00 Failed: disk full".len());
    assert!(last.ends_with(" Failed: disk full"));
    assert_eq!(&last[2..3], ":");
    let entry = failure_entry("gone");
    assert!(entry.ends_with(" Failed: gone") && entry.len() == 21);
    state.update(Message::PurposeSelected("Software".into()));
    state.update(Message::ArchitectureSelected("Win32".into()));
    assert_eq!((state.purpose.as_str(), state.architecture.as_str()), ("Software", "Win32"));
}

#[test]
fn settings_toggles_need_the_bottle_and_its_state() {
    let mut tab = settings::State::new();
    let both = Context { has_bottle: true, has_state: true };
    let handle_only = Context { has_bottle: true, has_state: false };
    assert_eq!(tab.update(settings::Message::ToggleGamescope(true), both), settings::Effect::SetGamescope(true));
    assert_eq!(tab.update(settings::Message::ToggleGamescope(true), handle_only), settings::Effect::Nothing);
    assert_eq!(tab.update(settings::Message::ToggleMangoHud(false), handle_only), settings::Effect::SetMangoHud(false));
    let none = Context { has_bottle: false, has_state: false };
    assert_eq!(tab.update(settings::Message::ToggleMangoHud(true), none), settings::Effect::Nothing);
    assert_eq!(tab.update(settings::Message::WrapperUpdated(Err("x".into())), both), settings::Effect::Nothing);
}

#[test]
fn the_shell_routes_bottle_and_settings_messages() {
    let mut state = shell::State::new();
    state.update(shell::Message::Bottles(Message::BottleCreationProgress("line".into())));
    assert!(matches!(state.update(shell::Message::AddBottle), shell::Effect::Nothing));
    assert!(state.bottles.creation_log.is_empty());
    assert!(matches!(
        state.update(shell::Message::Bottles(Message::LaunchProgram(9))),
        shell::Effect::Nothing
    ));
    state.update(shell::Message::BottleSelected(7));
    assert!(matches!(
        state.update(shell::Message::Bottles(Message::LaunchProgram(9))),
        shell::Effect::Nothing
    ));
    assert!(matches!(
        state.update(shell::Message::Settings(settings::Message::ToggleMangoHud(true))),
        shell::Effect::Nothing
    ));
    state.update(shell::Message::Bottles(Message::BottleListChanged(vec![7])));
    assert!(matches!(
        state.update(shell::Message::Bottles(Message::LaunchProgram(9))),
        shell::Effect::LaunchProgram { bottle_id: 7, program_id: 9 }
    ));
    assert!(matches!(
        state.update(shell::Message::Settings(settings::Message::ToggleMangoHud(true))),
        shell::Effect::Settings { bottle_id: 7, effect: settings::Effect::SetMangoHud(true) }
    ));
    assert!(matches!(
        state.update(shell::Message::Settings(settings::Message::WrapperUpdated(Ok(())))),
        shell::Effect::RefreshBottleStates
    ));
    assert!(matches!(
        state.update(shell::Message::Window(WindowAction::Close)),
        shell::Effect::Window(WindowAction::Close)
    ));
    state.update(shell::Message::AddBottle);
    assert_eq!(state.split_view_state, SplitViewState::NewBottle);
    state.update(shell::Message::Bottles(Message::BottleCreated(Ok(()))));
    assert_eq!(state.split_view_state, SplitViewState::Closed);
}

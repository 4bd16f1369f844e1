use next_ui::classic::profiles::RequestKind;
use next_ui::classic::layout::{split_sync, Kind, PaneContext, Side, SplitSync};
use next_ui::classic::{bottles, settings};
use next_ui::operation::{CoreFailure, Event, Outcome};
use next_ui::classic::read_model::{ProfilesSnapshot, ReadModel};
use next_ui::classic::{Effect, Message, Panel, State};

type Workspace = State<u8, u8, u32, (), ()>;
type Msg = Message<u8, u8, u32, (), (), ()>;

fn workspace(config: u32) -> Workspace {
    let profiles = ProfilesSnapshot { config, selected_id: 1, selected_name: "Player".into() };
    let model = ReadModel::new(vec![(10, 0u8)], vec![(10, 0u8)], profiles);
    State::new(model, &Vec::new()).0
}

fn searches(effects: &[Effect<u8, ()>]) -> Vec<u64> {
    effects
        .iter()
        .filter_map(|effect| match effect {
            Effect::SearchLibrary(request) => Some(request.generation),
            _ => None,
        })
        .collect()
}

#[test]
fn unchanged_profiles_configuration_is_ignored() {
    let mut state = workspace(5);
    let generation = state.library.search.generation;
    let same = ProfilesSnapshot { config: 5, selected_id: 1, selected_name: "Player".into() };
    let effects = state.update::<()>(Msg::ProfilesChanged(same));
    assert!(effects.is_empty());
    assert_eq!(state.profiles.selected_id, 1);
    assert_eq!(state.library.search.generation, generation);
}

#[test]
fn changed_profiles_configuration_resyncs_and_reloads_the_library() {
    let mut state = workspace(5);
    let generation = state.library.search.generation;
    let changed = ProfilesSnapshot { config: 6, selected_id: 2, selected_name: "Other".into() };
    let effects = state.update::<()>(Msg::ProfilesChanged(changed));
    assert_eq!(searches(&effects), vec![generation + 1]);
    assert_eq!(effects.len(), 1);
    assert_eq!(state.read_model.profiles.config, 6);
    assert_eq!(state.profiles.selected_id, 2);
    assert_eq!(state.profiles.name_draft, "Other");
}

#[test]
fn a_changed_bottle_state_reloads_the_library_once() {
    let mut state = workspace(5);
    let generation = state.library.search.generation;
    let effects = state.update::<()>(Msg::BottleStateChanged(10, 3));
    assert_eq!(searches(&effects), vec![generation + 1]);
    assert_eq!(state.read_model.bottle_states, vec![(10, 3)]);
    let effects = state.update::<()>(Msg::BottleStateChanged(10, 3));
    assert!(effects.is_empty());
    assert_eq!(state.library.search.generation, generation + 1);
}

#[test]
fn the_new_profile_dialog_opens_only_without_a_running_request() {
    let mut state = workspace(5);
    let effects = state.update::<()>(Msg::OpenNewProfile);
    assert!(effects.is_empty());
    let dialog = state.profiles.new_profile.as_ref().expect("dialog open");
    assert!(dialog.name.is_empty());
    assert!(dialog.error.is_none());
    assert!(state.accounts.login_dialog.is_none());

    let mut busy = workspace(5);
    busy.profiles.request_kind = Some(RequestKind::Rename);
    busy.update::<()>(Msg::OpenNewProfile);
    assert!(busy.profiles.new_profile.is_none());
}

#[test]
fn adding_a_bottle_opens_a_fresh_form_and_cancel_closes_it() {
    let mut state = workspace(5);
    state.bottles.last_error = Some("earlier failure".into());
    assert!(state.update::<()>(Msg::AddBottle).is_empty());
    assert_eq!(state.panel, Panel::NewBottle);
    assert!(state.panel_open);
    assert!(state.bottles.last_error.is_none());
    assert!(state.update::<()>(Msg::CancelBottle).is_empty());
    assert!(!state.panel_open);
}

#[test]
fn a_superseded_creation_result_changes_nothing() {
    let mut form = bottles::State::new(&Vec::new());
    let failure = CoreFailure { cancelled: false, text: "old failure".into() };
    let stale = form.creation_generation + 1;
    let (effect, output) =
        form.update(bottles::Message::<u8>::BottleCreation(Event::Finished { key: stale, outcome: Outcome::Failed(failure) }));
    assert!(matches!(effect, bottles::Effect::Nothing));
    assert!(output.is_none());
    assert!(form.last_error.is_none());
    assert!(form.creation_cancellation.is_none());
}

#[test]
fn a_superseded_wrapper_result_changes_nothing() {
    let mut tab = settings::State::new();
    let ctx = settings::Context { has_bottle: true, has_state: true };
    let effect = tab.update(settings::Message::ToggleMangoHud(true), ctx);
    assert_eq!(effect, settings::Effect::SetMangoHud { generation: 1, enabled: true });
    let failure = CoreFailure { cancelled: false, text: "late".into() };
    tab.update(settings::Message::WrapperUpdated { generation: 0, result: Err(failure) }, ctx);
    assert!(tab.pending);
    assert!(tab.last_error.is_none());
    tab.update(settings::Message::WrapperUpdated { generation: 1, result: Ok(()) }, ctx);
    assert!(!tab.pending);
}

#[test]
fn resuming_after_a_failed_switch_restarts_the_search_and_the_snapshot_load() {
    let mut state = workspace(5);
    state.update::<()>(Msg::BottleSelected(10));
    let library = state.library.search.generation;
    let snapshots = state.snapshots.generation;
    state.cancel_active_operations();
    assert!(state.draining);
    assert!(state.update::<()>(Msg::AddBottle).is_empty());
    assert!(!state.panel_open);
    let effects = state.resume_after_failed_switch::<()>();
    assert!(!state.draining);
    assert_eq!(effects.len(), 2);
    assert!(matches!(&effects[0], Effect::SearchLibrary(request) if request.generation == library + 1));
    assert!(matches!(&effects[1], Effect::LoadSnapshots { bottle_id: 10, request } if request.generation == snapshots + 1));

    let mut unlisted = workspace(5);
    unlisted.update::<()>(Msg::BottleSelected(11));
    unlisted.cancel_active_operations();
    assert_eq!(unlisted.resume_after_failed_switch::<()>().len(), 1);
}

#[test]
fn dismissing_the_modal_cancels_the_open_dialog() {
    let mut state = workspace(5);
    assert!(state.dismiss_modal::<()>().is_empty());
    state.update::<()>(Msg::OpenNewProfile);
    let effects = state.dismiss_modal::<()>();
    assert_eq!(effects.len(), 1);
    assert!(state.profiles.new_profile.is_none());
}

#[test]
fn narrow_side_panels_jump_and_other_splits_animate_only_on_change() {
    let panel = Kind::SidePanel(Side::End);
    let nav = Kind::Navigation(PaneContext::root());
    assert_eq!(split_sync(false, true, false, panel), SplitSync::Jump);
    assert_eq!(split_sync(true, true, false, panel), SplitSync::Jump);
    assert_eq!(split_sync(false, true, true, panel), SplitSync::Animate);
    assert_eq!(split_sync(true, true, true, panel), SplitSync::Keep);
    assert_eq!(split_sync(true, false, false, nav), SplitSync::Animate);
    assert_eq!(split_sync(false, false, false, nav), SplitSync::Keep);
}

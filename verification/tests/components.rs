use next_ui::components::action_row::{self, ActionRow};
use next_ui::components::bottle_entry::{shown_progress, BottleEntry, BottleEntryStatus, BottleKind};
use next_ui::components::button::{padding, shows_label, Button, Shape, Tone, DEFAULT_DIAMETER};
use next_ui::components::cycle_row::CycleRow;
use next_ui::components::heading::{Heading, Level};
use next_ui::components::info_card::{self, InfoCard};
use next_ui::components::info_panel::{icon, InfoPanel, Kind};
use next_ui::components::info_row::InfoRow;
use next_ui::components::picker_row::PickerRow;
use next_ui::components::search::{should_expand, Action, SearchResultRow};
use next_ui::components::split_view::{pane_is_active, pane_modes, PaneMode};
use next_ui::components::status_bar::StatusBar;
use next_ui::components::tab;
use next_ui::components::tabs::{self, selected_index};
use next_ui::components::text::{Text, TextExt};
use next_ui::components::text_field::Disabled;
use next_ui::components::title::{typography, Detail, Title};
use next_ui::classic::layout::Transition;
use next_ui::icons::Icon;

#[test]
fn circular_buttons_hide_their_label() {
    assert!(!shows_label(Shape::Circular));
    assert!(shows_label(Shape::Pill));
    assert!(shows_label(Shape::Rectangular));
}

#[test]
fn error_has_error_icon() {
    assert_eq!(icon(Kind::Error), "✖");
}

#[test]
fn each_direction_can_be_disabled() {
    let cycle = CycleRow::new().on_next(());

    assert!(cycle.previous.is_none());
    assert!(cycle.next.is_some());
}

#[test]
fn click_action_is_optional() {
    assert!(PickerRow::<()>::new().on_press.is_none());
    assert!(PickerRow::new().on_press(()).on_press.is_some());
}

#[test]
fn results_are_opt_in_and_require_a_query() {
    assert!(!should_expand("Epic", false));
    assert!(!should_expand("  ", true));
    assert!(should_expand("Epic", true));
    assert_eq!(Action::Install.label(), "Install");
    assert_eq!(Action::Run.label(), "Run");
}

#[test]
fn subtitle_is_optional_and_status_uses_large_typography() {
    assert!(Title::new("Title").detail.is_none());
    let (title, detail, spacing) = typography(Some(&Detail::Status("Status")));
    assert_eq!((title as f32, detail as f32, spacing as f32), (48.0, 40.0, 12.0));
}

#[test]
fn subtitles_use_the_regular_typography() {
    let title = Title::new("Title").subtitle("Sub");
    assert_eq!(title.detail, Some(Detail::Subtitle("Sub")));
    assert_eq!(typography(title.detail.as_ref()), (32, 24, 10));
    assert_eq!(typography(None), (32, 24, 10));
    let status = Title::new("Title").subtitle("Sub").status("Running");
    assert_eq!(status.detail, Some(Detail::Status("Running")));
}

#[test]
fn buttons_start_rectangular_and_secondary() {
    let button = Button::<()>::new("Run");
    assert_eq!(button.label, "Run");
    assert_eq!(button.shape, Shape::Rectangular);
    assert_eq!(button.tone, Tone::Secondary);
    assert_eq!(button.diameter, DEFAULT_DIAMETER);
    assert!(button.icon.is_none());
    assert!(button.on_press.is_none());

    let round = Button::new("Play").icon(Icon::Play).circular().diameter(32).primary().on_press(7);
    assert_eq!(round.shape, Shape::Circular);
    assert_eq!(round.tone, Tone::Primary);
    assert_eq!(round.diameter, 32);
    assert_eq!(round.icon, Some(Icon::Play));
    assert_eq!(round.on_press, Some(7));
    assert_eq!(Button::<()>::new("x").pill().surface().tone, Tone::Surface);
}

#[test]
fn padding_follows_the_shape() {
    assert_eq!(padding(Shape::Rectangular), (12, 18));
    assert_eq!(padding(Shape::Pill), (10, 16));
    assert_eq!(padding(Shape::Circular), (0, 0));
}

#[test]
fn the_type_scale_sets_each_role() {
    let text = Text::new("Hello");
    assert_eq!(text.size, None);
    assert_eq!(text.h1().size, Some(72));
    assert_eq!(text.h2().size, Some(64));
    assert_eq!(text.h3().size, Some(54));
    assert_eq!(text.h4().size, Some(44));
    assert_eq!(text.h5().size, Some(40));
    assert_eq!(text.title().size, Some(28));
    assert_eq!(text.subtitle().size, Some(22));
    assert_eq!(text.supporting().size, Some(24));
    assert_eq!(text.body().size, Some(20));
    assert_eq!(text.label().size, Some(18));
    assert_eq!(text.detail().size, Some(16));
    assert_eq!(text.caption().size, Some(14));
    let muted = text.caption().muted();
    assert!(muted.muted);
    assert_eq!(muted.size, Some(14));
    assert_eq!(muted.content, "Hello");
}

#[test]
fn headings_shrink_by_level() {
    assert_eq!(Heading::new(Level::H1, "A").size, 72);
    assert_eq!(Heading::new(Level::H3, "A").size, 54);
    assert_eq!(Heading::new(Level::H5, "A").size, 40);
    assert_eq!(Level::H2.size(), 64);
    assert_eq!(Level::H4.size(), 44);
}

#[test]
fn info_panels_and_cards_keep_their_content() {
    let panel = InfoPanel::new(Kind::Warning, "Careful", "Body");
    assert_eq!(panel.kind, Kind::Warning);
    assert_eq!(panel.title, "Careful");
    assert_eq!(panel.body, "Body");
    assert_eq!(icon(Kind::Hint), "✦");
    assert_eq!(icon(Kind::Info), "ⓘ");
    assert_eq!(icon(Kind::Warning), "▲");
    assert_eq!(icon(Kind::Success), "✓");

    let card = InfoCard::new(info_card::Kind::Success, "Done", "All set");
    assert_eq!(card.kind, info_card::Kind::Success);
    assert_eq!(info_card::icon(info_card::Kind::Hint), Icon::Wand);
    assert_eq!(info_card::icon(info_card::Kind::Error), Icon::Error);
    assert_eq!(info_card::icon(info_card::Kind::Success), Icon::DoubleCheckmark);
}

#[test]
fn info_rows_are_built_step_by_step() {
    let row = InfoRow::new("Runner");
    assert_eq!(row.description, "");
    assert!(row.icon.is_none());
    let row = row.description("Soda 9").icon(Icon::Chip);
    assert_eq!(row.title, "Runner");
    assert_eq!(row.description, "Soda 9");
    assert_eq!(row.icon, Some(Icon::Chip));
}

#[test]
fn disabled_fields_keep_their_text() {
    let field = Disabled::new("Name", "None", "Steam");
    assert_eq!((field.label, field.placeholder, field.value), ("Name", "None", "Steam"));
}

#[test]
fn bottle_kinds_have_icons_and_labels() {
    assert_eq!(BottleKind::Gaming.icon(), "controller");
    assert_eq!(BottleKind::Software.icon(), "hollow-gear");
    assert_eq!(BottleKind::Custom.icon(), "custom");
    assert_eq!(BottleKind::Gaming.label(), "Gaming");
    assert_eq!(BottleKind::Software.label(), "Software");
    assert_eq!(BottleKind::Custom.label(), "Custom");

    let ready = BottleEntry::new("Games", BottleKind::Gaming, BottleEntryStatus::Ready(3));
    assert_eq!(ready.on_press(), Some(&3));
    let busy = BottleEntry::<u8>::new("Work", BottleKind::Software, BottleEntryStatus::Progress(40));
    assert_eq!(busy.on_press(), None);
    assert_eq!(shown_progress(40), 40);
    assert_eq!(shown_progress(250), 100);
}

#[test]
fn search_results_offer_an_optional_action() {
    let row = SearchResultRow::new("Epic Games", 1);
    assert!(row.action.is_none());
    let row = row.action(Action::Install);
    assert_eq!(row.action, Some(Action::Install));
    assert_eq!(row.title, "Epic Games");
    assert_eq!(row.on_press, 1);
}

#[test]
fn split_panes_follow_the_window_width() {
    assert_eq!(pane_modes(true, true), (PaneMode::Split, PaneMode::Split));
    assert_eq!(pane_modes(true, false), (PaneMode::Single, PaneMode::Split));
    assert_eq!(pane_modes(false, true), (PaneMode::Single, PaneMode::Single));
    assert!(pane_is_active(0, true, Transition::End));
    assert!(!pane_is_active(0, false, Transition::End));
    assert!(pane_is_active(0, false, Transition::Moving));
    assert!(!pane_is_active(1, false, Transition::Start));
    assert!(pane_is_active(1, true, Transition::Moving));
    assert!(!pane_is_active(2, true, Transition::End));
}

#[test]
fn action_rows_act_only_when_ready() {
    let ready = ActionRow::new("Run", action_row::State::Ready(5)).description("Start it").icon(Icon::Run);
    assert_eq!(ready.on_press(), Some(&5));
    assert_eq!(ready.description, "Start it");
    assert_eq!(ready.icon, Some(Icon::Run));
    let disabled = ActionRow::<u8>::new("Soda", action_row::State::Disabled);
    assert_eq!(disabled.on_press(), None);
    assert_eq!(disabled.description, "");
}

#[test]
fn tabs_find_the_selected_value() {
    let bar = vec![tabs::Tab::new(1u8, "One"), tabs::Tab::new(2u8, "Two").enabled(false), tabs::Tab::new(3u8, "Three")];
    assert!(bar[0].enabled);
    assert!(!bar[1].enabled);
    assert_eq!(selected_index(&bar, Some(&3)), Some(2));
    assert_eq!(selected_index(&bar, Some(&9)), None);
    assert_eq!(selected_index(&bar, None), None);

    let single = tab::Tab::new("Programs", 1).selected(true);
    assert!(single.selected);
    assert_eq!(single.label, "Programs");
    assert!(!tab::Tab::new("Settings", 2).selected);
}

#[test]
fn status_bars_start_collapsed() {
    let bar = StatusBar::new("x86_64", "Soda", ());
    assert!(!bar.is_running && !bar.expanded);
    assert_eq!(bar.log, "");
    let bar = bar.running(true).log("started").expanded(true);
    assert!(bar.is_running && bar.expanded);
    assert_eq!((bar.architecture, bar.runner, bar.log), ("x86_64", "Soda", "started"));
}

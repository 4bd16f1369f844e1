use next_ui::components::info_card::Kind;
use next_ui::components::split_view::PaneMode;
use next_ui::features::library::{
    storefront_icon, storefront_label, upsert_game, Content, Game, GameEvent, LibraryHandle, LibraryState, Message,
    State, Storefront,
};
use next_ui::features::onboarding::{self, Mode, Step};
use next_ui::icons::Icon;

fn game(id: &str, storefront: Storefront, title: &str) -> Game {
    Game { id: id.into(), storefront, title: title.into() }
}

#[test]
fn games_are_updated_in_place_and_appended_when_new() {
    let mut games = vec![game("1", Storefront::Steam, "Portal"), game("1", Storefront::Gog, "Portal (GOG)")];
    upsert_game(&mut games, game("1", Storefront::Gog, "Portal 2"));
    assert_eq!(games.len(), 2);
    assert_eq!(games[1].title, "Portal 2");
    upsert_game(&mut games, game("2", Storefront::Steam, "Celeste"));
    assert_eq!(games.len(), 3);
    assert_eq!(games[2].title, "Celeste");
}

#[test]
fn the_library_follows_its_stream() {
    let mut state = State::new();
    assert!(matches!(state.content(1200, PaneMode::Single), Content::Notice { kind: Kind::Hint, .. }));

    state.reset_for_profile(Some(true));
    assert!(matches!(state.state, LibraryState::Loading));
    state.update(Message::Event(GameEvent::Added(Some(game("a", Storefront::Steam, "Hades")))));
    state.update(Message::Event(GameEvent::Updated(Some(game("b", Storefront::EpicGames, "Control")))));
    assert!(matches!(state.state, LibraryState::Loaded));
    assert_eq!(state.games.len(), 2);
    assert!(matches!(state.content(1200, PaneMode::Single), Content::Games { columns: 2 }));
    assert!(matches!(state.content(600, PaneMode::Single), Content::Games { columns: 1 }));
    assert!(matches!(state.content(1200, PaneMode::Split), Content::Games { columns: 1 }));

    state.update(Message::Event(GameEvent::Removed { game_id: "a".into(), storefront: Storefront::Gog }));
    assert_eq!(state.games.len(), 2);
    state.update(Message::Event(GameEvent::Removed { game_id: "a".into(), storefront: Storefront::Steam }));
    assert_eq!(state.games.len(), 1);
    assert_eq!(state.games[0].title, "Control");

    state.update(Message::Error("offline".into()));
    match state.content(1200, PaneMode::Single) {
        Content::Notice { kind, title, body } => {
            assert_eq!(kind, Kind::Error);
            assert_eq!(title, "Couldn't load library");
            assert_eq!(body, "offline");
        }
        _ => panic!("expected a notice"),
    }

    state.reset_for_profile(Some(false));
    match state.content(1200, PaneMode::Single) {
        Content::Notice { title, .. } => assert_eq!(title, "Nothing here yet"),
        _ => panic!("expected a notice"),
    }
    state.reset_for_profile(None);
    assert!(matches!(state.state, LibraryState::Idle));
    assert_eq!(LibraryHandle("p".into()), LibraryHandle("p".into()));
}

#[test]
fn storefronts_have_labels_and_icons() {
    assert_eq!(storefront_label(Storefront::EpicGames), "Epic Games Store");
    assert_eq!(storefront_label(Storefront::BattleNet), "Battle.net");
    assert_eq!(storefront_label(Storefront::Unspecified), "Unknown storefront");
    assert_eq!(storefront_icon(Storefront::Steam), Icon::Computer);
    assert_eq!(storefront_icon(Storefront::Gog), Icon::Disk);
    assert_eq!(storefront_icon(Storefront::EaApp), Icon::Controller);
    assert_eq!(storefront_icon(Storefront::Unspecified), Icon::Warning);
}

#[test]
fn modes_are_described() {
    assert_eq!(Mode::Next.label(), "Next Mode");
    assert_eq!(Mode::Classic.caption(), "The experience for advanced users.");
    assert_eq!(Mode::Next.detail().1, "This is the most convenient way if you are a beginner.");
}

#[test]
fn the_tutorial_leads_to_the_downloads() {
    let mut state = onboarding::State::new();
    assert!(!state.update(onboarding::Message::SelectMode(Mode::Classic)));
    assert_eq!(state.mode, Mode::Classic);
    assert!(!state.update(onboarding::Message::ApplyExperience));
    assert_eq!(state.step, Step::Tutorial(0));
    assert!(!state.update(onboarding::Message::NextTutorialStep));
    assert!(!state.update(onboarding::Message::NextTutorialStep));
    assert_eq!(state.step, Step::Tutorial(2));
    assert!(state.update(onboarding::Message::NextTutorialStep));
    assert_eq!(state.step, Step::Downloads);
    assert!(!state.update(onboarding::Message::NextTutorialStep));
    assert!(!state.update(onboarding::Message::CancelDownloads));
    assert_eq!(state.step, Step::Welcome);
}

use next_ui::features::bottles::Message as BottleMessage;
use next_ui::features::library::Storefront;
use next_ui::shell::{startup_choice, StartupChoice, DEFAULT_PROFILE_ICON, DEFAULT_PROFILE_NAME};
use next_ui::shell::{
    account_title, auth_state_label, link_options, signs_in, steam_options, storefronts, AccountLinkPopover, AuthState,
    Effect, LinkOption, LinkedAccount, Message, PrimaryTab, ProfileModal, SplitViewState, State, SteamCandidate,
    SteamLink, SteamOption, UserProfile,
};

fn account(storefront: Storefront) -> LinkedAccount {
    LinkedAccount { storefront, display_name: "me".into(), auth_state: AuthState::Active }
}

fn profile(id: &str, name: &str, has_accounts: bool) -> UserProfile {
    let accounts = if has_accounts { vec![account(Storefront::Gog)] } else { Vec::new() };
    UserProfile { id: id.into(), name: name.into(), accounts, steam_link: None }
}

fn ready() -> State {
    let mut state = State::new();
    assert!(matches!(state.update(Message::ProfileManagerLoaded(Ok(()))), Effect::LoadProfiles));
    state
}

#[test]
fn tabs_and_panes_navigate() {
    let mut state = State::new();
    assert!(matches!(state.update(Message::BottleSelected(7)), Effect::Nothing));
    state.update(Message::Bottles(BottleMessage::BottleListChanged(vec![7])));
    assert!(matches!(state.update(Message::BottleSelected(7)), Effect::LoadSnapshots(7)));
    assert_eq!(state.split_view_state, SplitViewState::Bottle(7));
    assert_eq!(state.selected_bottle(), Some(7));
    state.update(Message::PrimaryTabSelected(PrimaryTab::Library));
    assert_eq!(state.split_view_state, SplitViewState::Closed);
    assert!(matches!(state.update(Message::AddBottle), Effect::Nothing));
    assert_eq!(state.split_view_state, SplitViewState::NewBottle);
    state.update(Message::Bottles(BottleMessage::BottleCreated(Ok(()))));
    assert_eq!(state.split_view_state, SplitViewState::Closed);
    state.update(Message::ToggleProfileSettings);
    assert_eq!(state.split_view_state, SplitViewState::Profiles);
    state.update(Message::ToggleProfileSettings);
    assert_eq!(state.split_view_state, SplitViewState::Closed);
}

#[test]
fn activating_a_profile_resets_the_library_once() {
    let mut state = ready();
    state.update(Message::ProfileActivated(profile("p1", "Player", true)));
    assert_eq!(state.name_draft, "Player");
    assert_eq!(state.profiles.len(), 1);
    assert_eq!(state.library_handle().unwrap().0, "p1");
    assert!(matches!(state.library.state, next_ui::features::library::LibraryState::Loading));

    state.update(Message::Library(next_ui::features::library::Message::Error("x".into())));
    state.update(Message::ProfileActivated(profile("p1", "Renamed", true)));
    assert!(matches!(state.library.state, next_ui::features::library::LibraryState::Failed(_)));
    assert_eq!(state.profiles.len(), 1);
    assert_eq!(state.profiles[0].name, "Renamed");
}

#[test]
fn deleting_the_active_profile_falls_back_to_the_first() {
    let mut state = ready();
    state.update(Message::ProfilesLoaded(vec![profile("p1", "One", false), profile("p2", "Two", false)]));
    state.update(Message::ProfileActivated(profile("p2", "Two", false)));
    match state.update(Message::ProfileRemoved("p2".into())) {
        Effect::ActivateProfile(id) => assert_eq!(id, "p1"),
        other => panic!("unexpected {other:?}"),
    }
    assert!(state.active_profile.is_none());
    assert_eq!(state.name_draft, "");
    assert_eq!(state.profiles.len(), 1);
}

#[test]
fn new_profiles_get_a_name() {
    let mut state = ready();
    state.update(Message::ToggleNewProfile);
    state.update(Message::NewProfileNameChanged("  ".into()));
    match state.update(Message::SubmitNewProfile) {
        Effect::CreateProfile(name) => assert_eq!(name, "New profile"),
        other => panic!("unexpected {other:?}"),
    }
    assert!(matches!(state.profile_modal, ProfileModal::Closed));
}

#[test]
fn popovers_exclude_each_other_and_sign_in_flows() {
    let mut state = ready();
    state.update(Message::ToggleLink);
    assert_eq!(state.account_link_popover, AccountLinkPopover::Storefront);
    assert!(matches!(state.update(Message::ToggleSteam), Effect::DetectSteamUsers));
    assert_eq!(state.account_link_popover, AccountLinkPopover::Steam);
    state.update(Message::ProfileActivated(profile("p1", "Player", false)));
    match state.update(Message::BeginLogin(Storefront::Gog)) {
        Effect::BeginLogin { profile_id, storefront } => {
            assert_eq!(profile_id, "p1");
            assert_eq!(storefront, Storefront::Gog);
        }
        other => panic!("unexpected {other:?}"),
    }
    assert_eq!(state.account_link_popover, AccountLinkPopover::Closed);
    state.update(Message::LoginChallengeReceived(Ok((Storefront::Gog, "c1".into(), "https://gog".into()))));
    state.update(Message::LoginCodeChanged("1234".into()));
    match state.update(Message::SubmitLoginCode) {
        Effect::CompleteLogin { profile_id, challenge_id, storefront, code } => {
            assert_eq!((profile_id.as_str(), challenge_id.as_str(), code.as_str()), ("p1", "c1", "1234"));
            assert_eq!(storefront, Storefront::Gog);
        }
        other => panic!("unexpected {other:?}"),
    }
    assert!(matches!(&state.profile_modal, ProfileModal::Login(login) if login.submitting));
    state.update(Message::ProfileUpdated(Err("rejected".into())));
    assert!(matches!(&state.profile_modal, ProfileModal::Login(login) if !login.submitting));
    match state.update(Message::CopyLoginUrl) {
        Effect::CopyToClipboard(url) => assert_eq!(url, "https://gog"),
        other => panic!("unexpected {other:?}"),
    }
}

#[test]
fn requests_need_the_profile_service() {
    let mut state = State::new();
    assert!(matches!(state.update(Message::DeleteProfile("p".into())), Effect::Nothing));
    assert!(matches!(state.update(Message::RenameSubmit), Effect::Nothing));
    let mut state = ready();
    assert!(matches!(state.update(Message::DeleteProfile("p".into())), Effect::DeleteProfile(_)));
    state.update(Message::ProfileActivated(profile("p1", "Player", false)));
    state.update(Message::NameChanged("Renamed".into()));
    match state.update(Message::RenameSubmit) {
        Effect::RenameProfile { profile_id, name } => assert_eq!((profile_id.as_str(), name.as_str()), ("p1", "Renamed")),
        other => panic!("unexpected {other:?}"),
    }
}

#[test]
fn unlinked_storefronts_are_offered_in_order() {
    assert_eq!(storefronts().len(), 7);
    assert!(signs_in(Storefront::EpicGames));
    assert!(!signs_in(Storefront::Steam));
    let options = link_options(&vec![account(Storefront::Gog), account(Storefront::Steam)]);
    assert_eq!(
        options,
        vec![
            LinkOption::Link(Storefront::EpicGames),
            LinkOption::ComingSoon(Storefront::AmazonGames),
            LinkOption::ComingSoon(Storefront::EaApp),
            LinkOption::ComingSoon(Storefront::UbisoftConnect),
            LinkOption::ComingSoon(Storefront::BattleNet),
        ]
    );
    assert_eq!(link_options(&Vec::new()).len(), 7);
}

#[test]
fn steam_accounts_of_other_profiles_are_taken() {
    let mut other = profile("p2", "Other", false);
    other.steam_link = Some(SteamLink { steam_id64: "765".into(), account_name: "gabe".into() });
    let mut active = profile("p1", "Me", false);
    active.steam_link = Some(SteamLink { steam_id64: "111".into(), account_name: "mine".into() });
    let profiles = vec![active, other];
    let candidates = vec![
        SteamCandidate { steam_id64: "765".into(), account_name: "gabe".into() },
        SteamCandidate { steam_id64: "111".into(), account_name: "mine".into() },
    ];
    let options = steam_options(&candidates, &profiles, &"p1".to_string());
    assert!(matches!(&options[0], SteamOption::Taken { account_name, owner } if account_name == "gabe" && owner == "Other"));
    assert!(matches!(&options[1], SteamOption::Link { steam_id64, account_name } if steam_id64 == "111" && account_name == "mine"));
}

#[test]
fn linked_accounts_are_described() {
    assert_eq!(account_title(&account(Storefront::Gog)), "me on GOG");
    assert_eq!(auth_state_label(AuthState::Active), "Connected");
    assert_eq!(auth_state_label(AuthState::Stale), "Needs re-authentication");
    assert_eq!(auth_state_label(AuthState::Inactive), "Signed out");
    assert_eq!(auth_state_label(AuthState::Unspecified), "Unknown");
}

#[test]
fn unlinking_goes_to_the_active_profile() {
    let mut state = ready();
    assert!(matches!(state.update(Message::UnlinkSteam), Effect::Nothing));
    state.update(Message::ProfileActivated(profile("p1", "Player", true)));
    match state.update(Message::UnlinkAccount(Storefront::Gog)) {
        Effect::UnlinkAccount { profile_id, storefront } => {
            assert_eq!(profile_id, "p1");
            assert_eq!(storefront, Storefront::Gog);
        }
        other => panic!("unexpected {other:?}"),
    }
    match state.update(Message::LinkSteam("765".into(), "gabe".into())) {
        Effect::LinkSteam { profile_id, steam_id64, account_name } => {
            assert_eq!((profile_id.as_str(), steam_id64.as_str(), account_name.as_str()), ("p1", "765", "gabe"));
        }
        other => panic!("unexpected {other:?}"),
    }
}

#[test]
fn startup_prefers_the_active_then_the_first_profile() {
    assert!(matches!(startup_choice(true, &vec![profile("p1", "One", false)]), StartupChoice::KeepActive));
    assert!(matches!(startup_choice(false, &vec![profile("p1", "One", false)]), StartupChoice::Activate(id) if id == "p1"));
    assert!(matches!(startup_choice(false, &Vec::new()), StartupChoice::CreateDefault));
    assert_eq!((DEFAULT_PROFILE_NAME, DEFAULT_PROFILE_ICON), ("Player", "person"));
}

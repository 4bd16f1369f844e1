//! The streaming client's shell: tab and pane navigation, the new-bottle
//! form and the settings tab it routes to, the profile list with the active
//! profile, the account-linking popovers and the sign-in dialog.
//!
//! Every request to the profile service or the system is returned as an
//! [`Effect`] for the host to run; its answer comes back as a [`Message`].

use vstd::prelude::*;
use crate::classic::profiles::{create_name, create_name_spec};
use crate::features::bottles;
use crate::features::library::{self, Storefront};
use crate::features::settings;
use crate::features::snapshots;
use crate::format::push_str;

verus! {

/// The tabs of the master pane.
#[derive(Debug, Clone, Copy, PartialEq, Eq, Structural)]
pub enum PrimaryTab {
    Bottles,
    Library,
}

/// The tabs of a bottle's detail pane.
#[derive(Debug, Clone, Copy, PartialEq, Eq, Structural)]
pub enum DetailTab {
    Programs,
    Settings,
    Snapshots,
}

/// What the detail pane shows.
#[derive(Debug, Clone, Copy, PartialEq, Eq, Structural)]
pub enum SplitViewState {
    /// The bottle with this id.
    Bottle(u128),
    /// The new-bottle form.
    NewBottle,
    /// The profile settings.
    Profiles,
    /// Nothing: the master pane stands alone.
    Closed,
}

/// Which account-linking popover is open; the two exclude each other.
#[derive(Debug, Clone, Copy, PartialEq, Eq, Structural)]
pub enum AccountLinkPopover {
    Closed,
    Storefront,
    Steam,
}

/// An edge or corner of the window to drag from.
#[derive(Debug, Clone, Copy, PartialEq, Eq, Structural)]
pub enum ResizeDirection {
    North,
    South,
    East,
    West,
    NorthEast,
    NorthWest,
    SouthEast,
    SouthWest,
}

/// A request of the window frame.
#[derive(Debug, Clone, Copy, PartialEq, Eq, Structural)]
pub enum WindowAction {
    Drag,
    Resize(ResizeDirection),
    Close,
}

/// A storefront sign-in in progress.
#[derive(Debug)]
pub struct LoginChallenge {
    pub storefront: Storefront,
    pub challenge_id: String,
    pub url: String,
    pub code_draft: String,
    pub submitting: bool,
}

/// The dialog over the profile pane; signing in and naming a new profile
/// exclude each other.
#[derive(Debug)]
pub enum ProfileModal {
    Closed,
    Login(LoginChallenge),
    NewProfile(String),
}

/// The state of a linked storefront account's sign-in.
#[derive(Debug, Clone, Copy, PartialEq, Eq, Structural)]
pub enum AuthState {
    Unspecified,
    Active,
    Stale,
    Inactive,
}

/// A storefront account linked to a profile.
#[derive(Debug)]
pub struct LinkedAccount {
    pub storefront: Storefront,
    pub display_name: String,
    pub auth_state: AuthState,
}

impl LinkedAccount {
    /// A copy of the account.
    pub fn clone_account(&self) -> (res: LinkedAccount)
        ensures
            res == *self,
    {
        LinkedAccount { storefront: self.storefront, display_name: self.display_name.clone(), auth_state: self.auth_state }
    }
}

/// The Steam account linked to a profile.
#[derive(Debug)]
pub struct SteamLink {
    pub steam_id64: String,
    pub account_name: String,
}

/// A user profile, as far as the shell reads it.
#[derive(Debug)]
pub struct UserProfile {
    pub id: String,
    pub name: String,
    pub accounts: Vec<LinkedAccount>,
    pub steam_link: Option<SteamLink>,
}

/// What a profile holds, as values.
pub struct ProfileView {
    pub id: Seq<char>,
    pub name: Seq<char>,
    pub accounts: Seq<LinkedAccount>,
    pub steam_link: Option<SteamLink>,
}

impl View for UserProfile {
    type V = ProfileView;

    open spec fn view(&self) -> ProfileView {
        ProfileView { id: self.id@, name: self.name@, accounts: self.accounts@, steam_link: self.steam_link }
    }
}

/// The values of a list of profiles.
pub open spec fn views(profiles: Seq<UserProfile>) -> Seq<ProfileView> {
    profiles.map_values(|profile: UserProfile| profile@)
}

impl UserProfile {
    /// Whether the library stream has anything to report for the profile.
    pub open spec fn watchable_spec(self) -> bool {
        self.accounts@.len() > 0 || self.steam_link is Some
    }

    /// A copy of the profile.
    pub fn clone_profile(&self) -> (res: UserProfile)
        ensures
            res@ == self@,
    {
        let mut accounts: Vec<LinkedAccount> = Vec::new();
        let mut i: usize = 0;
        while i < self.accounts.len()
            invariant
                0 <= i <= self.accounts@.len(),
                accounts@ == self.accounts@.take(i as int),
            decreases self.accounts@.len() - i,
        {
            accounts.push(self.accounts[i].clone_account());
            proof {
                assert(self.accounts@.take(i as int + 1) =~= self.accounts@.take(i as int).push(self.accounts@[i as int]));
            }
            i += 1;
        }
        proof {
            assert(self.accounts@.take(self.accounts@.len() as int) =~= self.accounts@);
        }
        let steam_link = match &self.steam_link {
            Some(link) => Some(SteamLink { steam_id64: link.steam_id64.clone(), account_name: link.account_name.clone() }),
            None => None,
        };
        proof {
            assert(accounts@ =~= self.accounts@);
        }
        UserProfile { id: self.id.clone(), name: self.name.clone(), accounts, steam_link }
    }
}

/// A Steam account found on this machine.
#[derive(Debug)]
pub struct SteamCandidate {
    pub steam_id64: String,
    pub account_name: String,
}

/// An input of the shell.
#[derive(Debug)]
pub enum Message {
    PrimaryTabSelected(PrimaryTab),
    DetailTabSelected(DetailTab),
    BottleSelected(u128),
    Back,
    AddBottle,
    CancelBottle,
    OpenMenu,
    TogglePower,
    Window(WindowAction),
    MoveFocus(bool),
    Bottles(bottles::Message),
    Settings(settings::Message),
    Snapshots(snapshots::Message),
    Library(library::Message),
    /// The profile service was reached, or could not be.
    ProfileManagerLoaded(Result<(), String>),
    ProfilesLoaded(Vec<UserProfile>),
    /// The service reports a profile as the active one.
    ProfileActivated(UserProfile),
    /// The service reports a profile as changed.
    ProfileChanged(UserProfile),
    /// The service reports the profile with this id as deleted.
    ProfileRemoved(String),
    ToggleProfileSwitcher,
    ToggleProfileSettings,
    ActivateProfile(String),
    ToggleNewProfile,
    CancelNewProfile,
    NewProfileNameChanged(String),
    SubmitNewProfile,
    ProfileUpdated(Result<UserProfile, String>),
    ToggleLink,
    ToggleSteam,
    SteamCandidatesDetected(Vec<SteamCandidate>),
    Dismiss,
    NameChanged(String),
    RenameSubmit,
    UnlinkAccount(Storefront),
    BeginLogin(Storefront),
    LoginChallengeReceived(Result<(Storefront, String, String), String>),
    LoginCodeChanged(String),
    OpenLoginUrl,
    CopyLoginUrl,
    SubmitLoginCode,
    CancelLogin,
    UnlinkSteam,
    LinkSteam(String, String),
    DeleteProfile(String),
    ProfileDeleted(Result<(), String>),
    Noop,
}

/// Work for the host.
#[derive(Debug)]
pub enum Effect {
    Nothing,
    /// Read the snapshots of this bottle.
    LoadSnapshots(u128),
    /// Carry out a request of the window frame.
    Window(WindowAction),
    /// Work of the new-bottle form.
    Bottles(bottles::Effect),
    /// Run this program of this bottle.
    LaunchProgram { bottle_id: u128, program_id: u128 },
    /// Work of the settings tab on this bottle.
    Settings { bottle_id: u128, effect: settings::Effect },
    /// Read the bottles' states again.
    RefreshBottleStates,
    /// Move the keyboard focus back or forth.
    MoveFocus(bool),
    /// Read the service's active profile and its profiles; the profile to
    /// activate follows [`startup_choice`].
    LoadProfiles,
    /// Make this profile the active one.
    ActivateProfile(String),
    /// Create a profile with this name and activate it.
    CreateProfile(String),
    /// Look for Steam accounts on this machine.
    DetectSteamUsers,
    RenameProfile { profile_id: String, name: String },
    DeleteProfile(String),
    UnlinkAccount { profile_id: String, storefront: Storefront },
    BeginLogin { profile_id: String, storefront: Storefront },
    OpenUrl(String),
    CopyToClipboard(String),
    CompleteLogin { profile_id: String, challenge_id: String, storefront: Storefront, code: String },
    UnlinkSteam(String),
    LinkSteam { profile_id: String, steam_id64: String, account_name: String },
}

/// Whether a profile has this id.
pub open spec fn has_id(profile: ProfileView, id: Seq<char>) -> bool {
    profile.id == id
}

/// Whether the list holds a profile with this id.
pub open spec fn holds_profile(profiles: Seq<ProfileView>, id: Seq<char>) -> bool {
    exists|k: int| 0 <= k < profiles.len() && has_id(#[trigger] profiles[k], id)
}

/// The first position of a profile with this id.
pub open spec fn profile_index(profiles: Seq<ProfileView>, id: Seq<char>) -> int {
    choose|k: int| 0 <= k < profiles.len() && has_id(profiles[k], id)
        && forall|j: int| 0 <= j < k ==> !has_id(#[trigger] profiles[j], id)
}

/// The list with `profile` in place of the one with its id, or appended.
pub open spec fn upserted(profiles: Seq<ProfileView>, profile: ProfileView) -> Seq<ProfileView> {
    if holds_profile(profiles, profile.id) {
        profiles.update(profile_index(profiles, profile.id), profile)
    } else {
        profiles.push(profile)
    }
}

/// The test that keeps every profile but those with this id.
pub open spec fn other_than(id: Seq<char>) -> spec_fn(ProfileView) -> bool {
    |profile: ProfileView| !has_id(profile, id)
}

/// Whether the optional profile has this id.
pub open spec fn is_active(active: Option<UserProfile>, id: Seq<char>) -> bool {
    match active {
        Some(profile) => profile.id@ == id,
        None => false,
    }
}

/// Position of the first profile with this id.
fn find_profile(profiles: &Vec<UserProfile>, id: &String) -> (res: Option<usize>)
    ensures
        match res {
            Some(k) => k < profiles@.len() && has_id(views(profiles@)[k as int], id@)
                && forall|j: int| 0 <= j < k ==> !has_id(#[trigger] views(profiles@)[j], id@),
            None => !holds_profile(views(profiles@), id@),
        },
{
    let ghost all = views(profiles@);
    let mut k: usize = 0;
    while k < profiles.len()
        invariant
            0 <= k <= profiles@.len(),
            all == views(profiles@),
            forall|j: int| 0 <= j < k ==> !has_id(#[trigger] all[j], id@),
        decreases profiles@.len() - k,
    {
        assert(all[k as int] == profiles@[k as int]@);
        if profiles[k].id == *id {
            return Some(k);
        }
        k += 1;
    }
    None
}

/// Puts `profile` in place of the one with its id, or appends it.
pub fn upsert_profile(profiles: &mut Vec<UserProfile>, profile: UserProfile)
    ensures
        views(final(profiles)@) == upserted(views(old(profiles)@), profile@),
{
    let ghost before = views(profiles@);
    match find_profile(profiles, &profile.id) {
        Some(k) => {
            proof {
                assert(holds_profile(before, profile.id@));
                let c = profile_index(before, profile.id@);
                if c < k {
                    assert(!has_id(before[c], profile.id@));
                } else if k < c {
                    assert(!has_id(before[k as int], profile.id@));
                }
            }
            let ghost view = profile@;
            profiles.set(k, profile);
            proof {
                assert(views(profiles@) =~= before.update(k as int, view));
            }
        },
        None => {
            let ghost view = profile@;
            profiles.push(profile);
            proof {
                assert(views(profiles@) =~= before.push(view));
            }
        },
    }
}

/// Drops every profile with this id, keeping the others in order.
pub fn remove_profile(profiles: &mut Vec<UserProfile>, id: &String)
    ensures
        views(final(profiles)@) == views(old(profiles)@).filter(other_than(id@)),
{
    let ghost keep = other_than(id@);
    let ghost all = views(profiles@);
    let mut out: Vec<UserProfile> = Vec::new();
    let mut i: usize = 0;
    while i < profiles.len()
        invariant
            0 <= i <= profiles@.len(),
            profiles@ == old(profiles)@,
            all == views(profiles@),
            keep == other_than(id@),
            views(out@) == all.take(i as int).filter(keep),
        decreases profiles@.len() - i,
    {
        let same = profiles[i].id == *id;
        proof {
            assert(all[i as int] == profiles@[i as int]@);
            assert(all.take(i as int + 1) =~= all.take(i as int).push(all[i as int]));
            reveal(Seq::filter);
            assert(all.take(i as int + 1).drop_last() =~= all.take(i as int));
            assert(keep(all[i as int]) == !same);
        }
        if !same {
            let copy = profiles[i].clone_profile();
            let ghost before = out@;
            out.push(copy);
            proof {
                assert(views(out@) =~= views(before).push(all[i as int]));
            }
        }
        i += 1;
    }
    proof {
        assert(all.take(all.len() as int) =~= all);
    }
    *profiles = out;
}

/// The shell's state.
pub struct State {
    pub primary_tab: PrimaryTab,
    pub detail_tab: DetailTab,
    pub split_view_state: SplitViewState,
    pub bottles: bottles::State,
    pub snapshots: snapshots::State,
    pub settings: settings::State,
    /// Whether the profile service has been reached.
    pub has_profile_manager: bool,
    pub profiles: Vec<UserProfile>,
    pub active_profile: Option<UserProfile>,
    pub profile_switcher_open: bool,
    pub library: library::State,
    pub name_draft: String,
    pub account_link_popover: AccountLinkPopover,
    pub steam_candidates: Vec<SteamCandidate>,
    pub profile_modal: ProfileModal,
}

/// The library after a reset for a profile with these watch prospects.
pub open spec fn library_reset(lib: library::State, has_watchable_accounts: Option<bool>) -> bool {
    &&& lib.games@.len() == 0
    &&& match has_watchable_accounts {
        None => lib.state is Idle,
        Some(true) => lib.state is Loading,
        Some(false) => lib.state is Loaded,
    }
}

/// The fields a profile change leaves alone.
pub open spec fn same_outside_profiles(a: State, b: State) -> bool {
    &&& a.primary_tab == b.primary_tab
    &&& a.detail_tab == b.detail_tab
    &&& a.split_view_state == b.split_view_state
    &&& a.bottles == b.bottles
    &&& a.snapshots == b.snapshots
    &&& a.settings == b.settings
    &&& a.has_profile_manager == b.has_profile_manager
    &&& a.profile_switcher_open == b.profile_switcher_open
    &&& a.account_link_popover == b.account_link_popover
    &&& a.steam_candidates == b.steam_candidates
    &&& a.profile_modal == b.profile_modal
}

/// The state after `profile` became the active one: it is in the list and
/// active, the name field shows its name, and the library starts over when
/// the active profile changed.
pub open spec fn activated(old: State, profile: UserProfile, new: State) -> bool {
    &&& views(new.profiles@) == upserted(views(old.profiles@), profile@)
    &&& new.active_profile == Some(profile)
    &&& new.name_draft@ == profile.name@
    &&& if is_active(old.active_profile, profile.id@) {
        new.library == old.library
    } else {
        library_reset(new.library, Some(profile.watchable_spec()))
    }
}

/// The id of the active profile, when the profile service is reached and a
/// profile is active.
pub open spec fn acting_profile(state: State) -> Option<Seq<char>> {
    if state.has_profile_manager {
        match state.active_profile {
            Some(profile) => Some(profile.id@),
            None => None,
        }
    } else {
        None
    }
}

/// What the settings tab knows of a bottle: the store's handle and state of
/// it exist exactly when the store lists it.
pub open spec fn listed_context(bottles: bottles::State, id: u128) -> settings::Context {
    settings::Context { has_bottle: bottles.bottle_ids@.contains(id), has_state: bottles.bottle_ids@.contains(id) }
}

/// What an update does, message by message.
pub open spec fn update_post(old: State, message: Message, new: State, effect: Effect) -> bool {
    match message {
        Message::PrimaryTabSelected(tab) => {
            &&& new == State {
                primary_tab: tab,
                split_view_state: if tab == PrimaryTab::Library { SplitViewState::Closed } else { old.split_view_state },
                ..old
            }
            &&& effect is Nothing
        },
        Message::DetailTabSelected(tab) => new == State { detail_tab: tab, ..old } && effect is Nothing,
        Message::BottleSelected(id) => {
            &&& new.primary_tab == PrimaryTab::Bottles
            &&& new.split_view_state == SplitViewState::Bottle(id)
            &&& new.snapshots.snapshots@.len() == 0 && new.snapshots.snapshot_rows@.len() == 0
            &&& new == State {
                primary_tab: PrimaryTab::Bottles,
                split_view_state: SplitViewState::Bottle(id),
                snapshots: new.snapshots,
                ..old
            }
            &&& if old.bottles.bottle_ids@.contains(id) { effect == Effect::LoadSnapshots(id) } else { effect is Nothing }
        },
        Message::Back | Message::CancelBottle => {
            new == State { split_view_state: SplitViewState::Closed, ..old } && effect is Nothing
        },
        Message::AddBottle => {
            &&& bottles::creation_reset(old.bottles, new.bottles)
            &&& new == State { split_view_state: SplitViewState::NewBottle, bottles: new.bottles, ..old }
            &&& effect is Nothing
        },
        Message::Window(action) => new == old && effect == Effect::Window(action),
        Message::MoveFocus(previous) => new == old && effect == Effect::MoveFocus(previous),
        Message::Bottles(message) => match message {
            bottles::Message::LaunchProgram(program_id) => {
                &&& new == old
                &&& match old.split_view_state {
                    SplitViewState::Bottle(bottle_id) if old.bottles.bottle_ids@.contains(bottle_id) =>
                        effect == (Effect::LaunchProgram { bottle_id, program_id }),
                    _ => effect is Nothing,
                }
            },
            _ => {
                let closes = message matches bottles::Message::BottleCreated(Ok(_));
                &&& effect matches Effect::Bottles(e) && bottles::State::update_post(old.bottles, message, new.bottles, e)
                &&& new == State {
                    bottles: new.bottles,
                    split_view_state: if closes { SplitViewState::Closed } else { old.split_view_state },
                    ..old
                }
            },
        },
        Message::Settings(message) => {
            &&& new == old
            &&& if message matches settings::Message::WrapperUpdated(Ok(_)) {
                effect is RefreshBottleStates
            } else {
                match old.split_view_state {
                    SplitViewState::Bottle(bottle_id) => match settings::effect_of(message, listed_context(old.bottles, bottle_id)) {
                        settings::Effect::Nothing => effect is Nothing,
                        e => effect == (Effect::Settings { bottle_id, effect: e }),
                    },
                    _ => effect is Nothing,
                }
            }
        },
        Message::Snapshots(message) => {
            &&& snapshots::State::update_post(old.snapshots, message, new.snapshots)
            &&& new == State { snapshots: new.snapshots, ..old }
            &&& effect is Nothing
        },
        Message::Library(message) => {
            &&& library::State::update_post(old.library, message, new.library)
            &&& new == State { library: new.library, ..old }
            &&& effect is Nothing
        },
        Message::ProfileManagerLoaded(result) => match result {
            Ok(_) => new == State { has_profile_manager: true, ..old } && effect is LoadProfiles,
            Err(_) => new == old && effect is Nothing,
        },
        Message::ProfilesLoaded(profiles) => new == State { profiles, ..old } && effect is Nothing,
        Message::ProfileActivated(profile) => {
            &&& activated(old, profile, new)
            &&& same_outside_profiles(old, new)
            &&& effect is Nothing
        },
        Message::ProfileChanged(profile) => {
            &&& new == State {
                profiles: new.profiles,
                active_profile: if is_active(old.active_profile, profile.id@) { Some(profile) } else { old.active_profile },
                ..old
            }
            &&& views(new.profiles@) == upserted(views(old.profiles@), profile@)
            &&& effect is Nothing
        },
        Message::ProfileRemoved(id) => {
            &&& views(new.profiles@) == views(old.profiles@).filter(other_than(id@))
            &&& same_outside_profiles(old, new)
            &&& if is_active(old.active_profile, id@) {
                &&& new.active_profile is None
                &&& new.name_draft@.len() == 0
                &&& library_reset(new.library, None)
                &&& if old.has_profile_manager && new.profiles@.len() > 0 {
                    effect matches Effect::ActivateProfile(next) && next@ == new.profiles@[0].id@
                } else {
                    effect is Nothing
                }
            } else {
                &&& new.active_profile == old.active_profile
                &&& new.name_draft == old.name_draft
                &&& new.library == old.library
                &&& effect is Nothing
            }
        },
        Message::ToggleProfileSwitcher => {
            new == State { profile_switcher_open: !old.profile_switcher_open, ..old } && effect is Nothing
        },
        Message::ToggleProfileSettings => {
            &&& new == State {
                split_view_state: if old.split_view_state == SplitViewState::Profiles {
                    SplitViewState::Closed
                } else {
                    SplitViewState::Profiles
                },
                ..old
            }
            &&& effect is Nothing
        },
        Message::ActivateProfile(id) => {
            &&& new == old
            &&& if old.has_profile_manager { effect == Effect::ActivateProfile(id) } else { effect is Nothing }
        },
        Message::ToggleNewProfile => {
            &&& new == State { profile_modal: new.profile_modal, ..old }
            &&& new.profile_modal matches ProfileModal::NewProfile(draft) && draft@.len() == 0
            &&& effect is Nothing
        },
        Message::CancelNewProfile | Message::CancelLogin => {
            new == State { profile_modal: ProfileModal::Closed, ..old } && effect is Nothing
        },
        Message::NewProfileNameChanged(name) => {
            &&& new == State {
                profile_modal: if old.profile_modal is NewProfile { ProfileModal::NewProfile(name) } else { old.profile_modal },
                ..old
            }
            &&& effect is Nothing
        },
        Message::SubmitNewProfile => {
            &&& new == State { profile_modal: ProfileModal::Closed, ..old }
            &&& match old.profile_modal {
                ProfileModal::NewProfile(draft) => if old.has_profile_manager {
                    effect matches Effect::CreateProfile(name) && name@ == create_name_spec(draft@)
                } else {
                    effect is Nothing
                },
                _ => effect is Nothing,
            }
        },
        Message::ProfileUpdated(result) => match result {
            Ok(profile) => {
                &&& activated(old, profile, new)
                &&& same_outside_profiles(old, State { profile_modal: old.profile_modal, ..new })
                &&& new.profile_modal is Closed
                &&& effect is Nothing
            },
            Err(_) => {
                &&& new == State { profile_modal: new.profile_modal, ..old }
                &&& match old.profile_modal {
                    ProfileModal::Login(login) => new.profile_modal == ProfileModal::Login(
                        LoginChallenge { submitting: false, ..login },
                    ),
                    _ => new.profile_modal == old.profile_modal,
                }
                &&& effect is Nothing
            },
        },
        Message::ToggleLink => {
            &&& new == State {
                account_link_popover: if old.account_link_popover == AccountLinkPopover::Storefront {
                    AccountLinkPopover::Closed
                } else {
                    AccountLinkPopover::Storefront
                },
                ..old
            }
            &&& effect is Nothing
        },
        Message::ToggleSteam => {
            &&& new == State {
                account_link_popover: if old.account_link_popover == AccountLinkPopover::Steam {
                    AccountLinkPopover::Closed
                } else {
                    AccountLinkPopover::Steam
                },
                ..old
            }
            &&& if new.account_link_popover == AccountLinkPopover::Steam { effect is DetectSteamUsers } else { effect is Nothing }
        },
        Message::SteamCandidatesDetected(candidates) => {
            new == State { steam_candidates: candidates, ..old } && effect is Nothing
        },
        Message::Dismiss => new == State { account_link_popover: AccountLinkPopover::Closed, ..old } && effect is Nothing,
        Message::NameChanged(name) => new == State { name_draft: name, ..old } && effect is Nothing,
        Message::RenameSubmit => {
            &&& new == old
            &&& match acting_profile(old) {
                Some(id) => effect matches Effect::RenameProfile { profile_id, name }
                    && profile_id@ == id && name@ == old.name_draft@,
                None => effect is Nothing,
            }
        },
        Message::DeleteProfile(id) => {
            &&& new == old
            &&& if old.has_profile_manager { effect == Effect::DeleteProfile(id) } else { effect is Nothing }
        },
        Message::UnlinkAccount(storefront) => {
            &&& new == old
            &&& match acting_profile(old) {
                Some(id) => effect matches Effect::UnlinkAccount { profile_id, storefront: s }
                    && profile_id@ == id && s == storefront,
                None => effect is Nothing,
            }
        },
        Message::BeginLogin(storefront) => {
            &&& new == State { account_link_popover: AccountLinkPopover::Closed, ..old }
            &&& match old.active_profile {
                Some(profile) => effect matches Effect::BeginLogin { profile_id, storefront: s }
                    && profile_id@ == profile.id@ && s == storefront,
                None => effect is Nothing,
            }
        },
        Message::LoginChallengeReceived(result) => match result {
            Ok((storefront, challenge_id, url)) => {
                &&& new == State { profile_modal: new.profile_modal, ..old }
                &&& new.profile_modal matches ProfileModal::Login(login)
                    && login.storefront == storefront && login.challenge_id == challenge_id
                    && login.url == url && login.code_draft@.len() == 0 && !login.submitting
                &&& effect is Nothing
            },
            Err(_) => new == old && effect is Nothing,
        },
        Message::LoginCodeChanged(code) => {
            &&& new == State {
                profile_modal: match old.profile_modal {
                    ProfileModal::Login(login) => ProfileModal::Login(LoginChallenge { code_draft: code, ..login }),
                    other => other,
                },
                ..old
            }
            &&& effect is Nothing
        },
        Message::OpenLoginUrl => {
            &&& new == old
            &&& match old.profile_modal {
                ProfileModal::Login(login) => effect matches Effect::OpenUrl(url) && url@ == login.url@,
                _ => effect is Nothing,
            }
        },
        Message::CopyLoginUrl => {
            &&& new == old
            &&& match old.profile_modal {
                ProfileModal::Login(login) => effect matches Effect::CopyToClipboard(url) && url@ == login.url@,
                _ => effect is Nothing,
            }
        },
        Message::SubmitLoginCode => match (old.active_profile, old.profile_modal) {
            (Some(profile), ProfileModal::Login(login)) => {
                &&& new == State {
                    profile_modal: ProfileModal::Login(LoginChallenge { submitting: true, ..login }),
                    ..old
                }
                &&& effect matches Effect::CompleteLogin { profile_id, challenge_id, storefront, code }
                    && profile_id@ == profile.id@ && challenge_id@ == login.challenge_id@
                    && storefront == login.storefront && code@ == login.code_draft@
            },
            _ => new == old && effect is Nothing,
        },
        Message::UnlinkSteam => {
            &&& new == old
            &&& match acting_profile(old) {
                Some(id) => effect matches Effect::UnlinkSteam(profile_id) && profile_id@ == id,
                None => effect is Nothing,
            }
        },
        Message::LinkSteam(steam_id64, account_name) => {
            &&& new == State { account_link_popover: AccountLinkPopover::Closed, ..old }
            &&& match acting_profile(old) {
                Some(id) => effect matches Effect::LinkSteam { profile_id, steam_id64: s, account_name: a }
                    && profile_id@ == id && s == steam_id64 && a == account_name,
                None => effect is Nothing,
            }
        },
        Message::ProfileDeleted(_) | Message::OpenMenu | Message::TogglePower | Message::Noop => {
            new == old && effect is Nothing
        },
    }
}

/// Name of the profile made when the service has none.
pub const DEFAULT_PROFILE_NAME: &'static str = "Player";

/// Icon of the profile made when the service has none.
pub const DEFAULT_PROFILE_ICON: &'static str = "person";

/// Which profile becomes active once the service is reached.
#[derive(Debug)]
pub enum StartupChoice {
    /// The service already has an active profile.
    KeepActive,
    /// Activate the profile with this id.
    Activate(String),
    /// Create the default profile and activate it.
    CreateDefault,
}

/// Which profile becomes active at startup: the service's active one, else
/// the first listed, else a new default profile.
pub fn startup_choice(active_known: bool, listed: &Vec<UserProfile>) -> (res: StartupChoice)
    ensures
        active_known ==> res is KeepActive,
        !active_known && listed@.len() > 0 ==> (res matches StartupChoice::Activate(id) && id@ == listed@[0].id@),
        !active_known && listed@.len() == 0 ==> res is CreateDefault,
{
    if active_known {
        StartupChoice::KeepActive
    } else if listed.len() > 0 {
        StartupChoice::Activate(listed[0].id.clone())
    } else {
        StartupChoice::CreateDefault
    }
}

/// The storefronts offered for linking, in the order shown.
pub open spec fn storefronts_spec() -> Seq<Storefront> {
    seq![
        Storefront::Steam,
        Storefront::EpicGames,
        Storefront::Gog,
        Storefront::AmazonGames,
        Storefront::EaApp,
        Storefront::UbisoftConnect,
        Storefront::BattleNet,
    ]
}

/// The storefronts offered for linking.
pub fn storefronts() -> (res: Vec<Storefront>)
    ensures
        res@ == storefronts_spec(),
{
    vec![
        Storefront::Steam,
        Storefront::EpicGames,
        Storefront::Gog,
        Storefront::AmazonGames,
        Storefront::EaApp,
        Storefront::UbisoftConnect,
        Storefront::BattleNet,
    ]
}

/// Whether linking a storefront goes through a sign-in today.
pub open spec fn signs_in_spec(storefront: Storefront) -> bool {
    storefront == Storefront::EpicGames || storefront == Storefront::Gog
}

/// Whether linking a storefront goes through a sign-in today.
pub fn signs_in(storefront: Storefront) -> (res: bool)
    ensures
        res == signs_in_spec(storefront),
{
    match storefront {
        Storefront::EpicGames | Storefront::Gog => true,
        _ => false,
    }
}

/// An entry of the link popover.
#[derive(Debug, Clone, Copy, PartialEq, Eq, Structural)]
pub enum LinkOption {
    /// The storefront can be linked by signing in.
    Link(Storefront),
    /// The storefront is listed, but cannot be linked yet.
    ComingSoon(Storefront),
}

pub open spec fn option_for(storefront: Storefront) -> LinkOption {
    if signs_in_spec(storefront) { LinkOption::Link(storefront) } else { LinkOption::ComingSoon(storefront) }
}

/// The storefronts the accounts are on.
pub open spec fn linked_storefronts(accounts: Seq<LinkedAccount>) -> Seq<Storefront> {
    accounts.map_values(|account: LinkedAccount| account.storefront)
}

/// The test that keeps the storefronts no account is on.
pub open spec fn unlinked(accounts: Seq<LinkedAccount>) -> spec_fn(Storefront) -> bool {
    |storefront: Storefront| !linked_storefronts(accounts).contains(storefront)
}

/// The link popover's entries for a profile with these accounts: every
/// offered storefront without an account, in order.
pub open spec fn link_options_spec(accounts: Seq<LinkedAccount>) -> Seq<LinkOption> {
    storefronts_spec().filter(unlinked(accounts)).map_values(|storefront: Storefront| option_for(storefront))
}

/// The link popover offers every storefront that no account is on yet: one
/// can be linked by signing in exactly when it is Epic Games or GOG, and
/// every other one is shown as coming soon.
pub proof fn law_epic_and_gog_link_by_signing_in(accounts: Seq<LinkedAccount>, storefront: Storefront)
    requires
        storefront != Storefront::Unspecified,
        !linked_storefronts(accounts).contains(storefront),
    ensures
        link_options_spec(accounts).contains(LinkOption::Link(storefront))
            <==> (storefront == Storefront::EpicGames || storefront == Storefront::Gog),
        link_options_spec(accounts).contains(LinkOption::ComingSoon(storefront))
            <==> !(storefront == Storefront::EpicGames || storefront == Storefront::Gog),
{
    let all = storefronts_spec();
    let keep = unlinked(accounts);
    let filtered = all.filter(keep);
    let opts = link_options_spec(accounts);
    all.filter_lemma(keep);
    let idx: int = match storefront {
        Storefront::Steam => 0,
        Storefront::EpicGames => 1,
        Storefront::Gog => 2,
        Storefront::AmazonGames => 3,
        Storefront::EaApp => 4,
        Storefront::UbisoftConnect => 5,
        _ => 6,
    };
    assert(all[idx] == storefront);
    assert(keep(all[idx]));
    assert(filtered.contains(storefront));
    let m = choose|m: int| 0 <= m < filtered.len() && filtered[m] == storefront;
    assert(opts[m] == option_for(storefront));
    assert(opts.contains(option_for(storefront)));
    if storefront == Storefront::EpicGames || storefront == Storefront::Gog {
        if opts.contains(LinkOption::ComingSoon(storefront)) {
            let n = choose|n: int| 0 <= n < opts.len() && opts[n] == LinkOption::ComingSoon(storefront);
            assert(opts[n] == option_for(filtered[n]));
        }
    } else {
        if opts.contains(LinkOption::Link(storefront)) {
            let n = choose|n: int| 0 <= n < opts.len() && opts[n] == LinkOption::Link(storefront);
            assert(opts[n] == option_for(filtered[n]));
        }
    }
}

fn is_linked(accounts: &Vec<LinkedAccount>, storefront: Storefront) -> (res: bool)
    ensures
        res == linked_storefronts(accounts@).contains(storefront),
{
    let ghost linked = linked_storefronts(accounts@);
    let mut j: usize = 0;
    while j < accounts.len()
        invariant
            0 <= j <= accounts@.len(),
            linked == linked_storefronts(accounts@),
            forall|k: int| 0 <= k < j ==> linked[k] != storefront,
        decreases accounts@.len() - j,
    {
        if accounts[j].storefront == storefront {
            assert(linked[j as int] == storefront);
            return true;
        }
        j += 1;
    }
    false
}

/// The link popover's entries for a profile with these accounts.
pub fn link_options(accounts: &Vec<LinkedAccount>) -> (res: Vec<LinkOption>)
    ensures
        res@ == link_options_spec(accounts@),
{
    let all = storefronts();
    let ghost keep = unlinked(accounts@);
    let ghost to_option = |storefront: Storefront| option_for(storefront);
    let mut res: Vec<LinkOption> = Vec::new();
    let mut i: usize = 0;
    while i < all.len()
        invariant
            0 <= i <= all@.len(),
            all@ == storefronts_spec(),
            keep == unlinked(accounts@),
            to_option == (|storefront: Storefront| option_for(storefront)),
            res@ == all@.take(i as int).filter(keep).map_values(to_option),
        decreases all@.len() - i,
    {
        let storefront = all[i];
        let linked = is_linked(accounts, storefront);
        proof {
            assert(all@.take(i as int + 1) =~= all@.take(i as int).push(storefront));
            reveal(Seq::filter);
            assert(all@.take(i as int + 1).drop_last() =~= all@.take(i as int));
            assert(keep(storefront) == !linked);
        }
        if !linked {
            let option = if signs_in(storefront) { LinkOption::Link(storefront) } else { LinkOption::ComingSoon(storefront) };
            proof {
                let before = all@.take(i as int).filter(keep);
                assert(before.push(storefront).map_values(to_option) =~= before.map_values(to_option).push(option));
            }
            res.push(option);
        }
        i += 1;
    }
    proof {
        assert(all@.take(all@.len() as int) =~= all@);
    }
    res
}

/// Whether a profile other than the active one has this Steam account.
pub open spec fn owns_steam(profile: UserProfile, active_id: Seq<char>, steam_id64: Seq<char>) -> bool {
    &&& profile.id@ != active_id
    &&& profile.steam_link matches Some(link) && link.steam_id64@ == steam_id64
}

/// An entry of the Steam popover.
#[derive(Debug)]
pub enum SteamOption {
    /// The account can be linked to the active profile.
    Link { steam_id64: String, account_name: String },
    /// Another profile, named `owner`, has the account already.
    Taken { account_name: String, owner: String },
}

/// Whether the entry shows the candidate as taken by a profile named `owner`.
pub open spec fn shows_taken(option: SteamOption, candidate: SteamCandidate, owner: Seq<char>) -> bool {
    option matches SteamOption::Taken { account_name, owner: o } && account_name@ == candidate.account_name@ && o@ == owner
}

/// What the Steam popover shows for a detected account: taken by the first
/// other profile that has it, else offered for linking.
pub open spec fn steam_option_fits(option: SteamOption, candidate: SteamCandidate, profiles: Seq<UserProfile>, active_id: Seq<char>) -> bool {
    if exists|k: int| 0 <= k < profiles.len() && owns_steam(#[trigger] profiles[k], active_id, candidate.steam_id64@) {
        exists|k: int| 0 <= k < profiles.len() && owns_steam(profiles[k], active_id, candidate.steam_id64@)
            && (forall|j: int| 0 <= j < k ==> !owns_steam(#[trigger] profiles[j], active_id, candidate.steam_id64@))
            && shows_taken(option, candidate, profiles[k].name@)
    } else {
        option matches SteamOption::Link { steam_id64, account_name }
            && steam_id64@ == candidate.steam_id64@ && account_name@ == candidate.account_name@
    }
}

/// Position of the first profile other than the active one with this Steam account.
fn find_steam_owner(profiles: &Vec<UserProfile>, active_id: &String, steam_id64: &String) -> (res: Option<usize>)
    ensures
        match res {
            Some(k) => k < profiles@.len() && owns_steam(profiles@[k as int], active_id@, steam_id64@)
                && forall|j: int| 0 <= j < k ==> !owns_steam(#[trigger] profiles@[j], active_id@, steam_id64@),
            None => forall|j: int| 0 <= j < profiles@.len() ==> !owns_steam(#[trigger] profiles@[j], active_id@, steam_id64@),
        },
{
    let mut k: usize = 0;
    while k < profiles.len()
        invariant
            0 <= k <= profiles@.len(),
            forall|j: int| 0 <= j < k ==> !owns_steam(#[trigger] profiles@[j], active_id@, steam_id64@),
        decreases profiles@.len() - k,
    {
        let profile = &profiles[k];
        if profile.id != *active_id {
            if let Some(link) = &profile.steam_link {
                if link.steam_id64 == *steam_id64 {
                    return Some(k);
                }
            }
        }
        k += 1;
    }
    None
}

/// The Steam popover's entries for the detected accounts.
pub fn steam_options(candidates: &Vec<SteamCandidate>, profiles: &Vec<UserProfile>, active_id: &String) -> (res: Vec<SteamOption>)
    ensures
        res@.len() == candidates@.len(),
        forall|k: int| 0 <= k < res@.len() ==> steam_option_fits(#[trigger] res@[k], candidates@[k], profiles@, active_id@),
{
    let mut res: Vec<SteamOption> = Vec::new();
    let mut i: usize = 0;
    while i < candidates.len()
        invariant
            0 <= i <= candidates@.len(),
            res@.len() == i,
            forall|k: int| 0 <= k < i ==> steam_option_fits(#[trigger] res@[k], candidates@[k], profiles@, active_id@),
        decreases candidates@.len() - i,
    {
        let candidate = &candidates[i];
        let option = match find_steam_owner(profiles, active_id, &candidate.steam_id64) {
            Some(k) => SteamOption::Taken { account_name: candidate.account_name.clone(), owner: profiles[k].name.clone() },
            None => SteamOption::Link { steam_id64: candidate.steam_id64.clone(), account_name: candidate.account_name.clone() },
        };
        res.push(option);
        i += 1;
    }
    res
}

pub open spec fn auth_state_label_spec(state: AuthState) -> Seq<char> {
    match state {
        AuthState::Active => "Connected"@,
        AuthState::Stale => "Needs re-authentication"@,
        AuthState::Inactive => "Signed out"@,
        AuthState::Unspecified => "Unknown"@,
    }
}

/// How a linked account's sign-in is described.
pub fn auth_state_label(state: AuthState) -> (res: &'static str)
    ensures
        res@ == auth_state_label_spec(state),
{
    match state {
        AuthState::Active => "Connected",
        AuthState::Stale => "Needs re-authentication",
        AuthState::Inactive => "Signed out",
        AuthState::Unspecified => "Unknown",
    }
}

/// The title of a linked account's row: the account on its storefront.
pub fn account_title(account: &LinkedAccount) -> (res: String)
    ensures
        res@ == account.display_name@ + " on "@ + library::storefront_label_spec(account.storefront),
{
    let mut out = account.display_name.clone();
    push_str(&mut out, " on ");
    push_str(&mut out, library::storefront_label(account.storefront));
    out
}

impl State {
    /// The Bottles tab with nothing open, no profiles and no service yet.
    pub fn new() -> (state: Self)
        ensures
            state.primary_tab == PrimaryTab::Bottles,
            state.detail_tab == DetailTab::Programs,
            state.split_view_state == SplitViewState::Closed,
            !state.has_profile_manager,
            state.profiles@.len() == 0,
            state.active_profile is None,
            !state.profile_switcher_open,
            state.library.state is Idle,
            state.library.games@.len() == 0,
            state.name_draft@.len() == 0,
            state.account_link_popover == AccountLinkPopover::Closed,
            state.steam_candidates@.len() == 0,
            state.profile_modal is Closed,
    {
        State {
            primary_tab: PrimaryTab::Bottles,
            detail_tab: DetailTab::Programs,
            split_view_state: SplitViewState::Closed,
            bottles: bottles::State::new(),
            snapshots: snapshots::State::new(),
            settings: settings::State::new(),
            has_profile_manager: false,
            profiles: Vec::new(),
            active_profile: None,
            profile_switcher_open: false,
            library: library::State::new(),
            name_draft: String::new(),
            account_link_popover: AccountLinkPopover::Closed,
            steam_candidates: Vec::new(),
            profile_modal: ProfileModal::Closed,
        }
    }

    /// The id of the bottle shown in the detail pane.
    pub fn selected_bottle(&self) -> (res: Option<u128>)
        ensures
            res == match self.split_view_state {
                SplitViewState::Bottle(id) => Some(id),
                _ => None,
            },
    {
        match self.split_view_state {
            SplitViewState::Bottle(id) => Some(id),
            _ => None,
        }
    }

    /// The profile whose library the host streams, if any.
    pub fn library_handle(&self) -> (res: Option<library::LibraryHandle>)
        ensures
            match self.active_profile {
                Some(profile) => res matches Some(handle) && handle.0@ == profile.id@,
                None => res is None,
            },
    {
        match &self.active_profile {
            Some(profile) => Some(library::LibraryHandle(profile.id.clone())),
            None => None,
        }
    }

    /// Makes `profile` the active one.
    fn set_active_profile(&mut self, profile: UserProfile)
        ensures
            activated(*old(self), profile, *final(self)),
            same_outside_profiles(*old(self), *final(self)),
            final(self).profile_modal == old(self).profile_modal,
    {
        upsert_profile(&mut self.profiles, profile.clone_profile());
        let changed = match &self.active_profile {
            Some(active) => active.id != profile.id,
            None => true,
        };
        if changed {
            let watchable = profile.accounts.len() > 0 || profile.steam_link.is_some();
            self.library.reset_for_profile(Some(watchable));
        }
        self.name_draft = profile.name.clone();
        self.active_profile = Some(profile);
    }

    fn on_profile_removed(&mut self, id: String) -> (effect: Effect)
        ensures
            update_post(*old(self), Message::ProfileRemoved(id), *final(self), effect),
    {
        remove_profile(&mut self.profiles, &id);
        let was_active = match &self.active_profile {
            Some(active) => active.id == id,
            None => false,
        };
        if !was_active {
            return Effect::Nothing;
        }
        self.active_profile = None;
        self.name_draft = String::new();
        self.library.reset_for_profile(None);
        if self.has_profile_manager && self.profiles.len() > 0 {
            Effect::ActivateProfile(self.profiles[0].id.clone())
        } else {
            Effect::Nothing
        }
    }

    fn on_profile_changed(&mut self, profile: UserProfile)
        ensures
            update_post(*old(self), Message::ProfileChanged(profile), *final(self), Effect::Nothing),
    {
        upsert_profile(&mut self.profiles, profile.clone_profile());
        let is_current = match &self.active_profile {
            Some(active) => active.id == profile.id,
            None => false,
        };
        if is_current {
            self.active_profile = Some(profile);
        }
    }

    fn acting_profile_id(&self) -> (res: Option<String>)
        ensures
            match acting_profile(*self) {
                Some(id) => res matches Some(r) && r@ == id,
                None => res is None,
            },
    {
        if !self.has_profile_manager {
            return None;
        }
        match &self.active_profile {
            Some(profile) => Some(profile.id.clone()),
            None => None,
        }
    }

    fn update_profiles(&mut self, message: Message) -> (effect: Effect)
        requires
            match message {
                Message::ProfileManagerLoaded(_) | Message::ProfilesLoaded(_) | Message::ProfileActivated(_)
                | Message::ProfileChanged(_) | Message::ProfileRemoved(_) | Message::ActivateProfile(_)
                | Message::ToggleNewProfile | Message::CancelNewProfile | Message::NewProfileNameChanged(_)
                | Message::SubmitNewProfile | Message::ProfileUpdated(_) | Message::NameChanged(_)
                | Message::RenameSubmit | Message::DeleteProfile(_) | Message::ProfileDeleted(_) => true,
                _ => false,
            },
        ensures
            update_post(*old(self), message, *final(self), effect),
    {
        match message {
            Message::ProfileManagerLoaded(result) => match result {
                Ok(_) => {
                    self.has_profile_manager = true;
                    Effect::LoadProfiles
                },
                Err(_) => Effect::Nothing,
            },
            Message::ProfilesLoaded(profiles) => {
                self.profiles = profiles;
                Effect::Nothing
            },
            Message::ProfileActivated(profile) => {
                self.set_active_profile(profile);
                Effect::Nothing
            },
            Message::ProfileChanged(profile) => {
                self.on_profile_changed(profile);
                Effect::Nothing
            },
            Message::ProfileRemoved(id) => self.on_profile_removed(id),
            Message::ActivateProfile(id) => {
                if self.has_profile_manager {
                    Effect::ActivateProfile(id)
                } else {
                    Effect::Nothing
                }
            },
            Message::ToggleNewProfile => {
                self.profile_modal = ProfileModal::NewProfile(String::new());
                Effect::Nothing
            },
            Message::CancelNewProfile => {
                self.profile_modal = ProfileModal::Closed;
                Effect::Nothing
            },
            Message::NewProfileNameChanged(name) => {
                if let ProfileModal::NewProfile(_) = &self.profile_modal {
                    self.profile_modal = ProfileModal::NewProfile(name);
                }
                Effect::Nothing
            },
            Message::SubmitNewProfile => {
                let mut modal = ProfileModal::Closed;
                std::mem::swap(&mut modal, &mut self.profile_modal);
                match modal {
                    ProfileModal::NewProfile(draft) => {
                        if self.has_profile_manager {
                            Effect::CreateProfile(create_name(draft.as_str()))
                        } else {
                            Effect::Nothing
                        }
                    },
                    _ => Effect::Nothing,
                }
            },
            Message::ProfileUpdated(result) => match result {
                Ok(profile) => {
                    self.profile_modal = ProfileModal::Closed;
                    self.set_active_profile(profile);
                    Effect::Nothing
                },
                Err(_) => {
                    let mut modal = ProfileModal::Closed;
                    std::mem::swap(&mut modal, &mut self.profile_modal);
                    self.profile_modal = match modal {
                        ProfileModal::Login(login) => ProfileModal::Login(LoginChallenge { submitting: false, ..login }),
                        other => other,
                    };
                    Effect::Nothing
                },
            },
            Message::NameChanged(name) => {
                self.name_draft = name;
                Effect::Nothing
            },
            Message::RenameSubmit => match self.acting_profile_id() {
                Some(profile_id) => Effect::RenameProfile { profile_id, name: self.name_draft.clone() },
                None => Effect::Nothing,
            },
            Message::DeleteProfile(id) => {
                if self.has_profile_manager {
                    Effect::DeleteProfile(id)
                } else {
                    Effect::Nothing
                }
            },
            _ => Effect::Nothing,
        }
    }

    fn update_links(&mut self, message: Message) -> (effect: Effect)
        requires
            match message {
                Message::ToggleLink | Message::ToggleSteam | Message::SteamCandidatesDetected(_)
                | Message::Dismiss | Message::UnlinkAccount(_) | Message::BeginLogin(_)
                | Message::LoginChallengeReceived(_) | Message::LoginCodeChanged(_) | Message::OpenLoginUrl
                | Message::CopyLoginUrl | Message::SubmitLoginCode | Message::CancelLogin
                | Message::UnlinkSteam | Message::LinkSteam(_, _) => true,
                _ => false,
            },
        ensures
            update_post(*old(self), message, *final(self), effect),
    {
        match message {
            Message::ToggleLink => {
                self.account_link_popover = match self.account_link_popover {
                    AccountLinkPopover::Storefront => AccountLinkPopover::Closed,
                    _ => AccountLinkPopover::Storefront,
                };
                Effect::Nothing
            },
            Message::ToggleSteam => {
                let open = match self.account_link_popover {
                    AccountLinkPopover::Steam => false,
                    _ => true,
                };
                if open {
                    self.account_link_popover = AccountLinkPopover::Steam;
                    Effect::DetectSteamUsers
                } else {
                    self.account_link_popover = AccountLinkPopover::Closed;
                    Effect::Nothing
                }
            },
            Message::SteamCandidatesDetected(candidates) => {
                self.steam_candidates = candidates;
                Effect::Nothing
            },
            Message::Dismiss => {
                self.account_link_popover = AccountLinkPopover::Closed;
                Effect::Nothing
            },
            Message::UnlinkAccount(storefront) => match self.acting_profile_id() {
                Some(profile_id) => Effect::UnlinkAccount { profile_id, storefront },
                None => Effect::Nothing,
            },
            Message::BeginLogin(storefront) => {
                self.account_link_popover = AccountLinkPopover::Closed;
                match &self.active_profile {
                    Some(profile) => Effect::BeginLogin { profile_id: profile.id.clone(), storefront },
                    None => Effect::Nothing,
                }
            },
            Message::LoginChallengeReceived(result) => match result {
                Ok((storefront, challenge_id, url)) => {
                    self.profile_modal = ProfileModal::Login(LoginChallenge {
                        storefront,
                        challenge_id,
                        url,
                        code_draft: String::new(),
                        submitting: false,
                    });
                    Effect::Nothing
                },
                Err(_) => Effect::Nothing,
            },
            Message::LoginCodeChanged(code) => {
                let mut modal = ProfileModal::Closed;
                std::mem::swap(&mut modal, &mut self.profile_modal);
                self.profile_modal = match modal {
                    ProfileModal::Login(login) => ProfileModal::Login(LoginChallenge { code_draft: code, ..login }),
                    other => other,
                };
                Effect::Nothing
            },
            Message::OpenLoginUrl => match &self.profile_modal {
                ProfileModal::Login(login) => Effect::OpenUrl(login.url.clone()),
                _ => Effect::Nothing,
            },
            Message::CopyLoginUrl => match &self.profile_modal {
                ProfileModal::Login(login) => Effect::CopyToClipboard(login.url.clone()),
                _ => Effect::Nothing,
            },
            Message::SubmitLoginCode => {
                let profile_id = match &self.active_profile {
                    Some(profile) => profile.id.clone(),
                    None => {
                        return Effect::Nothing;
                    },
                };
                let mut modal = ProfileModal::Closed;
                std::mem::swap(&mut modal, &mut self.profile_modal);
                match modal {
                    ProfileModal::Login(login) => {
                        let effect = Effect::CompleteLogin {
                            profile_id,
                            challenge_id: login.challenge_id.clone(),
                            storefront: login.storefront,
                            code: login.code_draft.clone(),
                        };
                        self.profile_modal = ProfileModal::Login(LoginChallenge { submitting: true, ..login });
                        effect
                    },
                    other => {
                        self.profile_modal = other;
                        Effect::Nothing
                    },
                }
            },
            Message::CancelLogin => {
                self.profile_modal = ProfileModal::Closed;
                Effect::Nothing
            },
            Message::UnlinkSteam => match self.acting_profile_id() {
                Some(profile_id) => Effect::UnlinkSteam(profile_id),
                None => Effect::Nothing,
            },
            Message::LinkSteam(steam_id64, account_name) => {
                self.account_link_popover = AccountLinkPopover::Closed;
                match self.acting_profile_id() {
                    Some(profile_id) => Effect::LinkSteam { profile_id, steam_id64, account_name },
                    None => Effect::Nothing,
                }
            },
            _ => Effect::Nothing,
        }
    }

    /// Applies a message and says what the host must do.
    pub fn update(&mut self, message: Message) -> (effect: Effect)
        ensures
            update_post(*old(self), message, *final(self), effect),
    {
        match message {
            Message::PrimaryTabSelected(tab) => {
                self.primary_tab = tab;
                if tab == PrimaryTab::Library {
                    self.split_view_state = SplitViewState::Closed;
                }
                Effect::Nothing
            },
            Message::DetailTabSelected(tab) => {
                self.detail_tab = tab;
                Effect::Nothing
            },
            Message::BottleSelected(id) => {
                self.primary_tab = PrimaryTab::Bottles;
                self.split_view_state = SplitViewState::Bottle(id);
                self.snapshots.clear();
                if self.bottles.lists(id) { Effect::LoadSnapshots(id) } else { Effect::Nothing }
            },
            Message::Back | Message::CancelBottle => {
                self.split_view_state = SplitViewState::Closed;
                Effect::Nothing
            },
            Message::AddBottle => {
                self.split_view_state = SplitViewState::NewBottle;
                self.bottles.reset_creation();
                Effect::Nothing
            },
            Message::Window(action) => Effect::Window(action),
            Message::MoveFocus(previous) => Effect::MoveFocus(previous),
            Message::Bottles(message) => {
                match message {
                    bottles::Message::LaunchProgram(program_id) => match self.split_view_state {
                        SplitViewState::Bottle(bottle_id) => if self.bottles.lists(bottle_id) {
                            Effect::LaunchProgram { bottle_id, program_id }
                        } else {
                            Effect::Nothing
                        },
                        _ => Effect::Nothing,
                    },
                    _ => {
                        let closes = matches!(message, bottles::Message::BottleCreated(Ok(_)));
                        let effect = self.bottles.update(message);
                        if closes {
                            self.split_view_state = SplitViewState::Closed;
                        }
                        Effect::Bottles(effect)
                    },
                }
            },
            Message::Settings(message) => {
                if matches!(message, settings::Message::WrapperUpdated(Ok(_))) {
                    Effect::RefreshBottleStates
                } else {
                    match self.split_view_state {
                        SplitViewState::Bottle(bottle_id) => {
                            let listed = self.bottles.lists(bottle_id);
                            let ctx = settings::Context { has_bottle: listed, has_state: listed };
                            match self.settings.update(message, ctx) {
                                settings::Effect::Nothing => Effect::Nothing,
                                effect => Effect::Settings { bottle_id, effect },
                            }
                        },
                        _ => Effect::Nothing,
                    }
                }
            },
            Message::Snapshots(message) => {
                self.snapshots.update(message);
                Effect::Nothing
            },
            Message::Library(message) => {
                self.library.update(message);
                Effect::Nothing
            },
            Message::ToggleProfileSwitcher => {
                self.profile_switcher_open = !self.profile_switcher_open;
                Effect::Nothing
            },
            Message::ToggleProfileSettings => {
                self.split_view_state = match self.split_view_state {
                    SplitViewState::Profiles => SplitViewState::Closed,
                    _ => SplitViewState::Profiles,
                };
                Effect::Nothing
            },
            Message::OpenMenu | Message::TogglePower | Message::Noop => Effect::Nothing,
            Message::ToggleLink | Message::ToggleSteam | Message::SteamCandidatesDetected(_)
            | Message::Dismiss | Message::UnlinkAccount(_) | Message::BeginLogin(_)
            | Message::LoginChallengeReceived(_) | Message::LoginCodeChanged(_) | Message::OpenLoginUrl
            | Message::CopyLoginUrl | Message::SubmitLoginCode | Message::CancelLogin
            | Message::UnlinkSteam | Message::LinkSteam(_, _) => self.update_links(message),
            _ => self.update_profiles(message),
        }
    }
}

/// Opening the profile settings twice comes back to the pane shown before,
/// unless that pane was the profile settings themselves.
pub proof fn law_profile_settings_toggle(state: State, once: State, twice: State, e1: Effect, e2: Effect)
    requires
        state.split_view_state != SplitViewState::Profiles,
        update_post(state, Message::ToggleProfileSettings, once, e1),
        update_post(once, Message::ToggleProfileSettings, twice, e2),
    ensures
        once.split_view_state == SplitViewState::Profiles,
        twice.split_view_state == SplitViewState::Closed,
{
}

/// The two account-linking popovers are never open together: opening one
/// replaces the other.
pub proof fn law_one_popover_at_a_time(state: State, new: State, effect: Effect)
    requires
        update_post(state, Message::ToggleSteam, new, effect),
        state.account_link_popover == AccountLinkPopover::Storefront,
    ensures
        new.account_link_popover == AccountLinkPopover::Steam,
        effect is DetectSteamUsers,
{
}

/// When the active profile is deleted and others remain, the first of them is
/// activated, provided the profile service is reached.
pub proof fn law_deleting_the_active_profile_falls_back(state: State, id: String, new: State, effect: Effect)
    requires
        update_post(state, Message::ProfileRemoved(id), new, effect),
        is_active(state.active_profile, id@),
        state.has_profile_manager,
        new.profiles@.len() > 0,
    ensures
        new.active_profile is None,
        effect matches Effect::ActivateProfile(next) && next@ == new.profiles@[0].id@,
        !holds_profile(views(new.profiles@), id@),
{
    broadcast use vstd::seq_lib::group_filter_ensures;
    let rest = views(state.profiles@).filter(other_than(id@));
    assert forall|k: int| 0 <= k < rest.len() implies !has_id(#[trigger] rest[k], id@) by {
        assert(other_than(id@)(rest[k]));
    }
}

/// Activating a profile that is already active keeps the library as it is;
/// activating another starts the library over.
pub proof fn law_library_follows_the_active_profile(state: State, profile: UserProfile, new: State, effect: Effect)
    requires
        update_post(state, Message::ProfileActivated(profile), new, effect),
    ensures
        is_active(state.active_profile, profile.id@) ==> new.library == state.library,
        !is_active(state.active_profile, profile.id@) ==> new.library.games@.len() == 0,
        new.active_profile == Some(profile),
{
}

} // verus!

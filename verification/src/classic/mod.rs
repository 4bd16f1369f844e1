//! The Classic experience: routes, panels, dialogs and the workflows behind
//! them.
//!
//! [`State::update`] routes a message to the workflow it belongs to and
//! returns the work for the runtime. While the workspace drains before an
//! experience switch, only messages that finish running work are accepted.
//!
//! The generic parameters stand for values of the core that the workspace
//! carries without reading them: `B` a bottle handle, `S` a bottle state, `C`
//! a profiles configuration, `E` a library search result, `I` a launchable
//! library item and `P` a sign-in prompt.

pub mod accounts;
pub mod bottles;
pub mod layout;
pub mod library;
pub mod profiles;
pub mod read_model;
pub mod settings;
pub mod snapshots;

use vstd::prelude::*;
use vstd::std_specs::cmp::PartialEqSpec;
use crate::app::Experience;
use crate::catalog::Component;
use crate::operation::{next_generation, CoreFailure, Event, Outcome};
use read_model::{ids, ProfilesSnapshot, ReadModel};

verus! {

/// The tabs of the primary page.
#[derive(Debug, Clone, Copy, PartialEq, Eq, Structural)]
pub enum PrimaryTab {
    Bottles,
    Library,
}

/// The tabs of a bottle's detail page.
#[derive(Debug, Clone, Copy, PartialEq, Eq, Structural)]
pub enum DetailTab {
    Programs,
    Settings,
    Snapshots,
}

/// What the workspace shows.
#[derive(Debug, Clone, Copy, PartialEq, Eq, Structural)]
pub enum Route {
    Bottles,
    Bottle { id: u128, tab: DetailTab },
    Library,
}

/// The side panel.
#[derive(Debug, Clone, Copy, PartialEq, Eq, Structural)]
pub enum Panel {
    NewBottle,
    Profiles,
}

/// Messages of the new-profile dialog.
pub enum NewProfileMessage {
    NameChanged(String),
    Submit,
    Cancel,
}

/// Messages of the sign-in dialog.
pub enum LoginMessage {
    CodeChanged(String),
    OpenUrl,
    CopyUrl,
    Submit,
    Cancel,
}

/// Messages of the Classic workspace.
pub enum Message<B, S, C, E, I, P> {
    PrimaryTabSelected(PrimaryTab),
    DetailTabSelected(DetailTab),
    BottleSelected(u128),
    Back,
    OpenNewProfile,
    NewProfileDialog(NewProfileMessage),
    AccountLoginDialog(LoginMessage),
    AddBottle,
    CancelBottle,
    OpenMenu,
    TogglePower,
    RequestExperience(Experience),
    /// A window-chrome action.
    Window,
    MoveFocus(bool),
    Bottles(bottles::Message<B>),
    Settings(settings::Message),
    Snapshots(snapshots::Message),
    Library(library::Message<E, I>),
    Profiles(profiles::Message),
    Accounts(accounts::Message<P>),
    /// The core's bottle list changed, with the states that could be read.
    BottleListChanged(Vec<(u128, B)>, Vec<(u128, S)>),
    BottleStateChanged(u128, S),
    ProfilesChanged(ProfilesSnapshot<C>),
}

impl<B, S, C, E, I, P> Message<B, S, C, E, I, P> {
    /// Messages that finish work already running; the only ones accepted
    /// while draining.
    pub open spec fn allowed_while_draining_spec(&self) -> bool {
        match self {
            Message::Bottles(m) => m is BottleCreation || m is ProgramLaunched,
            Message::Library(m) => m is Entry || m is Loaded || m is Launched,
            Message::Profiles(m) => m is ProfileUpdated || m is ProfileDeleted,
            Message::Accounts(m) => m is ProfileUpdated,
            Message::BottleListChanged(..) | Message::BottleStateChanged(..) | Message::ProfilesChanged(_) => true,
            Message::Settings(m) => m is WrapperUpdated,
            Message::Snapshots(m) => m is Loaded,
            _ => false,
        }
    }

    /// Whether the message is accepted while draining.
    pub fn allowed_while_draining(&self) -> (res: bool)
        ensures
            res == self.allowed_while_draining_spec(),
    {
        match self {
            Message::Bottles(m) => match m {
                bottles::Message::BottleCreation(_) | bottles::Message::ProgramLaunched(_) => true,
                _ => false,
            },
            Message::Library(m) => match m {
                library::Message::Entry { .. } | library::Message::Loaded(_) | library::Message::Launched(_) => true,
                _ => false,
            },
            Message::Profiles(m) => match m {
                profiles::Message::ProfileUpdated(_) | profiles::Message::ProfileDeleted(_) => true,
                _ => false,
            },
            Message::Accounts(m) => match m {
                accounts::Message::ProfileUpdated(_) => true,
                _ => false,
            },
            Message::BottleListChanged(..) | Message::BottleStateChanged(..) | Message::ProfilesChanged(_) => true,
            Message::Settings(m) => match m {
                settings::Message::WrapperUpdated { .. } => true,
                _ => false,
            },
            Message::Snapshots(m) => match m {
                snapshots::Message::Loaded { .. } => true,
                _ => false,
            },
            _ => false,
        }
    }
}

/// The profiles message a new-profile dialog action stands for.
pub open spec fn profile_dialog_message(m: NewProfileMessage) -> profiles::Message {
    match m {
        NewProfileMessage::NameChanged(name) => profiles::Message::CreateNameChanged(name),
        NewProfileMessage::Submit => profiles::Message::SubmitCreate,
        NewProfileMessage::Cancel => profiles::Message::DismissCreate,
    }
}

/// Work for the runtime.
pub enum Effect<B, I> {
    Bottles(bottles::Effect<B>),
    Library(library::Effect<I>),
    SearchLibrary(library::SearchRequest),
    LoadSnapshots { bottle_id: u128, request: snapshots::LoadRequest },
    Profiles(profiles::Effect),
    Accounts(accounts::Effect),
    Settings(settings::Effect),
    /// Perform the window-chrome action.
    Window,
    MoveFocus { previous: bool },
}

/// Whether a bottles message ends the current creation successfully.
pub open spec fn creates_bottle<B>(message: bottles::Message<B>, generation: u64) -> bool {
    match message {
        bottles::Message::BottleCreation(Event::Finished { key, outcome: Outcome::Succeeded(_) }) => key == generation,
        _ => false,
    }
}

/// The Classic workspace.
pub struct State<B, S, C, E, P> {
    pub route: Route,
    pub panel: Panel,
    pub panel_open: bool,
    pub read_model: ReadModel<B, S, C>,
    pub bottles: bottles::State,
    pub snapshots: snapshots::State,
    pub profiles: profiles::State,
    pub library: library::State<E>,
    pub accounts: accounts::State<P>,
    pub settings: settings::State,
    pub draining: bool,
}

impl<B, S: PartialEq, C: PartialEq, E, P> State<B, S, C, E, P> {
    /// The workspace over the core's current data, with the library search
    /// that starts with it.
    pub fn new(read_model: ReadModel<B, S, C>, components: &Vec<Component>) -> (res: (Self, library::SearchRequest))
        ensures
            res.0.route == Route::Bottles,
            res.0.panel == Panel::NewBottle,
            !res.0.panel_open,
            !res.0.draining,
            res.0.read_model == read_model,
            res.0.profiles == (profiles::State {
                selected_id: read_model.profiles.selected_id,
                name_draft: read_model.profiles.selected_name,
                new_profile: None,
                last_error: None,
                request_kind: None,
            }),
            res.0.bottles.bottle_name@ == "Gaming paradise"@,
            res.0.bottles.creation_generation == 0,
            res.0.bottles.creation_cancellation is None,
            res.0.bottles.program_launches == 0,
            res.0.bottles.last_error is None,
            res.0.snapshots.snapshots@.len() == 0,
            res.0.snapshots.generation == 0,
            res.0.snapshots.loads@.is_empty(),
            res.0.snapshots.last_error is None,
            res.0.library.query@.len() == 0,
            res.0.library.search.state == library::LibraryState::Loading,
            res.0.library.search.entries@.len() == 0,
            res.0.library.search.generation == next_generation(0),
            res.0.library.search.active@.dom() == Set::<u64>::empty().insert(res.1.generation),
            !res.0.library.launching,
            res.0.library.last_error is None,
            res.0.accounts.link_generation == 0,
            res.0.accounts.link_cancellation is None,
            res.0.accounts.login_dialog is None,
            !res.0.accounts.mutation_pending,
            res.0.accounts.last_error is None,
            res.0.settings == (settings::State { generation: 0, pending: false, last_error: None }),
            res.1.generation == res.0.library.search.generation,
            res.1.query@.len() == 0,
    {
        let profiles = profiles::State::new(read_model.profiles.selected_id, read_model.profiles.selected_name.clone());
        let mut library = library::State::new();
        let request = library.reload();
        let state = State {
            route: Route::Bottles,
            panel: Panel::NewBottle,
            panel_open: false,
            read_model,
            bottles: bottles::State::new(components),
            snapshots: snapshots::State::new(),
            profiles,
            library,
            accounts: accounts::State::new(),
            settings: settings::State::new(),
            draining: false,
        };
        (state, request)
    }

    /// The experience this workspace belongs to.
    pub fn experience(&self) -> (res: Experience)
        ensures
            res == Experience::Classic,
    {
        Experience::Classic
    }

    /// The selected primary tab.
    pub fn primary_tab(&self) -> (res: PrimaryTab)
        ensures
            res == (if self.route == Route::Library { PrimaryTab::Library } else { PrimaryTab::Bottles }),
    {
        match self.route {
            Route::Library => PrimaryTab::Library,
            _ => PrimaryTab::Bottles,
        }
    }

    /// The bottle whose detail page is shown.
    pub fn selected_bottle(&self) -> (res: Option<u128>)
        ensures
            res == match self.route { Route::Bottle { id, .. } => Some(id), _ => None },
    {
        match self.route {
            Route::Bottle { id, .. } => Some(id),
            _ => None,
        }
    }

    pub open spec fn has_active_operations_spec(&self) -> bool {
        ||| self.bottles.creation_cancellation is Some || self.bottles.program_launches > 0
        ||| self.profiles.request_kind is Some
        ||| self.accounts.link_cancellation is Some || self.accounts.mutation_pending
        ||| self.settings.pending
        ||| self.library.launching || !self.library.search.active@.is_empty()
        ||| !self.snapshots.loads@.is_empty()
    }

    /// Whether any workflow still has work running.
    pub fn has_active_operations(&self) -> (res: bool)
        ensures
            res == self.has_active_operations_spec(),
    {
        self.bottles.has_active_operation()
            || self.profiles.has_active_operation()
            || self.accounts.has_active_operation()
            || self.settings.has_active_operation()
            || self.library.has_active_operation()
            || self.snapshots.has_active_operation()
    }

    /// Whether a dialog is open.
    pub fn has_modal(&self) -> (res: bool)
        ensures
            res == (self.profiles.new_profile is Some || self.accounts.login_dialog is Some),
    {
        self.profiles.new_profile.is_some() || self.accounts.login_dialog.is_some()
    }

    /// Starts draining: dialogs close and every workflow is asked to stop its
    /// running work, which stays active until its terminal message arrives.
    pub fn cancel_active_operations(&mut self)
        ensures
            *final(self) == (State {
                draining: true,
                profiles: profiles::State { new_profile: None, ..old(self).profiles },
                accounts: accounts::State { login_dialog: None, ..old(self).accounts },
                ..*old(self)
            }),
            final(self).has_active_operations_spec() == old(self).has_active_operations_spec(),
    {
        self.draining = true;
        self.profiles.dismiss_dialog();
        self.bottles.cancel_creation();
        self.accounts.cancel_active_operation();
        self.library.cancel_active_operations();
        self.snapshots.cancel_active_operations();
    }

    fn reload_library<I>(&mut self, effects: &mut Vec<Effect<B, I>>)
        ensures
            old(self).draining ==> *final(self) == *old(self) && final(effects)@ == old(effects)@,
            !old(self).draining ==> final(effects)@.len() == old(effects)@.len() + 1
                && final(effects)@.take(old(effects)@.len() as int) == old(effects)@
                && (final(effects)@.last() matches Effect::SearchLibrary(request)
                    && request.generation == next_generation(old(self).library.search.generation)
                    && request.query@ == old(self).library.query@
                    && final(self).library.search.generation == request.generation)
                && Self::reloaded(*old(self), *final(self)),
            final(self).route == old(self).route,
            final(self).panel == old(self).panel,
            final(self).panel_open == old(self).panel_open,
            final(self).draining == old(self).draining,
    {
        if self.draining {
            return;
        }
        let request = self.library.reload();
        effects.push(Effect::SearchLibrary(request));
    }

    /// Whether the read model lists a bottle with this id.
    pub open spec fn lists_bottle(self, id: u128) -> bool {
        exists|k: int| 0 <= k < self.read_model.bottles@.len() && self.read_model.bottles@[k].0 == id
    }

    /// The snapshot tab after the selected bottle's snapshots were asked for:
    /// a load of the bottle shown, when the read model lists it, with the one
    /// effect that runs it; else nothing.
    pub open spec fn snapshots_requested<I>(old: Self, new: snapshots::State, effects: Seq<Effect<B, I>>) -> bool {
        match old.route {
            Route::Bottle { id, .. } => if old.lists_bottle(id) {
                &&& effects.len() == 1
                &&& effects[0] matches Effect::LoadSnapshots { bottle_id, request }
                    && bottle_id == id && request.generation == next_generation(old.snapshots.generation)
                &&& new.generation == next_generation(old.snapshots.generation)
                &&& new.loads@ == old.snapshots.loads@.insert(new.generation, new.loads@[new.generation])
                &&& new.snapshots@.len() == 0
                &&& new.snapshot_rows@.len() == 0
                &&& new.last_error is None
            } else {
                new == old.snapshots && effects.len() == 0
            },
            _ => new == old.snapshots && effects.len() == 0,
        }
    }

    fn load_selected_snapshots<I>(&mut self, effects: &mut Vec<Effect<B, I>>)
        ensures
            Self::snapshots_requested(*old(self), final(self).snapshots, final(effects)@.skip(old(effects)@.len() as int)),
            final(self).route == old(self).route,
            final(self).panel == old(self).panel,
            final(self).panel_open == old(self).panel_open,
            final(self).draining == old(self).draining,
            final(effects)@.len() <= old(effects)@.len() + 1,
            final(effects)@.len() >= old(effects)@.len(),
            final(effects)@.take(old(effects)@.len() as int) == old(effects)@,
            *final(self) == (State { snapshots: final(self).snapshots, ..*old(self) }),
            match old(self).route {
                Route::Bottle { id, .. } => if (exists|k: int| 0 <= k < old(self).read_model.bottles@.len()
                    && old(self).read_model.bottles@[k].0 == id) {
                    &&& final(effects)@.len() == old(effects)@.len() + 1
                    &&& final(effects)@.last() matches Effect::LoadSnapshots { bottle_id, request }
                        && bottle_id == id && request.generation == next_generation(old(self).snapshots.generation)
                        && final(self).snapshots.generation == request.generation
                    &&& final(self).snapshots.snapshots@.len() == 0
                } else {
                    final(effects)@ == old(effects)@ && final(self).snapshots == old(self).snapshots
                },
                _ => final(effects)@ == old(effects)@ && final(self).snapshots == old(self).snapshots,
            },
    {
        if let Route::Bottle { id, .. } = self.route {
            if self.read_model.has_bottle(id) {
                let request = self.snapshots.load();
                effects.push(Effect::LoadSnapshots { bottle_id: id, request });
            }
        }
    }

    /// Ends draining after a failed switch and reloads what draining stopped.
    pub fn resume_after_failed_switch<I>(&mut self) -> (effects: Vec<Effect<B, I>>)
        ensures
            *final(self) == (State {
                draining: false,
                library: final(self).library,
                snapshots: final(self).snapshots,
                ..*old(self)
            }),
            Self::library_refreshed(old(self).library, final(self).library, false, effects@.take(1)),
            Self::snapshots_requested(*old(self), final(self).snapshots, effects@.skip(1)),
    {
        self.draining = false;
        let mut effects: Vec<Effect<B, I>> = Vec::new();
        self.reload_library(&mut effects);
        let ghost first = effects@;
        assert(first.len() == 1);
        assert(first.last() == first[0]);
        self.load_selected_snapshots(&mut effects);
        assert(effects@.take(1) =~= first);
        effects
    }

    /// The workspace after the library search started over: only the
    /// library's search changed.
    pub open spec fn reloaded(old: Self, new: Self) -> bool {
        &&& new == State { library: new.library, ..old }
        &&& new.library.query == old.library.query
        &&& new.library.launching == old.library.launching
        &&& new.library.last_error == old.library.last_error
        &&& new.library.search.state == library::LibraryState::Loading
        &&& new.library.search.entries@.len() == 0
        &&& new.library.search.generation == next_generation(old.library.search.generation)
    }

    /// What the bottles workflow reports with a message.
    pub open spec fn bottles_output(m: bottles::Message<B>, generation: u64) -> Option<bottles::Output> {
        if creates_bottle(m, generation) { Some(bottles::Output::Created) } else { None }
    }

    /// The library after the read model changed: a search starts over,
    /// unless the workspace is draining.
    pub open spec fn library_refreshed<I>(old: library::State<E>, new: library::State<E>, draining: bool, effects: Seq<Effect<B, I>>) -> bool {
        if draining {
            new == old && effects.len() == 0
        } else {
            &&& effects.len() == 1
            &&& effects[0] matches Effect::SearchLibrary(request)
                && request.generation == next_generation(old.search.generation)
                && request.query@ == old.query@
            &&& new.query == old.query
            &&& new.launching == old.launching
            &&& new.last_error == old.last_error
            &&& new.search.state == library::LibraryState::Loading
            &&& new.search.entries@.len() == 0
            &&& new.search.generation == next_generation(old.search.generation)
        }
    }

    /// A new state of bottle `id` came in: the read model takes it, and the
    /// library search starts over exactly when the model changed.
    pub open spec fn bottle_state_taken<I>(old: Self, id: u128, state: S, new: Self, effects: Seq<Effect<B, I>>) -> bool {
        &&& new == State { read_model: new.read_model, library: new.library, ..old }
        &&& exists|changed: bool| #[trigger] ReadModel::<B, S, C>::state_set(old.read_model, id, state, new.read_model, changed)
            && (changed ==> Self::library_refreshed(old.library, new.library, old.draining, effects))
            && (!changed ==> new.library == old.library && effects.len() == 0)
    }

    /// A changed profiles configuration came in: the read model takes it, the
    /// profiles workflow follows a new selection, and the library search
    /// starts over.
    pub open spec fn profiles_replaced<I>(old: Self, snapshot: ProfilesSnapshot<C>, new: Self, effects: Seq<Effect<B, I>>) -> bool {
        let selected_changed = old.read_model.profiles.selected_id != snapshot.selected_id
            || old.read_model.profiles.selected_name@ != snapshot.selected_name@;
        &&& new.read_model == ReadModel { profiles: snapshot, ..old.read_model }
        &&& new.profiles == if selected_changed {
            profiles::State { selected_id: snapshot.selected_id, name_draft: snapshot.selected_name, ..old.profiles }
        } else {
            old.profiles
        }
        &&& Self::library_refreshed(old.library, new.library, old.draining, effects)
        &&& new == State { read_model: new.read_model, profiles: new.profiles, library: new.library, ..old }
    }

    /// A bottles message went to its workflow; a finished creation closes
    /// the new-bottle panel.
    pub open spec fn bottles_forwarded<I>(old: Self, m: bottles::Message<B>, new: Self, effects: Seq<Effect<B, I>>) -> bool {
        &&& effects.len() == 1
        &&& effects[0] matches Effect::Bottles(effect) && bottles::State::update_post(
            old.bottles, m, new.bottles, (effect, Self::bottles_output(m, old.bottles.creation_generation)))
        &&& new == State {
            bottles: new.bottles,
            panel_open: old.panel_open && !(creates_bottle(m, old.bottles.creation_generation) && old.panel == Panel::NewBottle),
            ..old
        }
    }

    /// A profiles message went to its workflow; its settings toggle opens or
    /// closes the profile panel.
    pub open spec fn profiles_forwarded<I>(old: Self, m: profiles::Message, new: Self, effects: Seq<Effect<B, I>>) -> bool {
        let toggles = m is ToggleProfileSettings;
        let closes = toggles && old.panel_open && old.panel == Panel::Profiles;
        &&& effects.len() == 1
        &&& effects[0] matches Effect::Profiles(effect) && profiles::State::update_post(
            old.profiles, m, new.profiles, (effect, if toggles { Some(profiles::Output::ToggleSettings) } else { None }))
        &&& new == State {
            profiles: new.profiles,
            panel: if toggles && !closes { Panel::Profiles } else { old.panel },
            panel_open: if closes { false } else if toggles { true } else { old.panel_open },
            ..old
        }
    }

    /// An accounts message went to its workflow.
    pub open spec fn accounts_forwarded<I>(old: Self, m: accounts::Message<P>, new: Self, effects: Seq<Effect<B, I>>) -> bool {
        &&& effects.len() == 1
        &&& effects[0] matches Effect::Accounts(effect) && accounts::State::update_post(old.accounts, m, new.accounts, effect)
        &&& new == State { accounts: new.accounts, ..old }
    }

    /// What the settings tab knows of the selected bottle.
    pub open spec fn settings_context(self) -> settings::Context {
        match self.route {
            Route::Bottle { id, .. } => settings::Context {
                has_bottle: exists|k: int| 0 <= k < self.read_model.bottles@.len() && self.read_model.bottles@[k].0 == id,
                has_state: exists|k: int| 0 <= k < self.read_model.bottle_states@.len() && self.read_model.bottle_states@[k].0 == id,
            },
            _ => settings::Context { has_bottle: false, has_state: false },
        }
    }

    /// A settings message went to its tab, with what it knows of the selected bottle.
    pub open spec fn settings_forwarded<I>(old: Self, m: settings::Message, new: Self, effects: Seq<Effect<B, I>>) -> bool {
        &&& effects.len() == 1
        &&& effects[0] matches Effect::Settings(effect) && settings::State::update_post(
            old.settings, m, old.settings_context(), new.settings, effect)
        &&& new == State { settings: new.settings, ..old }
    }

    /// A library message went to its tab; a changed query starts the search over.
    pub open spec fn library_forwarded<I>(old: Self, m: library::Message<E, I>, new: Self, effects: Seq<Effect<B, I>>) -> bool {
        match m {
            library::Message::QueryChanged(query) => {
                &&& effects.len() == 2
                &&& effects[0] == Effect::<B, I>::Library(library::Effect::Nothing)
                &&& effects[1] matches Effect::SearchLibrary(request)
                    && request.generation == next_generation(old.library.search.generation)
                    && request.query@ == query@
                &&& new == State { library: new.library, ..old }
                &&& new.library.query == query
                &&& new.library.launching == old.library.launching
                &&& new.library.search.state == library::LibraryState::Loading
                &&& new.library.search.entries@.len() == 0
                &&& new.library.search.generation == next_generation(old.library.search.generation)
            },
            _ => {
                &&& effects.len() == 1
                &&& effects[0] matches Effect::Library(effect) && library::State::update_post(old.library, m, new.library, (effect, None))
                &&& new == State { library: new.library, ..old }
            },
        }
    }

    fn forward_bottles<I>(&mut self, m: bottles::Message<B>) -> (effects: Vec<Effect<B, I>>)
        requires
            m is LaunchProgram ==> old(self).bottles.program_launches < usize::MAX,
        ensures
            Self::bottles_forwarded(*old(self), m, *final(self), effects@),
    {
        let ghost created = creates_bottle(m, self.bottles.creation_generation);
        let (effect, output) = self.bottles.update(m);
        let closes = match output {
            Some(bottles::Output::Created) => true,
            None => false,
        };
        assert(closes == created);
        if closes && self.panel_open && self.panel == Panel::NewBottle {
            self.panel_open = false;
        }
        vec![Effect::Bottles(effect)]
    }

    fn forward_profiles<I>(&mut self, m: profiles::Message) -> (effects: Vec<Effect<B, I>>)
        ensures
            Self::profiles_forwarded(*old(self), m, *final(self), effects@),
    {
        let (effect, output) = self.profiles.update(m);
        if let Some(profiles::Output::ToggleSettings) = output {
            if self.panel_open && self.panel == Panel::Profiles {
                self.panel_open = false;
            } else {
                self.panel = Panel::Profiles;
                self.panel_open = true;
            }
        }
        vec![Effect::Profiles(effect)]
    }

    fn forward_settings<I>(&mut self, m: settings::Message) -> (effects: Vec<Effect<B, I>>)
        ensures
            Self::settings_forwarded(*old(self), m, *final(self), effects@),
    {
        let ctx = match self.route {
            Route::Bottle { id, .. } => settings::Context {
                has_bottle: self.read_model.has_bottle(id),
                has_state: self.read_model.has_bottle_state(id),
            },
            _ => settings::Context { has_bottle: false, has_state: false },
        };
        let effect = self.settings.update(m, ctx);
        vec![Effect::Settings(effect)]
    }

    fn forward_library<I>(&mut self, m: library::Message<E, I>) -> (effects: Vec<Effect<B, I>>)
        requires
            m is QueryChanged ==> !old(self).draining,
        ensures
            Self::library_forwarded(*old(self), m, *final(self), effects@),
    {
        let (effect, output) = self.library.update(m);
        let mut effects: Vec<Effect<B, I>> = vec![Effect::Library(effect)];
        if let Some(library::Output::Reload) = output {
            self.reload_library(&mut effects);
        }
        effects
    }

    /// What an update does, message by message: while draining, only
    /// messages that finish running work are taken; anything else is
    /// rejected with the workspace unchanged.
    pub open spec fn update_post<I>(old: Self, message: Message<B, S, C, E, I, P>, new: Self, effects: Seq<Effect<B, I>>) -> bool {
        &&& new.draining == old.draining
        &&& old.draining && !message.allowed_while_draining_spec() ==> new == old && effects.len() == 0
        &&& !(old.draining && !message.allowed_while_draining_spec()) ==> match message {
            Message::PrimaryTabSelected(tab) => if tab == PrimaryTab::Library {
                &&& Self::library_refreshed(old.library, new.library, false, effects)
                &&& new == (State { route: Route::Library, library: new.library, ..old })
            } else {
                new == (State { route: Route::Bottles, ..old }) && effects.len() == 0
            },
            Message::DetailTabSelected(tab) => {
                &&& new == (State {
                    route: match old.route {
                        Route::Bottle { id, .. } => Route::Bottle { id, tab },
                        other => other,
                    },
                    ..old
                })
                &&& effects.len() == 0
            },
            Message::BottleSelected(id) => {
                &&& new == (State {
                    route: Route::Bottle { id, tab: DetailTab::Programs },
                    snapshots: new.snapshots,
                    ..old
                })
                &&& new.snapshots.snapshots@.len() == 0
                &&& if (exists|k: int| 0 <= k < old.read_model.bottles@.len() && old.read_model.bottles@[k].0 == id) {
                    &&& effects.len() == 1
                    &&& effects[0] matches Effect::LoadSnapshots { bottle_id, request }
                        && bottle_id == id && request.generation == next_generation(old.snapshots.generation)
                } else {
                    effects.len() == 0
                }
            },
            Message::NewProfileDialog(m) => {
                &&& effects.len() == 1
                &&& effects[0] matches Effect::Profiles(effect) && profiles::State::update_post(
                    old.profiles, profile_dialog_message(m), new.profiles, (effect, None))
                &&& new == (State { profiles: new.profiles, ..old })
            },
            Message::Back => {
                let closes_profiles = old.panel_open && old.panel == Panel::Profiles;
                &&& new == (State {
                    profiles: profiles::State { new_profile: None, ..old.profiles },
                    accounts: accounts::State { login_dialog: None, ..old.accounts },
                    panel_open: if closes_profiles { false } else { old.panel_open },
                    route: if closes_profiles { old.route } else { Route::Bottles },
                    ..old
                })
                &&& effects.len() == 0
            },
            Message::AddBottle => {
                &&& new == (State {
                    panel: Panel::NewBottle,
                    panel_open: true,
                    bottles: bottles::State { last_error: None, ..old.bottles },
                    ..old
                })
                &&& effects.len() == 0
            },
            Message::CancelBottle => new == (State { panel_open: false, ..old }) && effects.len() == 0,
            Message::OpenNewProfile => if old.profiles.request_kind is None {
                &&& new.profiles == (profiles::State { new_profile: new.profiles.new_profile, ..old.profiles })
                &&& new.profiles.new_profile matches Some(dialog) && dialog.name@.len() == 0 && dialog.error is None
                &&& new.accounts == (accounts::State { login_dialog: None, ..old.accounts })
                &&& new == (State { profiles: new.profiles, accounts: new.accounts, ..old })
                &&& effects.len() == 0
            } else {
                new == old && effects.len() == 0
            },
            Message::BottleStateChanged(id, state) => Self::bottle_state_taken(old, id, state, new, effects),
            Message::ProfilesChanged(snapshot) => {
                &&& (new == old && effects.len() == 0)
                    || Self::profiles_replaced(old, snapshot, new, effects)
                &&& C::obeys_eq_spec() && old.read_model.profiles.config.eq_spec(&snapshot.config)
                    ==> new == old && effects.len() == 0
                &&& C::obeys_eq_spec() && !old.read_model.profiles.config.eq_spec(&snapshot.config)
                    ==> Self::profiles_replaced(old, snapshot, new, effects)
            },
            Message::Window => {
                &&& new == old
                &&& effects == if old.profiles.new_profile is Some || old.accounts.login_dialog is Some {
                    Seq::<Effect<B, I>>::empty()
                } else {
                    seq![Effect::<B, I>::Window]
                }
            },
            Message::MoveFocus(previous) => new == old && effects == seq![Effect::<B, I>::MoveFocus { previous }],
            Message::Bottles(m) => Self::bottles_forwarded(old, m, new, effects),
            Message::Profiles(m) => Self::profiles_forwarded(old, m, new, effects),
            Message::Accounts(m) => Self::accounts_forwarded(old, m, new, effects),
            Message::Settings(m) => Self::settings_forwarded(old, m, new, effects),
            Message::Library(m) => Self::library_forwarded(old, m, new, effects),
            Message::Snapshots(m) => {
                &&& snapshots::State::update_post(old.snapshots, m, new.snapshots)
                &&& new == (State { snapshots: new.snapshots, ..old })
                &&& effects.len() == 0
            },
    
            Message::AccountLoginDialog(m) => if old.accounts.login_dialog is Some {
                match m {
                    LoginMessage::Cancel => {
                        &&& new == (State {
                            accounts: accounts::State { login_dialog: None, ..old.accounts },
                            ..old
                        })
                        &&& effects.len() == 0
                    },
                    LoginMessage::CodeChanged(code) => {
                        &&& new == (State { accounts: new.accounts, ..old })
                        &&& accounts::State::update_post(old.accounts, accounts::Message::LoginCodeChanged(code),
                            new.accounts, accounts::Effect::Nothing)
                        &&& effects.len() == 0
                    },
                    LoginMessage::OpenUrl => Self::accounts_forwarded(old, accounts::Message::OpenLoginUrl, new, effects),
                    LoginMessage::CopyUrl => Self::accounts_forwarded(old, accounts::Message::CopyLoginUrl, new, effects),
                    LoginMessage::Submit => Self::accounts_forwarded(old, accounts::Message::SubmitLogin, new, effects),
                }
            } else {
                new == old && effects.len() == 0
            },
            Message::BottleListChanged(list, states) => if ids(old.read_model.bottles@) != ids(list@) {
                &&& Self::library_refreshed(old.library, new.library, old.draining, effects)
                &&& new == (State {
                    read_model: ReadModel { bottles: list, bottle_states: states, ..old.read_model },
                    library: new.library,
                    ..old
                })
            } else {
                new == old && effects.len() == 0
            },
            Message::OpenMenu | Message::TogglePower | Message::RequestExperience(_) => {
                new == old && effects.len() == 0
            },
        }
    }

    /// While draining, the end of the running bottle creation is still
    /// taken: whatever its outcome, the creation stops being active.
    pub proof fn law_draining_takes_the_end_of_a_creation<I>(
        old: Self,
        outcome: Outcome<B>,
        new: Self,
        effects: Seq<Effect<B, I>>,
    )
        requires
            old.draining,
            Self::update_post(old, Message::Bottles(bottles::Message::BottleCreation(
                Event::Finished { key: old.bottles.creation_generation, outcome })), new, effects),
        ensures
            new.draining,
            new.bottles.creation_cancellation is None,
    {
    }

    /// While draining, the result of a program launch is still taken: one
    /// launch fewer is running.
    pub proof fn law_draining_takes_a_launch_result<I>(
        old: Self,
        result: Result<u32, CoreFailure>,
        new: Self,
        effects: Seq<Effect<B, I>>,
    )
        requires
            old.draining,
            old.bottles.program_launches > 0,
            Self::update_post(old, Message::Bottles(bottles::Message::ProgramLaunched(result)), new, effects),
        ensures
            new.bottles.program_launches == old.bottles.program_launches - 1,
    {
    }

    /// While draining, the end of a library search and of a library launch
    /// are still taken: the search stops being active, the launch ends.
    pub proof fn law_draining_takes_the_end_of_library_work<I>(
        old: Self,
        generation: u64,
        result: Result<u32, CoreFailure>,
        searched: Self,
        launched: Self,
        e1: Seq<Effect<B, I>>,
        e2: Seq<Effect<B, I>>,
    )
        requires
            old.draining,
            Self::update_post(old, Message::Library(library::Message::Loaded(generation)), searched, e1),
            Self::update_post(old, Message::Library(library::Message::Launched(result)), launched, e2),
        ensures
            searched.library.search.active@ == old.library.search.active@.remove(generation),
            !launched.library.launching,
    {
    }

    /// While draining, the answer to a running profile request is still
    /// taken: no request is running afterwards.
    pub proof fn law_draining_takes_a_profile_answer<I>(
        old: Self,
        result: Result<(), CoreFailure>,
        new: Self,
        effects: Seq<Effect<B, I>>,
    )
        requires
            old.draining,
            old.profiles.request_kind is Some,
            Self::update_post(old, if old.profiles.request_kind == Some(profiles::RequestKind::Delete) {
                Message::Profiles(profiles::Message::ProfileDeleted(result))
            } else {
                Message::Profiles(profiles::Message::ProfileUpdated(result))
            }, new, effects),
        ensures
            new.profiles.request_kind is None,
    {
    }

    /// While draining, the answers to an account change, a wrapper change and
    /// a snapshot load are still taken: each stops being active.
    pub proof fn law_draining_takes_the_other_answers<I>(
        old: Self,
        result: Result<(), CoreFailure>,
        snapshot_generation: u64,
        snapshots_result: Option<Result<Vec<snapshots::SnapshotSummary>, CoreFailure>>,
        accounted: Self,
        wrapped: Self,
        loaded: Self,
        e1: Seq<Effect<B, I>>,
        e2: Seq<Effect<B, I>>,
        e3: Seq<Effect<B, I>>,
    )
        requires
            old.draining,
            Self::update_post(old, Message::Accounts(accounts::Message::ProfileUpdated(result)), accounted, e1),
            Self::update_post(old, Message::Settings(settings::Message::WrapperUpdated {
                generation: old.settings.generation, result }), wrapped, e2),
            Self::update_post(old, Message::Snapshots(snapshots::Message::Loaded {
                generation: snapshot_generation, result: snapshots_result }), loaded, e3),
        ensures
            !accounted.accounts.mutation_pending,
            !wrapped.settings.pending,
            loaded.snapshots.loads@ == old.snapshots.loads@.remove(snapshot_generation),
    {
    }

    /// While draining, no new work starts and the user cannot navigate: a
    /// navigation, dialog or window action, a bottle creation or program
    /// launch, a search or library launch, a profile request, an account
    /// change or a wrapper toggle leaves the workspace unchanged and runs
    /// nothing.
    pub proof fn law_draining_starts_no_new_work<I>(
        old: Self,
        message: Message<B, S, C, E, I, P>,
        new: Self,
        effects: Seq<Effect<B, I>>,
    )
        requires
            old.draining,
            match message {
                Message::Bottles(m) => m is CreateBottle || m is LaunchProgram,
                Message::Library(m) => m is QueryChanged || m is Launch,
                Message::Profiles(m) => m is ActivateProfile || m is SubmitCreate || m is RenameSubmit
                    || m is DeleteProfile || m is OpenCreate,
                Message::Accounts(m) => m is UnlinkAccount || m is BeginLogin || m is SubmitLogin,
                Message::Settings(m) => m is ToggleGamescope || m is ToggleMangoHud,
                Message::Snapshots(_) | Message::BottleListChanged(..) | Message::BottleStateChanged(..)
                | Message::ProfilesChanged(_) => false,
                _ => true,
            },
            Self::update_post(old, message, new, effects),
        ensures
            new == old,
            effects.len() == 0,
    {
    }

    /// Routes a message and returns the work for the runtime.
    #[verifier::rlimit(50)]
    pub fn update<I>(&mut self, message: Message<B, S, C, E, I, P>) -> (effects: Vec<Effect<B, I>>)
        requires
            (!old(self).draining && (message matches Message::Bottles(m) && m is LaunchProgram))
                ==> old(self).bottles.program_launches < usize::MAX,
        ensures
            Self::update_post(*old(self), message, *final(self), effects@),
    {
        let mut effects: Vec<Effect<B, I>> = Vec::new();
        if self.draining && !message.allowed_while_draining() {
            return effects;
        }
        match message {
            Message::PrimaryTabSelected(tab) => {
                self.route = match tab {
                    PrimaryTab::Bottles => Route::Bottles,
                    PrimaryTab::Library => Route::Library,
                };
                if tab == PrimaryTab::Library {
                    self.reload_library(&mut effects);
                }
            },
            Message::DetailTabSelected(tab) => {
                if let Route::Bottle { id, .. } = self.route {
                    self.route = Route::Bottle { id, tab };
                }
            },
            Message::BottleSelected(id) => {
                self.route = Route::Bottle { id, tab: DetailTab::Programs };
                self.snapshots.clear();
                self.load_selected_snapshots(&mut effects);
            },
            Message::Back => {
                self.profiles.dismiss_dialog();
                self.accounts.cancel_active_operation();
                if self.panel_open && self.panel == Panel::Profiles {
                    self.panel_open = false;
                } else {
                    self.route = Route::Bottles;
                }
            },
            Message::OpenNewProfile => {
                if !self.profiles.has_active_operation() {
                    self.accounts.cancel_active_operation();
                    self.profiles.dismiss_dialog();
                    let _ = self.profiles.update(profiles::Message::OpenCreate);
                }
            },
            Message::NewProfileDialog(dialog_message) => {
                let forwarded = match dialog_message {
                    NewProfileMessage::NameChanged(name) => profiles::Message::CreateNameChanged(name),
                    NewProfileMessage::Submit => profiles::Message::SubmitCreate,
                    NewProfileMessage::Cancel => profiles::Message::DismissCreate,
                };
                let (effect, _) = self.profiles.update(forwarded);
                effects.push(Effect::Profiles(effect));
            },
            Message::AccountLoginDialog(dialog_message) => {
                if self.accounts.login_dialog.is_some() {
                    match dialog_message {
                        LoginMessage::Cancel => self.accounts.cancel_active_operation(),
                        LoginMessage::CodeChanged(code) => {
                            let _ = self.accounts.update(accounts::Message::LoginCodeChanged(code));
                        },
                        LoginMessage::OpenUrl => {
                            let effect = self.accounts.update(accounts::Message::OpenLoginUrl);
                            effects.push(Effect::Accounts(effect));
                        },
                        LoginMessage::CopyUrl => {
                            let effect = self.accounts.update(accounts::Message::CopyLoginUrl);
                            effects.push(Effect::Accounts(effect));
                        },
                        LoginMessage::Submit => {
                            let effect = self.accounts.update(accounts::Message::SubmitLogin);
                            effects.push(Effect::Accounts(effect));
                        },
                    }
                }
            },
            Message::AddBottle => {
                self.panel = Panel::NewBottle;
                self.panel_open = true;
                self.bottles.reset_creation();
            },
            Message::CancelBottle => {
                self.bottles.cancel_creation();
                self.panel_open = false;
            },
            Message::Window => {
                if !self.has_modal() {
                    effects.push(Effect::Window);
                }
            },
            Message::MoveFocus(previous) => effects.push(Effect::MoveFocus { previous }),
            Message::Bottles(bottles_message) => {
                return self.forward_bottles(bottles_message);
            },
            Message::Snapshots(snapshots_message) => self.snapshots.update(snapshots_message),
            Message::Settings(settings_message) => {
                return self.forward_settings(settings_message);
            },
            Message::Profiles(profiles_message) => {
                return self.forward_profiles(profiles_message);
            },
            Message::Accounts(accounts_message) => {
                let effect = self.accounts.update(accounts_message);
                effects.push(Effect::Accounts(effect));
            },
            Message::Library(library_message) => {
                return self.forward_library(library_message);
            },
            Message::BottleListChanged(list, states) => {
                if self.read_model.set_bottles(list, states) {
                    self.reload_library(&mut effects);
                }
            },
            Message::BottleStateChanged(id, state) => {
                let changed = self.read_model.set_bottle_state(id, state);
                if changed {
                    self.reload_library(&mut effects);
                }
                assert(ReadModel::<B, S, C>::state_set(old(self).read_model, id, state, self.read_model, changed));
            },
            Message::ProfilesChanged(snapshot) => {
                if self.read_model.profiles.config == snapshot.config {
                    return effects;
                }
                let selected_changed = self.read_model.profiles.selected_id != snapshot.selected_id
                    || self.read_model.profiles.selected_name != snapshot.selected_name;
                if selected_changed {
                    self.profiles.sync_selected(snapshot.selected_id, snapshot.selected_name.clone());
                }
                self.read_model.profiles = snapshot;
                self.reload_library(&mut effects);
            },
            Message::OpenMenu | Message::TogglePower | Message::RequestExperience(_) => {},
        }
        effects
    }

    /// Closes the open dialog the way its cancel action does.
    pub fn dismiss_modal<I>(&mut self) -> (effects: Vec<Effect<B, I>>)
        ensures
            old(self).draining || (old(self).profiles.new_profile is None && old(self).accounts.login_dialog is None)
                ==> *final(self) == *old(self) && effects@.len() == 0,
            !old(self).draining && old(self).profiles.new_profile is Some ==> {
                &&& *final(self) == (State { profiles: profiles::State { new_profile: None, ..old(self).profiles }, ..*old(self) })
                &&& effects@.len() == 1
                &&& effects@[0] matches Effect::Profiles(effect) && effect is Nothing
            },
            !old(self).draining && old(self).profiles.new_profile is None && old(self).accounts.login_dialog is Some ==> {
                &&& *final(self) == (State { accounts: accounts::State { login_dialog: None, ..old(self).accounts }, ..*old(self) })
                &&& effects@.len() == 0
            },
    {
        if self.profiles.new_profile.is_some() {
            return self.update(Message::NewProfileDialog(NewProfileMessage::Cancel));
        }
        if self.accounts.login_dialog.is_some() {
            return self.update(Message::AccountLoginDialog(LoginMessage::Cancel));
        }
        Vec::new()
    }
}

} // verus!

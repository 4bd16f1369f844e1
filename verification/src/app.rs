//! The application's top-level phases: booting, onboarding, the open
//! workspace with its experience-switch handshake, and shutdown.
//!
//! [`AppFlow`] decides; the runtime performs the returned [`Command`]s (saving
//! the configuration, opening a workspace, shutting the core down) and feeds
//! the outcomes back in as [`AppEvent`]s.

use vstd::prelude::*;
use crate::format::push_str;

verus! {

/// The two user experiences the application offers.
#[derive(Debug, Clone, Copy, PartialEq, Eq, Structural)]
pub enum Experience {
    Next,
    Classic,
}

/// The persisted application configuration.
#[derive(Debug, Clone, Copy, PartialEq, Eq, Structural)]
pub struct AppConfig {
    pub experience: Option<Experience>,
}

impl Default for AppConfig {
    fn default() -> (config: Self)
        ensures
            config.experience is None,
    {
        AppConfig { experience: None }
    }
}

/// Which configuration access failed.
#[derive(Debug, Clone, Copy, PartialEq, Eq, Structural)]
pub enum ConfigAction {
    Load,
    Save,
}

impl ConfigAction {
    pub open spec fn word(self) -> Seq<char> {
        match self {
            ConfigAction::Load => "load"@,
            ConfigAction::Save => "save"@,
        }
    }

    /// The verb shown in error messages.
    pub fn as_str(self) -> (res: &'static str)
        ensures
            res@ == self.word(),
    {
        match self {
            ConfigAction::Load => "load",
            ConfigAction::Save => "save",
        }
    }
}

/// Errors that stop the application from booting or from saving a choice.
#[derive(Debug, Clone)]
pub enum AppError {
    ConfigDirectory,
    Config { action: ConfigAction, path: String, source: String },
    Core(String),
}

impl AppError {
    /// The user-facing text of the error.
    pub open spec fn text(&self) -> Seq<char> {
        match self {
            AppError::ConfigDirectory => "could not resolve the application config directory"@,
            AppError::Config { action, path, source } => "failed to "@ + action.word() + " "@
                + path@ + ": "@ + source@,
            AppError::Core(error) => "Bottles core failed: "@ + error@,
        }
    }

    /// Renders the error for display.
    pub fn message(&self) -> (res: String)
        ensures
            res@ == self.text(),
    {
        let mut out = String::new();
        match self {
            AppError::ConfigDirectory => {
                push_str(&mut out, "could not resolve the application config directory");
            },
            AppError::Config { action, path, source } => {
                push_str(&mut out, "failed to ");
                push_str(&mut out, action.as_str());
                push_str(&mut out, " ");
                push_str(&mut out, path.as_str());
                push_str(&mut out, ": ");
                push_str(&mut out, source.as_str());
            },
            AppError::Core(error) => {
                push_str(&mut out, "Bottles core failed: ");
                push_str(&mut out, error.as_str());
            },
        }
        out
    }
}

/// Progress of a requested switch to another experience.
#[derive(Debug, Clone, Copy, PartialEq, Eq, Structural)]
pub enum WorkspaceTransition {
    Ready,
    Confirming(Experience),
    Draining(Experience),
    Saving(Experience),
}

/// The workspace shown for the chosen experience.
#[derive(Debug, Clone, Copy, PartialEq, Eq, Structural)]
pub enum Workspace {
    /// The Classic workspace, whose state the runtime holds.
    Classic,
    /// An experience that has no workspace yet.
    Unavailable(Experience),
}

impl Workspace {
    pub open spec fn experience_spec(self) -> Experience {
        match self {
            Workspace::Classic => Experience::Classic,
            Workspace::Unavailable(experience) => experience,
        }
    }

    /// The experience this workspace belongs to.
    pub fn experience(self) -> (res: Experience)
        ensures
            res == self.experience_spec(),
    {
        match self {
            Workspace::Classic => Experience::Classic,
            Workspace::Unavailable(experience) => experience,
        }
    }
}

/// The application's phase.
#[derive(Debug, Clone)]
pub enum Phase {
    Booting,
    Onboarding { saving: Option<Experience>, notice: Option<AppError> },
    Workspace { workspace: Workspace, transition: WorkspaceTransition, notice: Option<AppError> },
    ShuttingDown,
    Failed(AppError),
}

/// Work the runtime performs on behalf of the flow, in order.
#[derive(Debug, Clone, Copy, PartialEq, Eq, Structural)]
pub enum Command {
    /// Create the onboarding state from the core's add-ons.
    StartOnboarding,
    /// Build the workspace of this experience from the core.
    OpenWorkspace(Experience),
    /// Persist this experience as the configured one.
    SaveExperience(Experience),
    /// Hand the current message to the onboarding state.
    ForwardToOnboarding,
    /// Hand the current message to the Classic workspace state.
    ForwardToWorkspace,
    /// Request cancellation of the workspace's running operations.
    CancelWorkspaceOperations,
    /// Request cancellation of the onboarding's running operations.
    CancelOnboardingOperations,
    /// Report whether the workspace still has active operations, through
    /// [`AppFlow::advance_experience_switch`].
    SettleSwitch,
    /// Let the Classic workspace resume after a failed switch.
    ResumeWorkspace,
    /// Shut the core down and report back with `ShutdownFinished`.
    Shutdown,
    /// Perform a window action other than closing.
    WindowAction,
    /// Leave the application.
    Exit,
}

/// What happens to the application.
#[derive(Debug)]
pub enum AppEvent {
    /// The configuration was loaded and the core opened, or one of them failed.
    Booted(Result<AppConfig, AppError>),
    /// Onboarding finished with this experience.
    OnboardingFinished(Experience),
    /// Any other onboarding message.
    Onboarding,
    /// A Classic workspace message; `request` holds the experience when the
    /// message asks for a switch.
    Workspace { request: Option<Experience> },
    RequestExperience(Experience),
    ExperienceSaved { experience: Experience, result: Result<(), AppError> },
    ConfirmExperienceSwitch,
    CancelExperienceSwitch,
    DismissNotice,
    CloseRequested,
    ShutdownFinished,
    /// A window-chrome action; `close` tells whether it asks to close.
    Window { close: bool },
}

pub open spec fn open_workspace_spec(experience: Experience) -> (Phase, Seq<Command>) {
    (
        Phase::Workspace {
            workspace: match experience {
                Experience::Classic => Workspace::Classic,
                Experience::Next => Workspace::Unavailable(Experience::Next),
            },
            transition: WorkspaceTransition::Ready,
            notice: None,
        },
        seq![Command::OpenWorkspace(experience)],
    )
}

pub open spec fn finish_boot_spec(config: AppConfig) -> (Phase, Seq<Command>) {
    match config.experience {
        None => (Phase::Onboarding { saving: None, notice: None }, seq![Command::StartOnboarding]),
        Some(experience) => open_workspace_spec(experience),
    }
}

pub open spec fn request_experience_spec(phase: Phase, experience: Experience) -> (Phase, Seq<Command>) {
    match phase {
        Phase::Onboarding { saving, notice } => {
            if saving is Some {
                (phase, seq![])
            } else {
                (
                    Phase::Onboarding { saving: Some(experience), notice: None },
                    seq![Command::SaveExperience(experience)],
                )
            }
        },
        Phase::Workspace { workspace, transition, notice } => {
            if transition != WorkspaceTransition::Ready || workspace.experience_spec() == experience {
                (phase, seq![])
            } else {
                (
                    Phase::Workspace {
                        workspace,
                        transition: WorkspaceTransition::Confirming(experience),
                        notice: None,
                    },
                    seq![],
                )
            }
        },
        _ => (phase, seq![]),
    }
}

pub open spec fn confirm_switch_spec(phase: Phase) -> (Phase, Seq<Command>) {
    match phase {
        Phase::Workspace { workspace, transition: WorkspaceTransition::Confirming(target), notice } => (
            Phase::Workspace { workspace, transition: WorkspaceTransition::Draining(target), notice },
            seq![Command::CancelWorkspaceOperations, Command::SettleSwitch],
        ),
        _ => (phase, seq![]),
    }
}

pub open spec fn cancel_switch_spec(phase: Phase) -> Phase {
    match phase {
        Phase::Workspace { workspace, transition: WorkspaceTransition::Confirming(_), notice } =>
            Phase::Workspace { workspace, transition: WorkspaceTransition::Ready, notice },
        _ => phase,
    }
}

pub open spec fn advance_switch_spec(phase: Phase, workspace_active: bool) -> (Phase, Seq<Command>) {
    match phase {
        Phase::Workspace { workspace, transition: WorkspaceTransition::Draining(target), notice } => {
            if workspace_active {
                (phase, seq![])
            } else {
                (
                    Phase::Workspace { workspace, transition: WorkspaceTransition::Saving(target), notice },
                    seq![Command::SaveExperience(target)],
                )
            }
        },
        _ => (phase, seq![]),
    }
}

/// Whether a save outcome for `experience` is the one the phase waits for.
pub open spec fn save_expected(phase: Phase, experience: Experience) -> bool {
    match phase {
        Phase::Onboarding { saving, .. } => saving == Some(experience),
        Phase::Workspace { transition: WorkspaceTransition::Saving(target), .. } => target == experience,
        _ => false,
    }
}

pub open spec fn finish_save_spec(
    phase: Phase,
    experience: Experience,
    result: Result<(), AppError>,
) -> (Phase, Seq<Command>) {
    if !save_expected(phase, experience) {
        (phase, seq![])
    } else {
        match result {
            Ok(()) => open_workspace_spec(experience),
            Err(error) => match phase {
                Phase::Onboarding { .. } => (Phase::Onboarding { saving: None, notice: Some(error) }, seq![]),
                Phase::Workspace { workspace, .. } => (
                    Phase::Workspace { workspace, transition: WorkspaceTransition::Ready, notice: Some(error) },
                    match workspace {
                        Workspace::Classic => seq![Command::ResumeWorkspace],
                        Workspace::Unavailable(_) => seq![],
                    },
                ),
                _ => (phase, seq![]),
            },
        }
    }
}

pub open spec fn request_close_spec(phase: Phase) -> (Phase, Seq<Command>) {
    match phase {
        Phase::Onboarding { .. } => (Phase::ShuttingDown, seq![Command::CancelOnboardingOperations, Command::Shutdown]),
        Phase::Workspace { .. } => (Phase::ShuttingDown, seq![Command::CancelWorkspaceOperations, Command::Shutdown]),
        Phase::Booting => (Phase::ShuttingDown, seq![]),
        Phase::Failed(_) => (Phase::ShuttingDown, seq![Command::Exit]),
        Phase::ShuttingDown => (Phase::ShuttingDown, seq![]),
    }
}

pub open spec fn dismiss_notice_spec(phase: Phase) -> Phase {
    match phase {
        Phase::Onboarding { saving, .. } => Phase::Onboarding { saving, notice: None },
        Phase::Workspace { workspace, transition, .. } => Phase::Workspace { workspace, transition, notice: None },
        _ => phase,
    }
}

pub open spec fn booted_spec(phase: Phase, result: Result<AppConfig, AppError>) -> (Phase, Seq<Command>) {
    match phase {
        Phase::ShuttingDown => match result {
            Ok(_) => (phase, seq![Command::Shutdown]),
            Err(_) => (phase, seq![Command::Exit]),
        },
        Phase::Booting => match result {
            Ok(config) => finish_boot_spec(config),
            Err(error) => (Phase::Failed(error), seq![]),
        },
        _ => (phase, seq![]),
    }
}

/// One step of the application for one event.
pub open spec fn update_spec(phase: Phase, event: AppEvent) -> (Phase, Seq<Command>) {
    match event {
        AppEvent::Booted(result) => booted_spec(phase, result),
        AppEvent::OnboardingFinished(experience) => {
            if phase is Onboarding {
                request_experience_spec(phase, experience)
            } else {
                (phase, seq![])
            }
        },
        AppEvent::Onboarding => {
            if phase is Onboarding {
                (phase, seq![Command::ForwardToOnboarding])
            } else {
                (phase, seq![])
            }
        },
        AppEvent::Workspace { request } => match request {
            Some(experience) => request_experience_spec(phase, experience),
            None => match phase {
                Phase::Workspace { workspace: Workspace::Classic, .. } =>
                    (phase, seq![Command::ForwardToWorkspace, Command::SettleSwitch]),
                _ => (phase, seq![]),
            },
        },
        AppEvent::RequestExperience(experience) => request_experience_spec(phase, experience),
        AppEvent::ExperienceSaved { experience, result } => finish_save_spec(phase, experience, result),
        AppEvent::ConfirmExperienceSwitch => confirm_switch_spec(phase),
        AppEvent::CancelExperienceSwitch => (cancel_switch_spec(phase), seq![]),
        AppEvent::DismissNotice => (dismiss_notice_spec(phase), seq![]),
        AppEvent::CloseRequested => request_close_spec(phase),
        AppEvent::ShutdownFinished => {
            if phase is ShuttingDown {
                (phase, seq![Command::Exit])
            } else {
                (phase, seq![])
            }
        },
        AppEvent::Window { close } => {
            if close {
                request_close_spec(phase)
            } else {
                (phase, seq![Command::WindowAction])
            }
        },
    }
}

/// The application's phase machine.
pub struct AppFlow {
    pub phase: Phase,
}

impl AppFlow {
    /// A freshly started application, waiting for boot.
    pub fn new() -> (flow: Self)
        ensures
            flow.phase is Booting,
    {
        AppFlow { phase: Phase::Booting }
    }

    fn open_workspace(experience: Experience) -> (res: (Phase, Vec<Command>))
        ensures
            (res.0, res.1@) == open_workspace_spec(experience),
    {
        let workspace = match experience {
            Experience::Classic => Workspace::Classic,
            Experience::Next => Workspace::Unavailable(Experience::Next),
        };
        (
            Phase::Workspace { workspace, transition: WorkspaceTransition::Ready, notice: None },
            vec![Command::OpenWorkspace(experience)],
        )
    }

    fn finish_boot(config: AppConfig) -> (res: (Phase, Vec<Command>))
        ensures
            (res.0, res.1@) == finish_boot_spec(config),
    {
        match config.experience {
            None => (Phase::Onboarding { saving: None, notice: None }, vec![Command::StartOnboarding]),
            Some(experience) => Self::open_workspace(experience),
        }
    }

    fn request_experience_on(phase: Phase, experience: Experience) -> (res: (Phase, Vec<Command>))
        ensures
            (res.0, res.1@) == request_experience_spec(phase, experience),
    {
        match phase {
            Phase::Onboarding { saving, notice } => {
                if saving.is_some() {
                    (Phase::Onboarding { saving, notice }, Vec::new())
                } else {
                    (
                        Phase::Onboarding { saving: Some(experience), notice: None },
                        vec![Command::SaveExperience(experience)],
                    )
                }
            },
            Phase::Workspace { workspace, transition, notice } => {
                if transition != WorkspaceTransition::Ready || workspace.experience() == experience {
                    (Phase::Workspace { workspace, transition, notice }, Vec::new())
                } else {
                    (
                        Phase::Workspace {
                            workspace,
                            transition: WorkspaceTransition::Confirming(experience),
                            notice: None,
                        },
                        Vec::new(),
                    )
                }
            },
            other => (other, Vec::new()),
        }
    }

    fn take_phase(&mut self) -> (phase: Phase)
        ensures
            phase == old(self).phase,
    {
        let mut phase = Phase::ShuttingDown;
        std::mem::swap(&mut phase, &mut self.phase);
        phase
    }

    /// Asks for another experience: during onboarding the choice is saved at
    /// once (unless a save is already running); in a ready workspace showing
    /// another experience the switch first waits for confirmation.
    pub fn request_experience(&mut self, experience: Experience) -> (cmds: Vec<Command>)
        ensures
            (final(self).phase, cmds@) == request_experience_spec(old(self).phase, experience),
    {
        let phase = self.take_phase();
        let (next, cmds) = Self::request_experience_on(phase, experience);
        self.phase = next;
        cmds
    }

    /// Confirms the pending switch: running operations are asked to stop and
    /// the switch drains until none is left.
    pub fn confirm_experience_switch(&mut self) -> (cmds: Vec<Command>)
        ensures
            (final(self).phase, cmds@) == confirm_switch_spec(old(self).phase),
    {
        let phase = self.take_phase();
        let (next, cmds) = match phase {
            Phase::Workspace { workspace, transition: WorkspaceTransition::Confirming(target), notice } => (
                Phase::Workspace { workspace, transition: WorkspaceTransition::Draining(target), notice },
                vec![Command::CancelWorkspaceOperations, Command::SettleSwitch],
            ),
            other => (other, Vec::new()),
        };
        self.phase = next;
        cmds
    }

    /// Abandons a switch that still waits for confirmation.
    pub fn cancel_experience_switch(&mut self)
        ensures
            final(self).phase == cancel_switch_spec(old(self).phase),
    {
        let phase = self.take_phase();
        self.phase = match phase {
            Phase::Workspace { workspace, transition: WorkspaceTransition::Confirming(_), notice } =>
                Phase::Workspace { workspace, transition: WorkspaceTransition::Ready, notice },
            other => other,
        };
    }

    /// Moves a draining switch on to saving once the workspace reports no
    /// active operation.
    pub fn advance_experience_switch(&mut self, workspace_active: bool) -> (cmds: Vec<Command>)
        ensures
            (final(self).phase, cmds@) == advance_switch_spec(old(self).phase, workspace_active),
    {
        let phase = self.take_phase();
        let (next, cmds) = match phase {
            Phase::Workspace { workspace, transition: WorkspaceTransition::Draining(target), notice } => {
                if workspace_active {
                    (
                        Phase::Workspace { workspace, transition: WorkspaceTransition::Draining(target), notice },
                        Vec::new(),
                    )
                } else {
                    (
                        Phase::Workspace { workspace, transition: WorkspaceTransition::Saving(target), notice },
                        vec![Command::SaveExperience(target)],
                    )
                }
            },
            other => (other, Vec::new()),
        };
        self.phase = next;
        cmds
    }

    /// Handles the outcome of saving `experience`; outcomes that the phase
    /// does not wait for are ignored.
    pub fn finish_experience_save(&mut self, experience: Experience, result: Result<(), AppError>) -> (cmds: Vec<Command>)
        ensures
            (final(self).phase, cmds@) == finish_save_spec(old(self).phase, experience, result),
    {
        let phase = self.take_phase();
        let expected = match &phase {
            Phase::Onboarding { saving, .. } => match saving {
                Some(target) => *target == experience,
                None => false,
            },
            Phase::Workspace { transition: WorkspaceTransition::Saving(target), .. } => *target == experience,
            _ => false,
        };
        if !expected {
            self.phase = phase;
            return Vec::new();
        }
        let (next, cmds) = match result {
            Ok(()) => Self::open_workspace(experience),
            Err(error) => match phase {
                Phase::Onboarding { .. } => (Phase::Onboarding { saving: None, notice: Some(error) }, Vec::new()),
                Phase::Workspace { workspace, .. } => {
                    let cmds = match workspace {
                        Workspace::Classic => vec![Command::ResumeWorkspace],
                        Workspace::Unavailable(_) => Vec::new(),
                    };
                    (
                        Phase::Workspace { workspace, transition: WorkspaceTransition::Ready, notice: Some(error) },
                        cmds,
                    )
                },
                other => (other, Vec::new()),
            },
        };
        self.phase = next;
        cmds
    }

    /// Starts closing the application from whatever phase it is in.
    pub fn request_close(&mut self) -> (cmds: Vec<Command>)
        ensures
            (final(self).phase, cmds@) == request_close_spec(old(self).phase),
    {
        let phase = self.take_phase();
        let cmds = match phase {
            Phase::Onboarding { .. } => vec![Command::CancelOnboardingOperations, Command::Shutdown],
            Phase::Workspace { .. } => vec![Command::CancelWorkspaceOperations, Command::Shutdown],
            Phase::Booting => Vec::new(),
            Phase::Failed(_) => vec![Command::Exit],
            Phase::ShuttingDown => Vec::new(),
        };
        self.phase = Phase::ShuttingDown;
        cmds
    }

    fn dismiss_notice(&mut self)
        ensures
            final(self).phase == dismiss_notice_spec(old(self).phase),
    {
        let phase = self.take_phase();
        self.phase = match phase {
            Phase::Onboarding { saving, .. } => Phase::Onboarding { saving, notice: None },
            Phase::Workspace { workspace, transition, .. } => Phase::Workspace { workspace, transition, notice: None },
            other => other,
        };
    }

    fn booted(&mut self, result: Result<AppConfig, AppError>) -> (cmds: Vec<Command>)
        ensures
            (final(self).phase, cmds@) == booted_spec(old(self).phase, result),
    {
        let phase = self.take_phase();
        let (next, cmds) = match phase {
            Phase::ShuttingDown => match result {
                Ok(_) => (Phase::ShuttingDown, vec![Command::Shutdown]),
                Err(_) => (Phase::ShuttingDown, vec![Command::Exit]),
            },
            Phase::Booting => match result {
                Ok(config) => Self::finish_boot(config),
                Err(error) => (Phase::Failed(error), Vec::new()),
            },
            other => (other, Vec::new()),
        };
        self.phase = next;
        cmds
    }

    /// Handles one event and returns the work the runtime must do.
    pub fn update(&mut self, event: AppEvent) -> (cmds: Vec<Command>)
        ensures
            (final(self).phase, cmds@) == update_spec(old(self).phase, event),
    {
        match event {
            AppEvent::Booted(result) => self.booted(result),
            AppEvent::OnboardingFinished(experience) => {
                if self.phase.is_onboarding() {
                    self.request_experience(experience)
                } else {
                    Vec::new()
                }
            },
            AppEvent::Onboarding => {
                if self.phase.is_onboarding() {
                    vec![Command::ForwardToOnboarding]
                } else {
                    Vec::new()
                }
            },
            AppEvent::Workspace { request } => match request {
                Some(experience) => self.request_experience(experience),
                None => match &self.phase {
                    Phase::Workspace { workspace: Workspace::Classic, .. } =>
                        vec![Command::ForwardToWorkspace, Command::SettleSwitch],
                    _ => Vec::new(),
                },
            },
            AppEvent::RequestExperience(experience) => self.request_experience(experience),
            AppEvent::ExperienceSaved { experience, result } => self.finish_experience_save(experience, result),
            AppEvent::ConfirmExperienceSwitch => self.confirm_experience_switch(),
            AppEvent::CancelExperienceSwitch => {
                self.cancel_experience_switch();
                Vec::new()
            },
            AppEvent::DismissNotice => {
                self.dismiss_notice();
                Vec::new()
            },
            AppEvent::CloseRequested => self.request_close(),
            AppEvent::ShutdownFinished => {
                if self.phase.is_shutting_down() {
                    vec![Command::Exit]
                } else {
                    Vec::new()
                }
            },
            AppEvent::Window { close } => {
                if close {
                    self.request_close()
                } else {
                    vec![Command::WindowAction]
                }
            },
        }
    }
}

impl Phase {
    /// Whether the phase is onboarding.
    pub fn is_onboarding(&self) -> (res: bool)
        ensures
            res == (self is Onboarding),
    {
        match self {
            Phase::Onboarding { .. } => true,
            _ => false,
        }
    }

    /// Whether the application is shutting down.
    pub fn is_shutting_down(&self) -> (res: bool)
        ensures
            res == (self is ShuttingDown),
    {
        match self {
            Phase::ShuttingDown => true,
            _ => false,
        }
    }
}

/// Asking for the experience that is already open is ignored: the phase
/// stays and nothing is run. A switch is only ever offered towards another
/// experience, and then it only asks for confirmation.
pub proof fn law_only_another_experience_is_offered(workspace: Workspace, notice: Option<AppError>, experience: Experience)
    ensures
        ({
            let open = match workspace {
                Workspace::Classic => Experience::Classic,
                Workspace::Unavailable(e) => e,
            };
            let ready = Phase::Workspace { workspace, transition: WorkspaceTransition::Ready, notice };
            let after = update_spec(ready, AppEvent::RequestExperience(experience));
            &&& experience == open ==> after == (ready, Seq::<Command>::empty())
            &&& experience != open ==> after == (
                Phase::Workspace { workspace, transition: WorkspaceTransition::Confirming(experience), notice: None },
                Seq::<Command>::empty(),
            )
        }),
{
}

/// Asking a ready workspace for another experience and then cancelling the
/// confirmation leaves the workspace as it was, with its notice dismissed.
pub proof fn law_request_then_cancel_restores(workspace: Workspace, notice: Option<AppError>, experience: Experience)
    requires
        workspace.experience_spec() != experience,
    ensures
        cancel_switch_spec(
            request_experience_spec(
                Phase::Workspace { workspace, transition: WorkspaceTransition::Ready, notice },
                experience,
            ).0,
        ) == (Phase::Workspace { workspace, transition: WorkspaceTransition::Ready, notice: None }),
{
}

/// While the workspace still reports active operations, a draining switch
/// neither advances nor saves.
pub proof fn law_draining_waits_for_operations(phase: Phase)
    ensures
        advance_switch_spec(phase, true) == (phase, Seq::<Command>::empty()),
{
}

/// A save outcome that the phase does not wait for changes nothing.
pub proof fn law_unexpected_save_is_ignored(phase: Phase, experience: Experience, result: Result<(), AppError>)
    requires
        !save_expected(phase, experience),
    ensures
        finish_save_spec(phase, experience, result) == (phase, Seq::<Command>::empty()),
{
}

/// A close request ends in the shutting-down phase from every phase, and
/// the runtime is told to shut the core down only when a core was opened.
pub proof fn law_close_always_shuts_down(phase: Phase)
    ensures
        request_close_spec(phase).0 is ShuttingDown,
        request_close_spec(phase).1.contains(Command::Shutdown) <==> (phase is Onboarding || phase is Workspace),
{
    let cmds = request_close_spec(phase).1;
    if phase is Onboarding || phase is Workspace {
        assert(cmds[1] == Command::Shutdown);
    } else if phase is Failed {
        assert(cmds =~= seq![Command::Exit]);
        assert(!cmds.contains(Command::Shutdown)) by {
            if cmds.contains(Command::Shutdown) {
                let i = choose|i: int| 0 <= i < cmds.len() && cmds[i] == Command::Shutdown;
                assert(cmds[i] == Command::Exit);
            }
        }
    } else {
        assert(cmds.len() == 0);
    }
}

/// The switching protocol: from a ready workspace, requesting another
/// experience, confirming, and draining with no active operation saves that
/// experience; its successful save opens the workspace of that experience.
pub proof fn law_confirmed_switch_saves_and_opens(workspace: Workspace, notice: Option<AppError>, experience: Experience)
    requires
        workspace.experience_spec() != experience,
    ensures
        ({
            let p0 = Phase::Workspace { workspace, transition: WorkspaceTransition::Ready, notice };
            let p1 = request_experience_spec(p0, experience).0;
            let p2 = confirm_switch_spec(p1).0;
            let (p3, saved) = advance_switch_spec(p2, false);
            &&& saved == seq![Command::SaveExperience(experience)]
            &&& p3 == (Phase::Workspace { workspace, transition: WorkspaceTransition::Saving(experience), notice: None })
            &&& finish_save_spec(p3, experience, Ok(())) == open_workspace_spec(experience)
        }),
{
}

/// A save that fails while switching returns the same workspace to the ready
/// state and shows the error.
pub proof fn law_failed_switch_keeps_workspace(workspace: Workspace, notice: Option<AppError>, experience: Experience, error: AppError)
    ensures
        finish_save_spec(
            Phase::Workspace { workspace, transition: WorkspaceTransition::Saving(experience), notice },
            experience,
            Err(error),
        ).0 == (Phase::Workspace { workspace, transition: WorkspaceTransition::Ready, notice: Some(error) }),
{
}

/// During onboarding only the first requested experience is saved; further
/// requests wait for its outcome.
pub proof fn law_onboarding_saves_one_choice_at_a_time(saving: Experience, notice: Option<AppError>, experience: Experience)
    ensures
        request_experience_spec(Phase::Onboarding { saving: Some(saving), notice }, experience)
            == (Phase::Onboarding { saving: Some(saving), notice }, Seq::<Command>::empty()),
{
}

/// Where the core fetches its component catalog.
pub const COMPONENT_CATALOG_URL: &'static str = "https://bottles-next-deps.bromb.in/api/v1/catalog/components";

/// Where the core fetches its dependency catalog.
pub const DEPENDENCY_CATALOG_URL: &'static str = "https://bottles-next-deps.bromb.in/api/v1/catalog/dependencies";

/// The serialization of the absolute URL that `text` parses to, or `None`
/// where it does not parse.
pub uninterp spec fn parsed_url(text: Seq<char>) -> Option<Seq<char>>;

pub open spec fn shown_url(url: Option<String>) -> Option<Seq<char>> {
    match url {
        Some(text) => Some(text@),
        None => None,
    }
}

/// Parses an absolute URL and gives back its serialization.
///
/// Trusted: calls `url::Url::parse` and `Url::as_str`. The parse is a function
/// of the input text alone; the contract names its result and states nothing
/// more of it.
#[verifier::external_body]
fn parse_url(text: &str) -> (res: Option<String>)
    ensures
        shown_url(res) == parsed_url(text@),
{
    url::Url::parse(text).ok().map(|url| url.as_str().to_owned())
}

/// The catalog locations handed to the core.
#[derive(Debug, Clone)]
pub struct CatalogUrls {
    pub component: String,
    pub dependency: String,
}

/// Pairs the parsed catalog locations; without both there is no configuration.
pub fn catalog_urls_from(component: Option<String>, dependency: Option<String>) -> (res: Option<CatalogUrls>)
    ensures
        match (component, dependency) {
            (Some(c), Some(d)) => res matches Some(urls) && urls.component == c && urls.dependency == d,
            _ => res is None,
        },
{
    match (component, dependency) {
        (Some(component), Some(dependency)) => Some(CatalogUrls { component, dependency }),
        _ => None,
    }
}

/// The production catalog locations, parsed.
pub fn catalog_urls() -> (res: Option<CatalogUrls>)
    ensures
        match (parsed_url(COMPONENT_CATALOG_URL@), parsed_url(DEPENDENCY_CATALOG_URL@)) {
            (Some(c), Some(d)) => res matches Some(urls) && urls.component@ == c && urls.dependency@ == d,
            _ => res is None,
        },
{
    let component = parse_url(COMPONENT_CATALOG_URL);
    let dependency = parse_url(DEPENDENCY_CATALOG_URL);
    catalog_urls_from(component, dependency)
}

} // verus!


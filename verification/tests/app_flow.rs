use next_ui::app::{catalog_urls, catalog_urls_from, COMPONENT_CATALOG_URL, DEPENDENCY_CATALOG_URL};
use next_ui::app::{AppConfig, AppError, AppEvent, AppFlow, Command, ConfigAction, Experience, Phase, Workspace, WorkspaceTransition};

fn booted(experience: Option<Experience>) -> (AppFlow, Vec<Command>) {
    let mut flow = AppFlow::new();
    let commands = flow.update(AppEvent::Booted(Ok(AppConfig { experience })));
    (flow, commands)
}

#[test]
fn a_missing_experience_starts_onboarding() {
    let (flow, commands) = booted(None);
    assert_eq!(commands, vec![Command::StartOnboarding]);
    assert!(flow.phase.is_onboarding());
    assert_eq!(AppConfig::default().experience, None);
}

#[test]
fn a_saved_experience_opens_its_workspace() {
    let (flow, commands) = booted(Some(Experience::Classic));
    assert_eq!(commands, vec![Command::OpenWorkspace(Experience::Classic)]);
    assert!(matches!(
        flow.phase,
        Phase::Workspace { workspace: Workspace::Classic, transition: WorkspaceTransition::Ready, notice: None }
    ));
}

#[test]
fn a_failed_boot_fails_the_application() {
    let mut flow = AppFlow::new();
    let commands = flow.update(AppEvent::Booted(Err(AppError::ConfigDirectory)));
    assert!(commands.is_empty());
    assert!(matches!(flow.phase, Phase::Failed(AppError::ConfigDirectory)));
}

#[test]
fn requesting_then_cancelling_a_switch_restores_the_workspace() {
    let (mut flow, _) = booted(Some(Experience::Classic));
    flow.update(AppEvent::RequestExperience(Experience::Next));
    assert!(matches!(flow.phase, Phase::Workspace { transition: WorkspaceTransition::Confirming(Experience::Next), .. }));
    flow.update(AppEvent::CancelExperienceSwitch);
    assert!(matches!(flow.phase, Phase::Workspace { transition: WorkspaceTransition::Ready, .. }));
}

#[test]
fn a_confirmed_switch_drains_saves_and_opens() {
    let (mut flow, _) = booted(Some(Experience::Classic));
    flow.update(AppEvent::RequestExperience(Experience::Next));
    let commands = flow.update(AppEvent::ConfirmExperienceSwitch);
    assert_eq!(commands, vec![Command::CancelWorkspaceOperations, Command::SettleSwitch]);

    let waiting = flow.advance_experience_switch(true);
    assert!(waiting.is_empty());
    assert!(matches!(flow.phase, Phase::Workspace { transition: WorkspaceTransition::Draining(Experience::Next), .. }));

    let saving = flow.advance_experience_switch(false);
    assert_eq!(saving, vec![Command::SaveExperience(Experience::Next)]);

    let opened = flow.update(AppEvent::ExperienceSaved { experience: Experience::Next, result: Ok(()) });
    assert_eq!(opened, vec![Command::OpenWorkspace(Experience::Next)]);
    assert!(matches!(flow.phase, Phase::Workspace { workspace: Workspace::Unavailable(Experience::Next), .. }));
}

#[test]
fn closing_always_shuts_down() {
    let (mut flow, _) = booted(None);
    let commands = flow.update(AppEvent::CloseRequested);
    assert!(flow.phase.is_shutting_down());
    assert!(commands.contains(&Command::Shutdown));
    let exit = flow.update(AppEvent::ShutdownFinished);
    assert_eq!(exit, vec![Command::Exit]);
}

#[test]
fn errors_render_their_cause() {
    let error = AppError::Config { action: ConfigAction::Save, path: "/tmp/next-ui.toml".into(), source: "denied".into() };
    assert_eq!(error.message(), "failed to save /tmp/next-ui.toml: denied");
    assert_eq!(AppError::Core("boom".into()).message(), "Bottles core failed: boom");
    assert_eq!(AppError::ConfigDirectory.message(), "could not resolve the application config directory");
    assert_eq!(ConfigAction::Load.as_str(), "load");
    assert_eq!(Workspace::Unavailable(Experience::Next).experience(), Experience::Next);
    assert_eq!(Workspace::Classic.experience(), Experience::Classic);
}

#[test]
fn production_catalogs_are_configured() {
    let urls = catalog_urls().unwrap();
    assert_eq!(urls.component.as_str(), COMPONENT_CATALOG_URL);
    assert_eq!(urls.dependency.as_str(), DEPENDENCY_CATALOG_URL);
    assert!(catalog_urls_from(None, Some("https://example.com/".into())).is_none());
    let paired = catalog_urls_from(Some("a".into()), Some("b".into())).unwrap();
    assert_eq!((paired.component.as_str(), paired.dependency.as_str()), ("a", "b"));
}

use next_ui::catalog::Component;
use next_ui::onboarding::{Effect, Message, State, Step};
use next_ui::operation::{CoreFailure, Event, Outcome, Progress};
use next_ui::app::Experience;
use next_ui::catalog::{CatalogEntry, Slot};
use next_ui::onboarding::{
    current_download, downloads_complete, experience_available, experience_caption, experience_label,
    request_download_cancellation, supported_component, DownloadItem, DownloadState, SLOT_COUNT,
};
use tokio_util::sync::CancellationToken;

fn download(progress: u32, state: DownloadState) -> DownloadItem {
    DownloadItem { id: 0, label: String::new(), size_label: String::new(), progress, state }
}

#[test]
fn only_classic_is_available() {
    assert!(experience_available(Experience::Classic));
    assert!(!experience_available(Experience::Next));
}

#[test]
fn component_selection_skips_unsupported_entries() {
    let entry = |id: u128, supported: bool| CatalogEntry {
        id,
        slot: Slot::WineBridge,
        name: "WineBridge".into(),
        version: "1.0.0".into(),
        supported,
    };
    let unsupported = entry(0x77e90211_9091_47a9_bb00_0da6c2360981, false);
    let universal = entry(0xd87fd8b8_8230_4e64_a66f_8b0e1c70c694, true);
    let universal_id = universal.id;
    let entries = vec![unsupported.clone(), universal];

    assert_eq!(supported_component(&entries, Slot::WineBridge).map(|entry| entry.id), Some(universal_id));
    assert!(supported_component(&vec![unsupported], Slot::WineBridge).is_none());
}

#[test]
fn setup_must_finish_successfully_before_continuing() {
    assert!(!downloads_complete(&vec![download(900_000, DownloadState::Running(CancellationToken::new()))]));
    assert!(!downloads_complete(&vec![download(1_000_000, DownloadState::Cancelled)]));
    assert!(!downloads_complete(&vec![download(0, DownloadState::Unavailable)]));
    let succeeded = (0..SLOT_COUNT).map(|_| download(1_000_000, DownloadState::Succeeded)).collect::<Vec<_>>();
    assert!(downloads_complete(&succeeded));
}

#[test]
fn stale_download_keys_are_ignored() {
    let id = 0x1234_5678_9abc_def0_u128;
    let downloads = vec![DownloadItem {
        id,
        label: String::new(),
        size_label: String::new(),
        progress: 0,
        state: DownloadState::Running(CancellationToken::new()),
    }];

    assert!(current_download(&downloads, 2, (1, id)).is_none());
    assert!(current_download(&downloads, 2, (2, id)).is_some());
}

#[test]
fn cancellation_is_requested_without_discarding_the_running_state() {
    let cancellation = CancellationToken::new();
    let downloads = vec![download(500_000, DownloadState::Running(cancellation.clone()))];

    request_download_cancellation(&downloads);

    assert!(cancellation.is_cancelled());
    assert!(matches!(&downloads[0].state, DownloadState::Running(_)));
}

#[test]
fn experiences_are_described() {
    assert_eq!(experience_label(Experience::Classic), "Classic Mode");
    assert_eq!(experience_label(Experience::Next), "Next Mode");
    assert_eq!(experience_caption(Experience::Classic), "The experience for advanced users.");
}


fn running(id: u128) -> DownloadItem {
    DownloadItem {
        id,
        label: "Runner".into(),
        size_label: "Runner".into(),
        progress: 0,
        state: DownloadState::Running(CancellationToken::new()),
    }
}

#[test]
fn progress_and_results_update_the_current_row() {
    let mut state = State::new();
    state.download_generation = 1;
    state.downloads = vec![running(7)];

    state.update(Message::Download(Event::Progress {
        key: (1, 7),
        progress: Progress { fraction_millionths: Some(250_000), total_bytes: Some(1_048_576) },
    }));
    assert_eq!(state.downloads[0].progress, 250_000);
    assert_eq!(state.downloads[0].size_label, "1.0 MB");

    state.update(Message::Download(Event::Finished { key: (0, 7), outcome: Outcome::Succeeded(()) }));
    assert!(matches!(state.downloads[0].state, DownloadState::Running(_)));

    state.update(Message::Download(Event::Finished {
        key: (1, 7),
        outcome: Outcome::Failed(CoreFailure { cancelled: false, text: "offline".into() }),
    }));
    assert!(matches!(&state.downloads[0].state, DownloadState::Failed(text) if text == "offline"));
    assert_eq!(state.downloads[0].progress, 250_000);
}

#[test]
fn the_tutorial_leads_to_a_catalog_refresh_and_the_checklist() {
    let mut state = State::new();
    state.update(Message::ApplyExperience);
    state.update(Message::NextTutorialStep);
    state.update(Message::NextTutorialStep);
    let effects = state.update(Message::NextTutorialStep);
    assert_eq!(state.step, Step::Downloads);
    assert!(matches!(effects.as_slice(), [Effect::RefreshCatalog { generation: 1 }]));

    let installed = vec![Component { id: 3, slot: Slot::WineBridge, name: "WineBridge".into(), version: "1.0".into() }];
    let catalog = vec![CatalogEntry { id: 9, slot: Slot::Runner, name: "Proton".into(), version: "9.0".into(), supported: true }];
    let effects = state.update(Message::CatalogRefresh {
        event: Event::Finished { key: 1, outcome: Outcome::Succeeded(()) },
        installed,
        catalog,
    });
    assert_eq!(state.downloads.len(), SLOT_COUNT);
    assert!(effects.iter().all(|effect| matches!(effect, Effect::Fetch { generation: 1, id: 9, .. })));
    assert_eq!(effects.len(), 1);
    assert!(state.downloads.iter().any(|item| matches!(item.state, DownloadState::Succeeded)));
    assert!(state.downloads.iter().any(|item| item.id == 9 && matches!(item.state, DownloadState::Running(_))));
    let running = state.downloads.iter().find(|item| item.id == 9).expect("runner row");
    assert_eq!((running.label.as_str(), running.size_label.as_str()), ("Proton 9.0", "Runner"));
    let installed_row = state.downloads.iter().find(|item| item.id == 3).expect("installed row");
    assert_eq!((installed_row.label.as_str(), installed_row.size_label.as_str()), ("WineBridge 1.0", "WineBridge"));
    assert!(!downloads_complete(&state.downloads));
}

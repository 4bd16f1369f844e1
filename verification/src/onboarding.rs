//! First-run onboarding: the experience picker, a short tutorial, and the
//! checklist of runtime downloads driven by the core's add-on manager.
//!
//! A setup run is numbered by generation: refreshing the catalog first, then
//! fetching each missing component. Events of an older run are ignored, and
//! a running download keeps its state when cancellation is requested.

use vstd::prelude::*;
use tokio_util::sync::CancellationToken;
use crate::app::Experience;
use crate::bytes::{format_bytes, size_text};
use crate::catalog::{CatalogEntry, Component, Slot};
use crate::format::{owned, push_str};
use crate::operation::{bump, cancel_token, new_token, next_generation, share_token, Event, Outcome, Progress};

verus! {

/// Number of tutorial pages.
pub const TUTORIAL_LEN: usize = 3;

/// Number of components the setup makes sure of.
pub const SLOT_COUNT: usize = 2;

/// The components onboarding makes sure of, with their labels, in order.
pub open spec fn onboarding_slot(index: int) -> (Slot, Seq<char>) {
    if index == 0 { (Slot::WineBridge, "WineBridge"@) } else { (Slot::Runner, "Runner"@) }
}

fn slot_at(index: usize) -> (res: (Slot, &'static str))
    requires
        index < SLOT_COUNT,
    ensures
        res.0 == onboarding_slot(index as int).0,
        res.1@ == onboarding_slot(index as int).1,
{
    if index == 0 { (Slot::WineBridge, "WineBridge") } else { (Slot::Runner, "Runner") }
}

/// A random component id for a checklist row without a component.
///
/// Trusted: calls `uuid::Uuid::new_v4` and converts it with `as_u128`;
/// the value is random, so nothing is stated about it.
#[verifier::external_body]
fn random_id() -> u128 {
    uuid::Uuid::new_v4().as_u128()
}

/// The onboarding step.
#[derive(Debug, Clone, Copy, PartialEq, Eq, Structural)]
pub enum Step {
    Welcome,
    Tutorial(usize),
    Downloads,
}

/// State of one checklist row.
pub enum DownloadState {
    Running(CancellationToken),
    Succeeded,
    Cancelled,
    Unavailable,
    Failed(String),
}

/// One checklist row.
pub struct DownloadItem {
    pub id: u128,
    pub label: String,
    pub size_label: String,
    /// Progress in millionths.
    pub progress: u32,
    pub state: DownloadState,
}

/// Messages of onboarding.
pub enum Message {
    SelectExperience(Experience),
    ApplyExperience,
    NextTutorialStep,
    /// The catalog refresh reported; the add-ons' installed components and
    /// catalog entries as they are now come with it.
    CatalogRefresh { event: Event<u64, ()>, installed: Vec<Component>, catalog: Vec<CatalogEntry> },
    /// A download reported, keyed by setup generation and component id.
    Download(Event<(u64, u128), ()>),
    CancelDownloads,
    Finished(Experience),
    Window,
}

/// Work for the runtime.
pub enum Effect {
    /// Refresh the add-on catalogs and report with `CatalogRefresh` of
    /// `generation`; hand the operation's token to [`State::attach_refresh`].
    RefreshCatalog { generation: u64 },
    /// Fetch the component and report with `Download` keyed by
    /// `(generation, id)`; cancel the fetch when `cancellation` fires.
    Fetch { generation: u64, id: u128, cancellation: CancellationToken },
    /// Perform the window-chrome action.
    Window,
}

/// Whether the effect fetches component `id` for setup run `generation`.
pub open spec fn fetches(effect: Effect, generation: u64, id: u128) -> bool {
    match effect {
        Effect::Fetch { generation: g, id: i, .. } => g == generation && i == id,
        _ => false,
    }
}

/// Whether an experience can be chosen today.
pub open spec fn experience_available_spec(experience: Experience) -> bool {
    experience == Experience::Classic
}

/// Whether an experience can be chosen today: only Classic.
pub fn experience_available(experience: Experience) -> (res: bool)
    ensures
        res == experience_available_spec(experience),
{
    experience == Experience::Classic
}

/// The title of an experience.
pub fn experience_label(experience: Experience) -> (res: &'static str)
    ensures
        res@ == match experience { Experience::Next => "Next Mode"@, Experience::Classic => "Classic Mode"@ },
{
    match experience {
        Experience::Next => "Next Mode",
        Experience::Classic => "Classic Mode",
    }
}

/// The one-line caption of an experience.
pub fn experience_caption(experience: Experience) -> (res: &'static str)
    ensures
        res@ == match experience {
            Experience::Next => "The easiest way to use Bottles."@,
            Experience::Classic => "The experience for advanced users."@,
        },
{
    match experience {
        Experience::Next => "The easiest way to use Bottles.",
        Experience::Classic => "The experience for advanced users.",
    }
}

/// The two paragraphs describing an experience.
pub fn experience_detail(experience: Experience) -> (res: (&'static str, &'static str))
    ensures
        (res.0@, res.1@) == match experience {
            Experience::Next => (
                "The software and games you install will be managed by Bottles using a single environment."@,
                "This experience is not available yet."@,
            ),
            Experience::Classic => (
                "The software and games you install will be managed by Bottles in multiple environments."@,
                "This gives advanced users the ability to fine-tune their experience."@,
            ),
        },
{
    match experience {
        Experience::Next => (
            "The software and games you install will be managed by Bottles using a single environment.",
            "This experience is not available yet.",
        ),
        Experience::Classic => (
            "The software and games you install will be managed by Bottles in multiple environments.",
            "This gives advanced users the ability to fine-tune their experience.",
        ),
    }
}

/// `name version`, as a checklist row names a component.
pub open spec fn entry_label(name: Seq<char>, version: Seq<char>) -> Seq<char> {
    name + " "@ + version
}

/// Whether `j` is the first installed component of the slot.
pub open spec fn first_installed(installed: Seq<Component>, j: int, slot: Slot) -> bool {
    &&& 0 <= j < installed.len()
    &&& installed[j].slot == slot
    &&& forall|m: int| 0 <= m < j ==> installed[m].slot != slot
}

/// Whether `j` is the first catalog entry of the slot supported here.
pub open spec fn first_supported(catalog: Seq<CatalogEntry>, j: int, slot: Slot) -> bool {
    &&& 0 <= j < catalog.len()
    &&& catalog[j].slot == slot && catalog[j].supported
    &&& forall|m: int| 0 <= m < j ==> !(catalog[m].slot == slot && catalog[m].supported)
}

/// The checklist row of the slot with this label: a finished row naming the
/// installed component, an unavailable row where the catalog has no
/// supported entry, and otherwise a running row naming the entry, whose
/// fetch is among the effects.
pub open spec fn row_started(
    installed: Seq<Component>,
    catalog: Seq<CatalogEntry>,
    generation: u64,
    slot: Slot,
    label: Seq<char>,
    item: DownloadItem,
    effects: Seq<Effect>,
) -> bool {
    if exists|j: int| 0 <= j < installed.len() && installed[j].slot == slot {
        &&& item.state is Succeeded && item.progress == 1_000_000 && item.size_label@ == label
        &&& exists|j: int| #[trigger] first_installed(installed, j, slot) && item.id == installed[j].id
            && item.label@ == entry_label(installed[j].name@, installed[j].version@)
    } else if forall|j: int| 0 <= j < catalog.len() ==> !(catalog[j].slot == slot && catalog[j].supported) {
        item.state is Unavailable && item.label@ == label && item.size_label@ == "Unavailable"@ && item.progress == 0
    } else {
        &&& item.state is Running && item.size_label@ == label && item.progress == 0
        &&& exists|j: int| #[trigger] first_supported(catalog, j, slot) && item.id == catalog[j].id
            && item.label@ == entry_label(catalog[j].name@, catalog[j].version@)
        &&& exists|k: int| 0 <= k < effects.len() && fetches(#[trigger] effects[k], generation, item.id)
    }
}

/// The checklist of a setup run: a row per onboarding slot, as
/// [`row_started`] says, and effects that are all fetches.
pub open spec fn downloads_started(
    installed: Seq<Component>,
    catalog: Seq<CatalogEntry>,
    generation: u64,
    downloads: Seq<DownloadItem>,
    effects: Seq<Effect>,
) -> bool {
    &&& downloads.len() == SLOT_COUNT
    &&& forall|i: int| 0 <= i < SLOT_COUNT ==>
        row_started(installed, catalog, generation, onboarding_slot(i).0, onboarding_slot(i).1, #[trigger] downloads[i], effects)
    &&& forall|k: int| 0 <= k < effects.len() ==> (#[trigger] effects[k]) is Fetch
}

/// A row stays started when more effects follow the ones it had.
proof fn lemma_row_started_grows(
    installed: Seq<Component>,
    catalog: Seq<CatalogEntry>,
    generation: u64,
    slot: Slot,
    label: Seq<char>,
    item: DownloadItem,
    before: Seq<Effect>,
    after: Seq<Effect>,
)
    requires
        row_started(installed, catalog, generation, slot, label, item, before),
        before.len() <= after.len(),
        after.take(before.len() as int) == before,
    ensures
        row_started(installed, catalog, generation, slot, label, item, after),
{
    if !(exists|j: int| 0 <= j < installed.len() && installed[j].slot == slot)
        && !(forall|j: int| 0 <= j < catalog.len() ==> !(catalog[j].slot == slot && catalog[j].supported)) {
        let k = choose|k: int| 0 <= k < before.len() && fetches(#[trigger] before[k], generation, item.id);
        assert(after.take(before.len() as int)[k] == after[k]);
        assert(fetches(after[k], generation, item.id));
    }
}

/// Whether the item at `k` is the first one with this id.
pub open spec fn first_with_id(downloads: Seq<DownloadItem>, k: int, id: u128) -> bool {
    &&& 0 <= k < downloads.len()
    &&& downloads[k].id == id
    &&& forall|j: int| 0 <= j < k ==> (#[trigger] downloads[j]).id != id
}

/// The row after a progress report: a running download takes the reported
/// fraction and total size, where they are known; other rows stay.
pub open spec fn progressed(before: DownloadItem, after: DownloadItem, progress: Progress) -> bool {
    &&& after.id == before.id
    &&& after.label == before.label
    &&& after.state == before.state
    &&& if before.state is Running {
        &&& after.progress == match progress.fraction_millionths { Some(fraction) => fraction, None => before.progress }
        &&& after.size_label@ == match progress.total_bytes { Some(total) => size_text(total as nat), None => before.size_label@ }
    } else {
        after.progress == before.progress && after.size_label == before.size_label
    }
}

/// The row after its download ended.
pub open spec fn finished_item(before: DownloadItem, after: DownloadItem, outcome: Outcome<()>) -> bool {
    &&& after.id == before.id
    &&& after.label == before.label
    &&& after.size_label == before.size_label
    &&& match outcome {
        Outcome::Succeeded(_) => after.state is Succeeded && after.progress == 1_000_000,
        Outcome::Cancelled => after.state is Cancelled && after.progress == before.progress,
        Outcome::Failed(error) => after.state == DownloadState::Failed(error.text) && after.progress == before.progress,
    }
}

/// A report keyed by `key` changes, as `change` says, the first row with the
/// key's id when the key is of the current setup run; otherwise nothing.
pub open spec fn download_updated(
    before: Seq<DownloadItem>,
    after: Seq<DownloadItem>,
    generation: u64,
    key: (u64, u128),
    change: spec_fn(DownloadItem, DownloadItem) -> bool,
) -> bool {
    if key.0 == generation && exists|k: int| #[trigger] first_with_id(before, k, key.1) {
        exists|k: int| #[trigger] first_with_id(before, k, key.1) && change(before[k], after[k])
            && after.len() == before.len()
            && forall|j: int| 0 <= j < before.len() && j != k ==> after[j] == before[j]
    } else {
        after == before
    }
}

/// Whether every component of the setup is in place.
pub open spec fn downloads_complete_spec(downloads: Seq<DownloadItem>) -> bool {
    downloads.len() == SLOT_COUNT && forall|k: int| 0 <= k < downloads.len() ==> (#[trigger] downloads[k]).state is Succeeded
}

/// Whether the setup may continue: one successful row per component.
pub fn downloads_complete(downloads: &Vec<DownloadItem>) -> (res: bool)
    ensures
        res == downloads_complete_spec(downloads@),
{
    if downloads.len() != SLOT_COUNT {
        return false;
    }
    let mut k: usize = 0;
    while k < downloads.len()
        invariant
            0 <= k <= downloads@.len(),
            forall|j: int| 0 <= j < k ==> (#[trigger] downloads@[j]).state is Succeeded,
        decreases downloads@.len() - k,
    {
        match downloads[k].state {
            DownloadState::Succeeded => {},
            _ => return false,
        }
        k += 1;
    }
    true
}

/// The row of the current setup run with `id`, if the key belongs to it.
pub fn current_download(downloads: &Vec<DownloadItem>, current_generation: u64, key: (u64, u128)) -> (res: Option<usize>)
    ensures
        key.0 != current_generation ==> res is None,
        key.0 == current_generation ==> match res {
            Some(k) => k < downloads@.len() && downloads@[k as int].id == key.1
                && forall|j: int| 0 <= j < k ==> downloads@[j].id != key.1,
            None => forall|j: int| 0 <= j < downloads@.len() ==> downloads@[j].id != key.1,
        },
{
    if key.0 != current_generation {
        return None;
    }
    let mut k: usize = 0;
    while k < downloads.len()
        invariant
            0 <= k <= downloads@.len(),
            key.0 == current_generation,
            forall|j: int| 0 <= j < k ==> downloads@[j].id != key.1,
        decreases downloads@.len() - k,
    {
        if downloads[k].id == key.1 {
            return Some(k);
        }
        k += 1;
    }
    None
}

/// Requests cancellation of every running download; the rows keep their state.
pub fn request_download_cancellation(downloads: &Vec<DownloadItem>) {
    let mut k: usize = 0;
    while k < downloads.len()
        invariant
            0 <= k <= downloads@.len(),
        decreases downloads@.len() - k,
    {
        if let DownloadState::Running(cancellation) = &downloads[k].state {
            cancel_token(cancellation);
        }
        k += 1;
    }
}

/// A component's `name version`.
pub fn component_label(name: &str, version: &str) -> (res: String)
    ensures
        res@ == entry_label(name@, version@),
{
    let mut label = String::new();
    push_str(&mut label, name);
    push_str(&mut label, " ");
    push_str(&mut label, version);
    label
}

/// The first catalog entry for the slot that is supported on this platform.
pub fn supported_component(entries: &Vec<CatalogEntry>, slot: Slot) -> (res: Option<&CatalogEntry>)
    ensures
        match res {
            Some(entry) => exists|k: int| first_supported(entries@, k, slot) && entries@[k] == *entry,
            None => forall|j: int| 0 <= j < entries@.len() ==> !(entries@[j].slot == slot && entries@[j].supported),
        },
{
    let mut k: usize = 0;
    while k < entries.len()
        invariant
            0 <= k <= entries@.len(),
            forall|j: int| 0 <= j < k ==> !(entries@[j].slot == slot && entries@[j].supported),
        decreases entries@.len() - k,
    {
        let entry = &entries[k];
        if entry.slot == slot && entry.supported {
            assert(first_supported(entries@, k as int, slot));
            return Some(entry);
        }
        k += 1;
    }
    None
}

fn installed_in(installed: &Vec<Component>, slot: Slot) -> (res: Option<usize>)
    ensures
        match res {
            Some(k) => k < installed@.len() && installed@[k as int].slot == slot
                && forall|j: int| 0 <= j < k ==> installed@[j].slot != slot,
            None => forall|j: int| 0 <= j < installed@.len() ==> installed@[j].slot != slot,
        },
{
    let mut k: usize = 0;
    while k < installed.len()
        invariant
            0 <= k <= installed@.len(),
            forall|j: int| 0 <= j < k ==> installed@[j].slot != slot,
        decreases installed@.len() - k,
    {
        if installed[k].slot == slot {
            return Some(k);
        }
        k += 1;
    }
    None
}

/// Onboarding.
pub struct State {
    pub step: Step,
    pub experience: Experience,
    pub downloads: Vec<DownloadItem>,
    pub download_generation: u64,
    pub catalog_refresh: Option<CancellationToken>,
    pub catalog_error: Option<String>,
}

impl State {
    /// The welcome page with Classic preselected.
    pub fn new() -> (state: Self)
        ensures
            state.step == Step::Welcome,
            state.experience == Experience::Classic,
            state.downloads@.len() == 0,
            state.download_generation == 0,
            state.catalog_refresh is None,
            state.catalog_error is None,
    {
        State {
            step: Step::Welcome,
            experience: Experience::Classic,
            downloads: Vec::new(),
            download_generation: 0,
            catalog_refresh: None,
            catalog_error: None,
        }
    }

    /// Requests cancellation of the catalog refresh and of every download.
    pub fn cancel_active_operations(&self) {
        if let Some(cancellation) = &self.catalog_refresh {
            cancel_token(cancellation);
        }
        request_download_cancellation(&self.downloads);
    }

    /// Registers the cancellation token of the refresh started for
    /// [`Effect::RefreshCatalog`].
    pub fn attach_refresh(&mut self, cancellation: CancellationToken)
        ensures
            *final(self) == (State { catalog_refresh: Some(cancellation), ..*old(self) }),
            final(self).catalog_refresh == Some(cancellation),
            final(self).step == old(self).step,
            final(self).download_generation == old(self).download_generation,
    {
        self.catalog_refresh = Some(cancellation);
    }

    fn start_setup(&mut self) -> (effects: Vec<Effect>)
        ensures
            *final(self) == (State {
                download_generation: next_generation(old(self).download_generation),
                downloads: final(self).downloads,
                catalog_error: None,
                ..*old(self)
            }),
            final(self).downloads@.len() == 0,
            effects@ == seq![Effect::RefreshCatalog { generation: final(self).download_generation }],
    {
        self.cancel_active_operations();
        self.download_generation = bump(self.download_generation);
        self.downloads.clear();
        self.catalog_error = None;
        vec![Effect::RefreshCatalog { generation: self.download_generation }]
    }

    fn start_downloads(&mut self, installed: &Vec<Component>, catalog: &Vec<CatalogEntry>) -> (effects: Vec<Effect>)
        ensures
            *final(self) == (State { downloads: final(self).downloads, ..*old(self) }),
            final(self).downloads@.len() == SLOT_COUNT,
            final(self).download_generation == old(self).download_generation,
            final(self).catalog_error == old(self).catalog_error,
            final(self).catalog_refresh == old(self).catalog_refresh,
            final(self).step == old(self).step,
            downloads_started(installed@, catalog@, old(self).download_generation, final(self).downloads@, effects@),
    {
        let generation = self.download_generation;
        let mut effects: Vec<Effect> = Vec::new();
        let mut downloads: Vec<DownloadItem> = Vec::new();
        let mut i: usize = 0;
        while i < SLOT_COUNT
            invariant
                0 <= i <= SLOT_COUNT,
                downloads@.len() == i,
                generation == old(self).download_generation,
                forall|k: int| 0 <= k < effects@.len() ==> (#[trigger] effects@[k]) is Fetch,
                forall|m: int| 0 <= m < i ==> row_started(installed@, catalog@, generation,
                    onboarding_slot(m).0, onboarding_slot(m).1, #[trigger] downloads@[m], effects@),
            decreases SLOT_COUNT - i,
        {
            let (slot, slot_label) = slot_at(i);
            let ghost before = effects@;
            let ghost rows = downloads@;
            match installed_in(installed, slot) {
                Some(k) => {
                    let entry = &installed[k];
                    let label = component_label(entry.name.as_str(), entry.version.as_str());
                    downloads.push(DownloadItem {
                        id: entry.id,
                        label,
                        size_label: owned(slot_label),
                        progress: 1_000_000,
                        state: DownloadState::Succeeded,
                    });
                    proof {
                        assert(first_installed(installed@, k as int, slot));
                    }
                },
                None => match supported_component(catalog, slot) {
                    None => {
                        downloads.push(DownloadItem {
                            id: random_id(),
                            label: owned(slot_label),
                            size_label: owned("Unavailable"),
                            progress: 0,
                            state: DownloadState::Unavailable,
                        });
                    },
                    Some(entry) => {
                        let id = entry.id;
                        let label = component_label(entry.name.as_str(), entry.version.as_str());
                        let cancellation = new_token();
                        effects.push(Effect::Fetch { generation, id, cancellation: share_token(&cancellation) });
                        downloads.push(DownloadItem {
                            id,
                            label,
                            size_label: owned(slot_label),
                            progress: 0,
                            state: DownloadState::Running(cancellation),
                        });
                        proof {
                            assert(fetches(effects@[effects@.len() - 1], generation, id));
                        }
                    },
                },
            }
            proof {
                assert(effects@.take(before.len() as int) =~= before);
                assert forall|m: int| 0 <= m < i + 1 implies row_started(installed@, catalog@, generation,
                    onboarding_slot(m).0, onboarding_slot(m).1, #[trigger] downloads@[m], effects@) by {
                    if m < i {
                        assert(downloads@[m] == rows[m]);
                        lemma_row_started_grows(installed@, catalog@, generation, onboarding_slot(m).0,
                            onboarding_slot(m).1, rows[m], before, effects@);
                    }
                }
            }
            i += 1;
        }
        self.downloads = downloads;
        effects
    }

    /// Handles a message of onboarding.
    pub fn update(&mut self, message: Message) -> (effects: Vec<Effect>)
        ensures
            match message {
                Message::SelectExperience(experience) => effects@.len() == 0
                    && *final(self) == (State {
                        experience: if experience_available_spec(experience) { experience } else { old(self).experience },
                        ..*old(self)
                    }),
                Message::ApplyExperience => effects@.len() == 0 && *final(self) == (State { step: Step::Tutorial(0), ..*old(self) }),
                Message::NextTutorialStep => match old(self).step {
                    Step::Tutorial(index) => if index + 1 < TUTORIAL_LEN {
                        *final(self) == (State { step: Step::Tutorial((index + 1) as usize), ..*old(self) }) && effects@.len() == 0
                    } else {
                        &&& *final(self) == (State {
                            step: Step::Downloads,
                            download_generation: next_generation(old(self).download_generation),
                            downloads: final(self).downloads,
                            catalog_error: None,
                            ..*old(self)
                        })
                        &&& final(self).downloads@.len() == 0
                        &&& effects@ == seq![Effect::RefreshCatalog { generation: final(self).download_generation }]
                    },
                    _ => *final(self) == *old(self) && effects@.len() == 0,
                },
                Message::CatalogRefresh { event, installed, catalog } => match event {
                    Event::Finished { key, outcome } if key == old(self).download_generation => {
                        &&& *final(self) == (State {
                            catalog_refresh: None,
                            downloads: final(self).downloads,
                            catalog_error: final(self).catalog_error,
                            ..*old(self)
                        })
                        &&& !(outcome is Failed) ==> final(self).catalog_error == old(self).catalog_error
                        &&& outcome is Cancelled ==> effects@.len() == 0 && final(self).downloads == old(self).downloads
                        &&& !(outcome is Cancelled) ==> downloads_started(
                            installed@, catalog@, old(self).download_generation, final(self).downloads@, effects@)
                        &&& outcome matches Outcome::Failed(error) ==> final(self).catalog_error matches Some(text)
                            && text@ == error.text@
                    },
                    _ => effects@.len() == 0 && *final(self) == *old(self),
                },
                Message::Download(event) => {
                    &&& effects@.len() == 0
                    &&& *final(self) == (State { downloads: final(self).downloads, ..*old(self) })
                    &&& final(self).downloads@.len() == old(self).downloads@.len()
                    &&& match event {
                        Event::Progress { key, progress } => download_updated(
                            old(self).downloads@, final(self).downloads@, old(self).download_generation, key,
                            |before: DownloadItem, after: DownloadItem| progressed(before, after, progress)),
                        Event::Finished { key, outcome } => download_updated(
                            old(self).downloads@, final(self).downloads@, old(self).download_generation, key,
                            |before: DownloadItem, after: DownloadItem| finished_item(before, after, outcome)),
                    }
                },
                Message::CancelDownloads => {
                    &&& effects@.len() == 0
                    &&& *final(self) == (State {
                        step: Step::Welcome,
                        catalog_refresh: None,
                        download_generation: next_generation(old(self).download_generation),
                        ..*old(self)
                    })
                },
                Message::Finished(_) => effects@.len() == 0 && *final(self) == *old(self),
                Message::Window => effects@ == seq![Effect::Window] && *final(self) == *old(self),
            },
    {
        match message {
            Message::SelectExperience(experience) => {
                if experience_available(experience) {
                    self.experience = experience;
                }
            },
            Message::ApplyExperience => self.step = Step::Tutorial(0),
            Message::NextTutorialStep => {
                if let Step::Tutorial(index) = self.step {
                    if index < TUTORIAL_LEN - 1 {
                        self.step = Step::Tutorial(index + 1);
                    } else {
                        self.step = Step::Downloads;
                        return self.start_setup();
                    }
                }
            },
            Message::CatalogRefresh { event, installed, catalog } => {
                if let Event::Finished { key, outcome } = event {
                    if key != self.download_generation {
                        return Vec::new();
                    }
                    self.catalog_refresh = None;
                    match outcome {
                        Outcome::Succeeded(()) => {},
                        Outcome::Cancelled => return Vec::new(),
                        Outcome::Failed(error) => self.catalog_error = Some(error.text),
                    }
                    return self.start_downloads(&installed, &catalog);
                }
            },
            Message::Download(event) => {
                match event {
                    Event::Progress { key, progress } => {
                        let found = current_download(&self.downloads, self.download_generation, key);
                        proof {
                            if found is None && key.0 == self.download_generation {
                                assert forall|k: int| !first_with_id(self.downloads@, k, key.1) by {
                                    if 0 <= k < self.downloads@.len() {
                                        assert(self.downloads@[k].id != key.1);
                                    }
                                }
                            }
                        }
                        if let Some(k) = found {
                            let ghost before = self.downloads@;
                            assert(first_with_id(before, k as int, key.1));
                            let mut item = self.downloads.remove(k);
                            if let DownloadState::Running(_) = item.state {
                                if let Some(fraction) = progress.fraction_millionths {
                                    item.progress = fraction;
                                }
                                if let Some(total) = progress.total_bytes {
                                    item.size_label = format_bytes(total);
                                }
                            }
                            let ghost changed = item;
                            self.downloads.insert(k, item);
                            proof {
                                assert(self.downloads@ =~= before.update(k as int, changed));
                            }
                        }
                    },
                    Event::Finished { key, outcome } => {
                        let found = current_download(&self.downloads, self.download_generation, key);
                        proof {
                            if found is None && key.0 == self.download_generation {
                                assert forall|k: int| !first_with_id(self.downloads@, k, key.1) by {
                                    if 0 <= k < self.downloads@.len() {
                                        assert(self.downloads@[k].id != key.1);
                                    }
                                }
                            }
                        }
                        if let Some(k) = found {
                            let ghost before = self.downloads@;
                            assert(first_with_id(before, k as int, key.1));
                            let mut item = self.downloads.remove(k);
                            item.state = match outcome {
                                Outcome::Succeeded(_) => {
                                    item.progress = 1_000_000;
                                    DownloadState::Succeeded
                                },
                                Outcome::Cancelled => DownloadState::Cancelled,
                                Outcome::Failed(error) => DownloadState::Failed(error.text),
                            };
                            let ghost changed = item;
                            self.downloads.insert(k, item);
                            proof {
                                assert(self.downloads@ =~= before.update(k as int, changed));
                            }
                        }
                    },
                }
            },
            Message::CancelDownloads => {
                self.cancel_active_operations();
                self.download_generation = bump(self.download_generation);
                self.catalog_refresh = None;
                self.step = Step::Welcome;
            },
            Message::Window => return vec![Effect::Window],
            Message::Finished(_) => {},
        }
        Vec::new()
    }
}

/// A download's row keeps its running state when cancellation is requested,
/// and setup can only continue with one successful row per component.
pub proof fn law_setup_needs_every_component(downloads: Seq<DownloadItem>)
    ensures
        downloads_complete_spec(downloads) ==> downloads.len() == SLOT_COUNT,
        (exists|k: int| 0 <= k < downloads.len() && !(downloads[k].state is Succeeded)) ==> !downloads_complete_spec(downloads),
{
}

} // verus!

//! Storefront account linking for the active profile.
//!
//! A link session is numbered by generation; sign-in prompts of an older
//! session are dropped, which answers them with a cancellation. A session
//! stays active until its terminal result arrives, even after cancellation
//! was requested. `P` is the prompt handle of a session: dropping it cancels
//! the prompt.

use vstd::prelude::*;
use tokio_util::sync::CancellationToken;
use crate::format::{is_white_space, law_trim_keeps_the_middle, owned, push_str, trim_spec, trimmed};
use crate::icons::Icon;
use crate::operation::{bump, cancel_token, next_generation, token_is_cancelled, CoreFailure};

verus! {

/// An account provider of the core.
#[derive(Debug, Clone)]
pub struct Provider {
    pub id: String,
    pub name: String,
}

/// Why an answer to a sign-in prompt was not delivered.
#[derive(Debug, Clone, Copy, PartialEq, Eq, Structural)]
pub enum SubmitRejection {
    AlreadyAnswered,
    SessionClosed,
}

impl SubmitRejection {
    pub open spec fn text(self) -> Seq<char> {
        match self {
            SubmitRejection::AlreadyAnswered => "account-link prompt was already answered"@,
            SubmitRejection::SessionClosed => "account-link session is closed"@,
        }
    }

    /// The message shown for the rejection.
    pub fn message(self) -> (res: &'static str)
        ensures
            res@ == self.text(),
    {
        match self {
            SubmitRejection::AlreadyAnswered => "account-link prompt was already answered",
            SubmitRejection::SessionClosed => "account-link session is closed",
        }
    }
}

/// The sign-in dialog of a link session.
pub struct LoginDialog<P> {
    pub code_draft: String,
    pub url: String,
    pub instructions: String,
    pub prompt: P,
    pub submitting: bool,
    pub error: Option<String>,
}

impl<P> LoginDialog<P> {
    /// A fresh dialog for a prompt.
    pub fn new(url: String, instructions: String, prompt: P) -> (dialog: Self)
        ensures
            dialog.code_draft@.len() == 0,
            dialog.url == url,
            dialog.instructions == instructions,
            dialog.prompt == prompt,
            !dialog.submitting,
            dialog.error is None,
    {
        LoginDialog { code_draft: String::new(), url, instructions, prompt, submitting: false, error: None }
    }

    /// Replaces the typed code.
    pub fn set_code(&mut self, code: String)
        ensures
            *final(self) == (LoginDialog { code_draft: code, ..*old(self) }),
            final(self).code_draft == code,
            final(self).url == old(self).url,
            final(self).prompt == old(self).prompt,
            final(self).submitting == old(self).submitting,
            final(self).error == old(self).error,
    {
        self.code_draft = code;
    }

    /// The answer to send: the typed code without surrounding whitespace.
    pub fn submission(&self) -> (res: String)
        ensures
            res@ == trim_spec(self.code_draft@),
    {
        trimmed(self.code_draft.as_str())
    }

    /// Records whether the answer was delivered.
    pub fn record_submission(&mut self, result: Result<(), SubmitRejection>)
        ensures
            match result {
                Ok(()) => final(self).submitting && final(self).error == old(self).error,
                Err(rejection) => final(self).submitting == old(self).submitting
                    && final(self).error is Some && final(self).error.unwrap()@ == rejection.text(),
            },
            final(self).code_draft == old(self).code_draft,
            final(self).prompt == old(self).prompt,
    {
        match result {
            Ok(()) => self.submitting = true,
            Err(rejection) => self.error = Some(owned(rejection.message())),
        }
    }

    /// The label of the submit button.
    pub fn submit_label(&self) -> (res: &'static str)
        ensures
            res@ == (if self.submitting { "Submitting…"@ } else { "Submit"@ }),
    {
        if self.submitting { "Submitting…" } else { "Submit" }
    }
}

/// Messages of the account-linking workflow.
pub enum Message<P> {
    UnlinkAccount(String),
    BeginLogin(Provider),
    LoginRequested { generation: u64, url: String, instructions: String, prompt: P },
    LoginCodeChanged(String),
    OpenLoginUrl,
    CopyLoginUrl,
    SubmitLogin,
    DismissLogin,
    LinkFinished(Result<(), CoreFailure>),
    ProfileUpdated(Result<(), CoreFailure>),
    Noop,
}

/// Work for the runtime.
pub enum Effect {
    Nothing,
    /// Unlink the provider with this id from the active profile; report with `ProfileUpdated`.
    Unlink(String),
    /// Start linking this provider to the active profile, tagging its prompts
    /// with `generation`; hand the session's token to [`State::attach_link`]
    /// and report the end with `LinkFinished`.
    BeginLink { generation: u64, provider: Provider },
    /// Open this URL in the browser.
    OpenUrl(String),
    /// Put this text on the clipboard.
    CopyToClipboard(String),
    /// Deliver this answer through the dialog's prompt and report the outcome
    /// with [`LoginDialog::record_submission`].
    SubmitAnswer(String),
}

/// Text of the error shown for a finished request: cancellations are not
/// errors to the user.
pub open spec fn presentation_error_spec(result: Result<(), CoreFailure>) -> Option<Seq<char>> {
    match result {
        Ok(()) => None,
        Err(error) => if error.cancelled { None } else { Some(error.text@) },
    }
}

pub open spec fn shown(error: Option<String>) -> Option<Seq<char>> {
    match error {
        Some(text) => Some(text@),
        None => None,
    }
}

/// Error text for a finished request, if it should be shown.
pub fn presentation_error(result: Result<(), CoreFailure>) -> (res: Option<String>)
    ensures
        shown(res) == presentation_error_spec(result),
{
    match result {
        Ok(()) => None,
        Err(error) => if error.cancelled { None } else { Some(error.text) },
    }
}

/// State of account linking.
pub struct State<P> {
    pub link_generation: u64,
    pub link_cancellation: Option<CancellationToken>,
    pub login_dialog: Option<LoginDialog<P>>,
    pub mutation_pending: bool,
    pub last_error: Option<String>,
}

impl<P> State<P> {
    /// No session and no pending request.
    pub fn new() -> (state: Self)
        ensures
            state.link_generation == 0,
            state.link_cancellation is None,
            state.login_dialog is None,
            !state.mutation_pending,
            state.last_error is None,
    {
        State { link_generation: 0, link_cancellation: None, login_dialog: None, mutation_pending: false, last_error: None }
    }

    /// Closes the dialog and requests cancellation of the session without
    /// forgetting it: the session stays active until its result arrives.
    pub fn cancel_active_operation(&mut self)
        ensures
            *final(self) == (State { login_dialog: None, ..*old(self) }),
            final(self).login_dialog is None,
            final(self).link_cancellation == old(self).link_cancellation,
            final(self).link_generation == old(self).link_generation,
            final(self).mutation_pending == old(self).mutation_pending,
            final(self).last_error == old(self).last_error,
    {
        self.login_dialog = None;
        if let Some(cancellation) = &self.link_cancellation {
            cancel_token(cancellation);
        }
    }

    /// Whether a link session or a profile change is running.
    pub fn has_active_operation(&self) -> (res: bool)
        ensures
            res == (self.link_cancellation is Some || self.mutation_pending),
    {
        self.link_cancellation.is_some() || self.mutation_pending
    }

    /// Registers the cancellation token of the session started for
    /// [`Effect::BeginLink`].
    pub fn attach_link(&mut self, cancellation: CancellationToken)
        ensures
            final(self).link_cancellation == Some(cancellation),
            final(self).link_generation == old(self).link_generation,
            final(self).login_dialog == old(self).login_dialog,
            final(self).mutation_pending == old(self).mutation_pending,
            final(self).last_error == old(self).last_error,
    {
        self.link_cancellation = Some(cancellation);
    }

    /// The workflow after a prompt of session `generation` arrived, given
    /// whether the current session's token had been cancelled: the prompt of
    /// the current, not cancelled session opens a fresh dialog; any other
    /// prompt is dropped and nothing changes.
    pub open spec fn prompt_received(
        old: Self,
        generation: u64,
        url: String,
        instructions: String,
        prompt: P,
        cancelled: bool,
        new: Self,
    ) -> bool {
        &&& new == State { login_dialog: new.login_dialog, ..old }
        &&& if generation == old.link_generation && old.link_cancellation is Some && !cancelled {
            new.login_dialog == Some(LoginDialog {
                code_draft: new.login_dialog.unwrap().code_draft,
                url,
                instructions,
                prompt,
                submitting: false,
                error: None,
            }) && new.login_dialog.unwrap().code_draft@.len() == 0
        } else {
            new.login_dialog == old.login_dialog
        }
    }

    /// Takes a prompt of session `generation`, given whether the current
    /// session's token has been cancelled.
    pub fn attach_prompt(&mut self, generation: u64, url: String, instructions: String, prompt: P, cancelled: bool)
        ensures
            Self::prompt_received(*old(self), generation, url, instructions, prompt, cancelled, *final(self)),
    {
        if generation == self.link_generation && self.link_cancellation.is_some() && !cancelled {
            self.login_dialog = Some(LoginDialog::new(url, instructions, prompt));
        }
    }

    /// Shows the prompt of the current, not cancelled session; a prompt of any
    /// other session is dropped, which answers it with a cancellation.
    pub fn receive_prompt(&mut self, generation: u64, url: String, instructions: String, prompt: P)
        ensures
            final(self).login_dialog == old(self).login_dialog || (
                generation == old(self).link_generation && old(self).link_cancellation is Some
                && final(self).login_dialog == Some(LoginDialog {
                    code_draft: final(self).login_dialog.unwrap().code_draft,
                    url, instructions, prompt, submitting: false, error: None,
                })
                && final(self).login_dialog.unwrap().code_draft@.len() == 0),
            !(generation == old(self).link_generation && old(self).link_cancellation is Some)
                ==> final(self).login_dialog == old(self).login_dialog,
            final(self).link_generation == old(self).link_generation,
            final(self).link_cancellation == old(self).link_cancellation,
            final(self).mutation_pending == old(self).mutation_pending,
            final(self).last_error == old(self).last_error,
            exists|cancelled: bool| #[trigger] Self::prompt_received(
                *old(self), generation, url, instructions, prompt, cancelled, *final(self)),
    {
        let cancelled = match &self.link_cancellation {
            Some(cancellation) => token_is_cancelled(cancellation),
            None => false,
        };
        self.attach_prompt(generation, url, instructions, prompt, cancelled);
        assert(Self::prompt_received(*old(self), generation, url, instructions, prompt, cancelled, *self));
    }

    /// Ends the session: the dialog closes and the session is no longer active.
    pub fn finish_link(&mut self, result: Result<(), CoreFailure>)
        ensures
            final(self).login_dialog is None,
            final(self).link_cancellation is None,
            shown(final(self).last_error) == presentation_error_spec(result),
            final(self).link_generation == old(self).link_generation,
            final(self).mutation_pending == old(self).mutation_pending,
    {
        self.login_dialog = None;
        self.link_cancellation = None;
        self.last_error = presentation_error(result);
    }

    /// Ends a profile change.
    pub fn finish_mutation(&mut self, result: Result<(), CoreFailure>)
        ensures
            !final(self).mutation_pending,
            shown(final(self).last_error) == presentation_error_spec(result),
            final(self).link_generation == old(self).link_generation,
            final(self).link_cancellation == old(self).link_cancellation,
            final(self).login_dialog == old(self).login_dialog,
    {
        self.mutation_pending = false;
        self.last_error = presentation_error(result);
    }

    /// What an update does, message by message.
    pub open spec fn update_post(old: Self, message: Message<P>, new: Self, effect: Effect) -> bool {
        match message {
            Message::UnlinkAccount(provider_id) => if !old.mutation_pending && old.link_cancellation is None {
                effect == Effect::Unlink(provider_id) && new == State { mutation_pending: true, ..old }
            } else {
                effect is Nothing && new == old
            },
            Message::BeginLogin(provider) => if old.link_cancellation is None && !old.mutation_pending {
                &&& new == State { link_generation: next_generation(old.link_generation), last_error: None, ..old }
                &&& effect == (Effect::BeginLink { generation: new.link_generation, provider })
            } else {
                effect is Nothing && new == old
            },
            Message::LoginRequested { generation, url, instructions, prompt } => {
                &&& effect is Nothing
                &&& new == State { login_dialog: new.login_dialog, ..old }
                &&& !(generation == old.link_generation && old.link_cancellation is Some)
                    ==> new.login_dialog == old.login_dialog
                &&& new.login_dialog == old.login_dialog || (
                    new.login_dialog == Some(LoginDialog {
                        code_draft: new.login_dialog.unwrap().code_draft,
                        url, instructions, prompt, submitting: false, error: None,
                    })
                    && new.login_dialog.unwrap().code_draft@.len() == 0)
            },
            Message::DismissLogin => effect is Nothing && new == State { login_dialog: None, ..old },
            Message::LoginCodeChanged(code) => {
                &&& effect is Nothing
                &&& new == State {
                    login_dialog: match old.login_dialog {
                        Some(dialog) => Some(LoginDialog { code_draft: code, ..dialog }),
                        None => None,
                    },
                    ..old
                }
            },
            Message::OpenLoginUrl => new == old && match old.login_dialog {
                Some(dialog) => effect matches Effect::OpenUrl(url) && url@ == dialog.url@,
                None => effect is Nothing,
            },
            Message::CopyLoginUrl => new == old && match old.login_dialog {
                Some(dialog) => effect matches Effect::CopyToClipboard(url) && url@ == dialog.url@,
                None => effect is Nothing,
            },
            Message::SubmitLogin => new == old && match old.login_dialog {
                Some(dialog) => effect matches Effect::SubmitAnswer(answer) && answer@ == trim_spec(dialog.code_draft@),
                None => effect is Nothing,
            },
            Message::LinkFinished(result) => {
                &&& effect is Nothing
                &&& new == State { login_dialog: None, link_cancellation: None, last_error: new.last_error, ..old }
                &&& shown(new.last_error) == presentation_error_spec(result)
            },
            Message::ProfileUpdated(result) => {
                &&& effect is Nothing
                &&& new == State { mutation_pending: false, last_error: new.last_error, ..old }
                &&& shown(new.last_error) == presentation_error_spec(result)
            },
            Message::Noop => effect is Nothing && new == old,
        }
    }

    /// Handles a message of the workflow.
    pub fn update(&mut self, message: Message<P>) -> (effect: Effect)
        ensures
            Self::update_post(*old(self), message, *final(self), effect),
    {
        match message {
            Message::UnlinkAccount(provider_id) => {
                if !self.mutation_pending && self.link_cancellation.is_none() {
                    self.mutation_pending = true;
                    return Effect::Unlink(provider_id);
                }
            },
            Message::BeginLogin(provider) => {
                if self.link_cancellation.is_none() && !self.mutation_pending {
                    self.link_generation = bump(self.link_generation);
                    self.last_error = None;
                    return Effect::BeginLink { generation: self.link_generation, provider };
                }
            },
            Message::LoginRequested { generation, url, instructions, prompt } => {
                self.receive_prompt(generation, url, instructions, prompt);
            },
            Message::DismissLogin => self.cancel_active_operation(),
            Message::LoginCodeChanged(code) => {
                if let Some(dialog) = &mut self.login_dialog {
                    dialog.set_code(code);
                }
            },
            Message::OpenLoginUrl => {
                if let Some(dialog) = &self.login_dialog {
                    return Effect::OpenUrl(dialog.url.clone());
                }
            },
            Message::CopyLoginUrl => {
                if let Some(dialog) = &self.login_dialog {
                    return Effect::CopyToClipboard(dialog.url.clone());
                }
            },
            Message::SubmitLogin => {
                if let Some(dialog) = &self.login_dialog {
                    return Effect::SubmitAnswer(dialog.submission());
                }
            },
            Message::LinkFinished(result) => self.finish_link(result),
            Message::ProfileUpdated(result) => self.finish_mutation(result),
            Message::Noop => {},
        }
        Effect::Nothing
    }
}

/// Submitting a sign-in code sends the typed code without the whitespace
/// around it: the answer is one contiguous part of the code with only
/// whitespace before and after it, and it neither starts nor ends with
/// whitespace.
pub proof fn law_submitted_code_is_trimmed<P>(old: State<P>, new: State<P>, effect: Effect)
    requires
        old.login_dialog is Some,
        State::update_post(old, Message::SubmitLogin, new, effect),
    ensures
        effect matches Effect::SubmitAnswer(answer) && {
            let code = old.login_dialog.unwrap().code_draft@;
            &&& answer@.len() > 0 ==> !is_white_space(answer@[0]) && !is_white_space(answer@.last())
            &&& exists|i: int, j: int| #![trigger code.subrange(i, j)]
                0 <= i <= j <= code.len() && answer@ == code.subrange(i, j)
                && (forall|k: int| 0 <= k < i ==> is_white_space(#[trigger] code[k]))
                && (forall|k: int| j <= k < code.len() ==> is_white_space(#[trigger] code[k]))
        },
        new == old,
{
    law_trim_keeps_the_middle(old.login_dialog.unwrap().code_draft@);
}

/// The icon of an account provider.
pub fn provider_icon(provider_id: &str) -> (res: Icon)
    ensures
        res == (if provider_id@ == "steam"@ { Icon::Computer } else { Icon::Controller }),
{
    let steam = owned("steam");
    let id = owned(provider_id);
    if id == steam { Icon::Computer } else { Icon::Controller }
}

/// The title of a linked-account row: "`display name` on `provider`".
pub fn account_title(display_name: &str, provider_name: &str) -> (res: String)
    ensures
        res@ == display_name@ + " on "@ + provider_name@,
{
    let mut title = String::new();
    push_str(&mut title, display_name);
    push_str(&mut title, " on ");
    push_str(&mut title, provider_name);
    title
}

/// The providers offered for linking: those without an account on the
/// profile yet, in the order given.
pub fn linkable_providers(linked: &Vec<String>, providers: Vec<Provider>) -> (res: Vec<Provider>)
    ensures
        res@ == providers@.filter(|p: Provider| !linked@.map_values(|id: String| id@).contains(p.id@)),
{
    let ghost linked_ids = linked@.map_values(|id: String| id@);
    let ghost keep = |p: Provider| !linked_ids.contains(p.id@);
    let mut res: Vec<Provider> = Vec::new();
    let mut i: usize = 0;
    while i < providers.len()
        invariant
            0 <= i <= providers.len(),
            linked_ids == linked@.map_values(|id: String| id@),
            keep == (|p: Provider| !linked_ids.contains(p.id@)),
            res@ == providers@.take(i as int).filter(keep),
        decreases providers.len() - i,
    {
        let provider = &providers[i];
        let mut taken = false;
        let mut j: usize = 0;
        while j < linked.len()
            invariant
                0 <= j <= linked.len(),
                i < providers.len(),
                provider == providers@[i as int],
                linked_ids == linked@.map_values(|id: String| id@),
                taken == linked_ids.take(j as int).contains(provider.id@),
            decreases linked.len() - j,
        {
            let same = linked[j] == provider.id;
            proof {
                assert(linked_ids[j as int] == linked@[j as int]@);
                assert(linked_ids.take(j as int + 1) =~= linked_ids.take(j as int).push(linked_ids[j as int]));
                let prefix = linked_ids.take(j as int);
                let longer = prefix.push(linked_ids[j as int]);
                if same {
                    assert(longer[j as int] == provider.id@);
                } else if taken {
                    let k = choose|k: int| 0 <= k < prefix.len() && prefix[k] == provider.id@;
                    assert(longer[k] == provider.id@);
                } else {
                    assert forall|k: int| 0 <= k < longer.len() implies longer[k] != provider.id@ by {
                        if k < prefix.len() {
                            assert(prefix[k] == longer[k]);
                        }
                    }
                }
            }
            taken = taken || same;
            j += 1;
        }
        proof {
            assert(linked_ids.take(linked.len() as int) =~= linked_ids);
            assert(providers@.take(i as int + 1) =~= providers@.take(i as int).push(providers@[i as int]));
            reveal(Seq::filter);
            assert(providers@.take(i as int + 1).drop_last() =~= providers@.take(i as int));
        }
        if !taken {
            res.push(providers[i].clone_provider());
        }
        proof {
            assert(linked_ids.len() == linked.len());
            assert(linked_ids.take(linked.len() as int) =~= linked_ids);
            assert(taken == linked_ids.contains(providers@[i as int].id@));
            assert(keep(providers@[i as int]) == !taken);
        }
        i += 1;
    }
    proof {
        assert(providers@.take(providers.len() as int) =~= providers@);
    }
    res
}

impl Provider {
    /// A copy of the provider.
    pub fn clone_provider(&self) -> (res: Provider)
        ensures
            res.id@ == self.id@,
            res.name@ == self.name@,
            res == *self,
    {
        Provider { id: self.id.clone(), name: self.name.clone() }
    }
}

} // verus!

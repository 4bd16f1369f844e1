//! Profile management: selecting, creating, renaming and deleting profiles.
//!
//! At most one profile request runs at a time; its result is matched to the
//! kind of request that is running.

use vstd::prelude::*;
use crate::format::{is_white_space, law_trim_keeps_the_middle, owned, trim_spec, trimmed};
use crate::operation::CoreFailure;

verus! {

/// Messages of the profiles workflow.
pub enum Message {
    ToggleProfileSettings,
    ActivateProfile(u128),
    OpenCreate,
    CreateNameChanged(String),
    SubmitCreate,
    DismissCreate,
    ProfileUpdated(Result<(), CoreFailure>),
    NameChanged(String),
    RenameSubmit,
    DeleteProfile(u128),
    ProfileDeleted(Result<(), CoreFailure>),
}

/// What the workflow asks of the workspace.
#[derive(Debug, Clone, Copy, PartialEq, Eq, Structural)]
pub enum Output {
    ToggleSettings,
}

/// Work for the runtime; each reports back with `ProfileUpdated`, except
/// deletion, which reports with `ProfileDeleted`.
pub enum Effect {
    Nothing,
    Select(u128),
    Create(String),
    Rename { id: u128, name: String },
    Delete(u128),
}

/// The new-profile dialog.
pub struct NewProfileDialog {
    pub name: String,
    pub error: Option<String>,
}

/// The kind of the running request.
#[derive(Debug, Clone, Copy, PartialEq, Eq, Structural)]
pub enum RequestKind {
    Select,
    Create,
    Rename,
    Delete,
}

/// The name a new profile gets: the trimmed draft, or "New profile" when
/// nothing but whitespace was typed.
pub open spec fn create_name_spec(draft: Seq<char>) -> Seq<char> {
    if trim_spec(draft).len() == 0 { "New profile"@ } else { trim_spec(draft) }
}

/// The name a new profile gets for the typed draft.
pub fn create_name(draft: &str) -> (res: String)
    ensures
        res@ == create_name_spec(draft@),
{
    let name = trimmed(draft);
    if name.as_str().unicode_len() == 0 { owned("New profile") } else { name }
}

/// A new profile is named after the draft without the whitespace around it:
/// the name is one contiguous part of the draft with only whitespace before
/// and after it, and it neither starts nor ends with whitespace. A draft of
/// nothing but whitespace gives "New profile".
pub proof fn law_created_name_is_the_trimmed_draft(draft: Seq<char>)
    ensures
        (forall|k: int| 0 <= k < draft.len() ==> is_white_space(#[trigger] draft[k]))
            ==> create_name_spec(draft) == "New profile"@,
        !(forall|k: int| 0 <= k < draft.len() ==> is_white_space(#[trigger] draft[k])) ==> {
            let name = create_name_spec(draft);
            &&& name.len() > 0
            &&& !is_white_space(name[0]) && !is_white_space(name.last())
            &&& exists|i: int, j: int| #![trigger draft.subrange(i, j)]
                0 <= i <= j <= draft.len() && name == draft.subrange(i, j)
                && (forall|k: int| 0 <= k < i ==> is_white_space(#[trigger] draft[k]))
                && (forall|k: int| j <= k < draft.len() ==> is_white_space(#[trigger] draft[k]))
        },
{
    law_trim_keeps_the_middle(draft);
}

/// At most one profile request runs at a time: while one runs, asking to
/// activate, create, rename or delete a profile changes nothing and asks
/// for nothing; with none running, such a request starts and asks the core
/// for exactly that change.
pub proof fn law_one_profile_request_at_a_time(old: State, message: Message, new: State, res: (Effect, Option<Output>))
    requires
        message is ActivateProfile || message is SubmitCreate || message is RenameSubmit || message is DeleteProfile,
        State::update_post(old, message, new, res),
    ensures
        old.request_kind is Some ==> new == old && res.0 is Nothing,
        old.request_kind is None ==> match message {
            Message::ActivateProfile(id) => res.0 == Effect::Select(id) && new.request_kind == Some(RequestKind::Select),
            Message::RenameSubmit => (res.0 matches Effect::Rename { id, name }
                && id == old.selected_id && name@ == old.name_draft@)
                && new.request_kind == Some(RequestKind::Rename),
            Message::DeleteProfile(id) => res.0 == Effect::Delete(id) && new.request_kind == Some(RequestKind::Delete),
            _ => old.new_profile is Some ==> (res.0 is Create && new.request_kind == Some(RequestKind::Create)),
        },
{
}

pub open spec fn text_of(error: Option<String>) -> Option<Seq<char>> {
    match error {
        Some(text) => Some(text@),
        None => None,
    }
}

/// The profiles workflow.
pub struct State {
    pub selected_id: u128,
    pub name_draft: String,
    pub new_profile: Option<NewProfileDialog>,
    pub last_error: Option<String>,
    pub request_kind: Option<RequestKind>,
}

impl State {
    /// The workflow for the selected profile.
    pub fn new(selected_id: u128, selected_name: String) -> (state: Self)
        ensures
            state.selected_id == selected_id,
            state.name_draft == selected_name,
            state.new_profile is None,
            state.last_error is None,
            state.request_kind is None,
    {
        State { selected_id, name_draft: selected_name, new_profile: None, last_error: None, request_kind: None }
    }

    /// Follows a change of the selected profile.
    pub fn sync_selected(&mut self, selected_id: u128, selected_name: String)
        ensures
            *final(self) == (State { selected_id, name_draft: selected_name, ..*old(self) }),
            final(self).selected_id == selected_id,
            final(self).name_draft == selected_name,
            final(self).request_kind == old(self).request_kind,
            final(self).new_profile == old(self).new_profile,
            final(self).last_error == old(self).last_error,
    {
        self.selected_id = selected_id;
        self.name_draft = selected_name;
    }

    /// Whether a profile request is running.
    pub fn has_active_operation(&self) -> (res: bool)
        ensures
            res == self.request_kind is Some,
    {
        self.request_kind.is_some()
    }

    /// Whether the dialog's creation request is running.
    pub fn creating_profile(&self) -> (res: bool)
        ensures
            res == (self.request_kind == Some(RequestKind::Create)),
    {
        match self.request_kind {
            Some(RequestKind::Create) => true,
            _ => false,
        }
    }

    /// Closes the new-profile dialog.
    pub fn dismiss_dialog(&mut self)
        ensures
            *final(self) == (State { new_profile: None, ..*old(self) }),
            final(self).new_profile is None,
            final(self).request_kind == old(self).request_kind,
            final(self).last_error == old(self).last_error,
    {
        self.new_profile = None;
    }

    fn begin_request(&mut self, kind: RequestKind)
        ensures
            *final(self) == (State { request_kind: Some(kind), last_error: None, ..*old(self) }),
            final(self).request_kind == Some(kind),
            final(self).last_error is None,
            final(self).new_profile == old(self).new_profile,
            final(self).name_draft == old(self).name_draft,
            final(self).selected_id == old(self).selected_id,
    {
        self.request_kind = Some(kind);
        self.last_error = None;
    }

    /// What an update does, message by message.
    pub open spec fn update_post(old: State, message: Message, new: State, res: (Effect, Option<Output>)) -> bool {
        &&& res.1 == (if message is ToggleProfileSettings { Some(Output::ToggleSettings) } else { None })
        &&& match message {
            Message::ToggleProfileSettings => res.0 is Nothing && new == old,
            Message::OpenCreate => {
                &&& res.0 is Nothing
                &&& if old.request_kind is None && old.new_profile is None {
                    &&& new == State { new_profile: new.new_profile, ..old }
                    &&& new.new_profile matches Some(dialog) && dialog.name@.len() == 0 && dialog.error is None
                } else {
                    new == old
                }
            },
            Message::CreateNameChanged(name) => {
                &&& res.0 is Nothing
                &&& new == State {
                    new_profile: match old.new_profile {
                        Some(dialog) => Some(NewProfileDialog { name, ..dialog }),
                        None => None,
                    },
                    ..old
                }
            },
            Message::DismissCreate => res.0 is Nothing && new == State { new_profile: None, ..old },
            Message::ActivateProfile(id) => if old.request_kind is None {
                res.0 == Effect::Select(id) && new == State { request_kind: Some(RequestKind::Select), last_error: None, ..old }
            } else {
                res.0 is Nothing && new == old
            },
            Message::SubmitCreate => if old.request_kind is None && old.new_profile is Some {
                &&& res.0 matches Effect::Create(name) && name@ == create_name_spec(old.new_profile.unwrap().name@)
                &&& new == State {
                    request_kind: Some(RequestKind::Create),
                    last_error: None,
                    new_profile: Some(NewProfileDialog { error: None, ..old.new_profile.unwrap() }),
                    ..old
                }
            } else {
                res.0 is Nothing && new == old
            },
            Message::ProfileUpdated(result) => {
                &&& res.0 is Nothing
                &&& match old.request_kind {
                    None => new == old,
                    Some(RequestKind::Delete) => new == old,
                    Some(kind) => match result {
                        Ok(()) => new == State {
                            request_kind: None,
                            last_error: None,
                            new_profile: if kind == RequestKind::Create { None } else { old.new_profile },
                            ..old
                        },
                        Err(error) => if kind == RequestKind::Create {
                            new == State {
                                request_kind: None,
                                new_profile: match old.new_profile {
                                    Some(dialog) => Some(NewProfileDialog { error: Some(error.text), ..dialog }),
                                    None => None,
                                },
                                ..old
                            }
                        } else {
                            new == State { request_kind: None, last_error: Some(error.text), ..old }
                        },
                    },
                }
            },
            Message::NameChanged(name) => res.0 is Nothing && new == State { name_draft: name, ..old },
            Message::RenameSubmit => if old.request_kind is None {
                &&& res.0 matches Effect::Rename { id, name } && id == old.selected_id && name@ == old.name_draft@
                &&& new == State { request_kind: Some(RequestKind::Rename), last_error: None, ..old }
            } else {
                res.0 is Nothing && new == old
            },
            Message::DeleteProfile(id) => if old.request_kind is None {
                res.0 == Effect::Delete(id) && new == State { request_kind: Some(RequestKind::Delete), last_error: None, ..old }
            } else {
                res.0 is Nothing && new == old
            },
            Message::ProfileDeleted(result) => {
                &&& res.0 is Nothing
                &&& if old.request_kind == Some(RequestKind::Delete) {
                    new == State {
                        request_kind: None,
                        last_error: match result {
                            Ok(()) => None,
                            Err(error) => Some(error.text),
                        },
                        ..old
                    }
                } else {
                    new == old
                }
            },
        }
    }

    /// Handles a message of the workflow.
    pub fn update(&mut self, message: Message) -> (res: (Effect, Option<Output>))
        ensures
            State::update_post(*old(self), message, *final(self), res),
    {
        match message {
            Message::ToggleProfileSettings => return (Effect::Nothing, Some(Output::ToggleSettings)),
            Message::OpenCreate => {
                if self.request_kind.is_none() && self.new_profile.is_none() {
                    self.new_profile = Some(NewProfileDialog { name: String::new(), error: None });
                }
            },
            Message::CreateNameChanged(name) => {
                if let Some(dialog) = &mut self.new_profile {
                    dialog.name = name;
                }
            },
            Message::DismissCreate => self.dismiss_dialog(),
            Message::ActivateProfile(id) => {
                if self.request_kind.is_none() {
                    self.begin_request(RequestKind::Select);
                    return (Effect::Select(id), None);
                }
            },
            Message::SubmitCreate => {
                if self.request_kind.is_some() {
                    return (Effect::Nothing, None);
                }
                let name = match &mut self.new_profile {
                    None => return (Effect::Nothing, None),
                    Some(dialog) => {
                        dialog.error = None;
                        create_name(dialog.name.as_str())
                    },
                };
                self.begin_request(RequestKind::Create);
                return (Effect::Create(name), None);
            },
            Message::ProfileUpdated(result) => {
                let kind = match self.request_kind {
                    None => return (Effect::Nothing, None),
                    Some(kind) => kind,
                };
                if kind == RequestKind::Delete {
                    return (Effect::Nothing, None);
                }
                self.request_kind = None;
                match result {
                    Ok(()) => {
                        self.last_error = None;
                        if kind == RequestKind::Create {
                            self.new_profile = None;
                        }
                    },
                    Err(error) => {
                        if kind == RequestKind::Create {
                            if let Some(dialog) = &mut self.new_profile {
                                dialog.error = Some(error.text);
                            }
                        } else {
                            self.last_error = Some(error.text);
                        }
                    },
                }
            },
            Message::NameChanged(name) => self.name_draft = name,
            Message::RenameSubmit => {
                if self.request_kind.is_none() {
                    let id = self.selected_id;
                    let name = self.name_draft.clone();
                    self.begin_request(RequestKind::Rename);
                    return (Effect::Rename { id, name }, None);
                }
            },
            Message::DeleteProfile(id) => {
                if self.request_kind.is_none() {
                    self.begin_request(RequestKind::Delete);
                    return (Effect::Delete(id), None);
                }
            },
            Message::ProfileDeleted(result) => {
                if self.request_kind == Some(RequestKind::Delete) {
                    self.request_kind = None;
                    self.last_error = match result {
                        Ok(()) => None,
                        Err(error) => Some(error.text),
                    };
                }
            },
        }
        (Effect::Nothing, None)
    }
}

} // verus!

//! What the agent tells about its sessions, and how it is read out of the
//! result of a call.
//!
//! A document is read as a whole or not at all: a member of the wrong type
//! makes the whole document unreadable. Members of other names are passed
//! over.

use crate::fields::{
    defaulted_text, field, optional_text, read_defaulted_text, read_optional_text,
    read_required_text, required_text, text_view,
};
use crate::json::{as_array, get, is_object, json_view, views_of, JsonView};
use vstd::prelude::*;

verus! {

/// One mode in which a session can run.
#[derive(Debug, Clone)]
pub struct SessionMode {
    pub id: String,
    pub name: Option<String>,
    pub description: Option<String>,
}

/// The content of a [`SessionMode`].
pub struct SessionModeView {
    pub id: Seq<char>,
    pub name: Option<Seq<char>>,
    pub description: Option<Seq<char>>,
}

impl View for SessionMode {
    type V = SessionModeView;

    open spec fn view(&self) -> SessionModeView {
        SessionModeView {
            id: self.id@,
            name: text_view(self.name),
            description: text_view(self.description),
        }
    }
}

impl SessionModeView {
    /// The mode that a document holds: an object with a text `id` and,
    /// optionally, the texts `name` and `description`.
    pub open spec fn of(doc: JsonView) -> Option<SessionModeView> {
        match (
            required_text(doc, "id"@),
            optional_text(doc, "name"@),
            optional_text(doc, "description"@),
        ) {
            (Some(id), Some(name), Some(description)) => Some(
                SessionModeView { id, name, description },
            ),
            _ => None,
        }
    }

    /// The modes that a list of documents holds, if every one holds a mode.
    pub open spec fn of_all(docs: Seq<JsonView>) -> Option<Seq<SessionModeView>> {
        if forall|i: int| 0 <= i < docs.len() ==> SessionModeView::of(#[trigger] docs[i]) is Some {
            Some(Seq::new(docs.len(), |i: int| SessionModeView::of(docs[i]).unwrap()))
        } else {
            None
        }
    }
}

/// The views of a list of modes.
pub open spec fn mode_views(modes: Seq<SessionMode>) -> Seq<SessionModeView> {
    Seq::new(modes.len(), |i: int| modes[i]@)
}

impl SessionMode {
    /// Reads a mode out of a document.
    pub fn from_value(doc: &serde_json::Value) -> (read: Option<SessionMode>)
        ensures
            match read {
                Some(mode) => SessionModeView::of(json_view(*doc)) == Some(mode@),
                None => SessionModeView::of(json_view(*doc)) is None,
            },
    {
        let id = match read_required_text(doc, "id") {
            Some(id) => id,
            None => return None,
        };
        let name = match read_optional_text(doc, "name") {
            Some(name) => name,
            None => return None,
        };
        let description = match read_optional_text(doc, "description") {
            Some(description) => description,
            None => return None,
        };
        Some(SessionMode { id, name, description })
    }
}

/// The modes of a session and the one that is in force.
#[derive(Debug, Clone)]
pub struct SessionModeState {
    pub available_modes: Vec<SessionMode>,
    pub current_mode_id: Option<String>,
}

/// The content of a [`SessionModeState`].
pub struct SessionModeStateView {
    pub available_modes: Seq<SessionModeView>,
    pub current_mode_id: Option<Seq<char>>,
}

impl View for SessionModeState {
    type V = SessionModeStateView;

    open spec fn view(&self) -> SessionModeStateView {
        SessionModeStateView {
            available_modes: mode_views(self.available_modes@),
            current_mode_id: text_view(self.current_mode_id),
        }
    }
}

impl SessionModeStateView {
    /// The modes under `availableModes`: none where the member is absent,
    /// else an array of modes.
    pub open spec fn available(doc: JsonView) -> Option<Seq<SessionModeView>> {
        match doc.member("availableModes"@) {
            None => Some(Seq::empty()),
            Some(JsonView::Array(docs)) => SessionModeView::of_all(docs),
            Some(_) => None,
        }
    }

    /// The mode state that a document holds: an object with, optionally, an
    /// array `availableModes` and a text `currentModeId`.
    pub open spec fn of(doc: JsonView) -> Option<SessionModeStateView> {
        if !(doc is Object) {
            None
        } else {
            match (SessionModeStateView::available(doc), optional_text(doc, "currentModeId"@)) {
                (Some(available_modes), Some(current_mode_id)) => Some(
                    SessionModeStateView { available_modes, current_mode_id },
                ),
                _ => None,
            }
        }
    }
}

fn read_modes(docs: &Vec<serde_json::Value>) -> (read: Option<Vec<SessionMode>>)
    ensures
        match read {
            Some(modes) => SessionModeView::of_all(views_of(docs@)) == Some(mode_views(modes@)),
            None => SessionModeView::of_all(views_of(docs@)) is None,
        },
{
    let mut modes: Vec<SessionMode> = Vec::new();
    let mut i: usize = 0;
    while i < docs.len()
        invariant
            i <= docs.len(),
            modes.len() == i,
            forall|j: int|
                0 <= j < i ==> SessionModeView::of(#[trigger] views_of(docs@)[j]) == Some(
                    modes[j]@,
                ),
        decreases docs.len() - i,
    {
        match SessionMode::from_value(&docs[i]) {
            Some(mode) => modes.push(mode),
            None => {
                assert(SessionModeView::of(views_of(docs@)[i as int]) is None);
                return None;
            },
        }
        i += 1;
    }
    proof {
        let all = SessionModeView::of_all(views_of(docs@));
        assert(all is Some);
        assert(all.unwrap() =~= mode_views(modes@));
    }
    Some(modes)
}

impl SessionModeState {
    /// Reads a mode state out of a document.
    pub fn from_value(doc: &serde_json::Value) -> (read: Option<SessionModeState>)
        ensures
            match read {
                Some(state) => SessionModeStateView::of(json_view(*doc)) == Some(state@),
                None => SessionModeStateView::of(json_view(*doc)) is None,
            },
    {
        if !is_object(doc) {
            return None;
        }
        let available_modes = match get(doc, "availableModes") {
            None => {
                let none: Vec<SessionMode> = Vec::new();
                assert(mode_views(none@) =~= Seq::<SessionModeView>::empty());
                none
            },
            Some(member) => match as_array(member) {
                None => return None,
                Some(docs) => match read_modes(docs) {
                    Some(modes) => modes,
                    None => return None,
                },
            },
        };
        let current_mode_id = match read_optional_text(doc, "currentModeId") {
            Some(current) => current,
            None => return None,
        };
        Some(SessionModeState { available_modes, current_mode_id })
    }
}

/// A session, as the agent describes it when it is made or loaded.
#[derive(Debug, Clone)]
pub struct SessionInfo {
    pub session_id: String,
    pub modes: Option<SessionModeState>,
}

/// The content of a [`SessionInfo`].
pub struct SessionInfoView {
    pub session_id: Seq<char>,
    pub modes: Option<SessionModeStateView>,
}

/// The view of an optional mode state.
pub open spec fn mode_state_view(modes: Option<SessionModeState>) -> Option<SessionModeStateView> {
    match modes {
        Some(m) => Some(m@),
        None => None,
    }
}

impl View for SessionInfo {
    type V = SessionInfoView;

    open spec fn view(&self) -> SessionInfoView {
        SessionInfoView { session_id: self.session_id@, modes: mode_state_view(self.modes) }
    }
}

impl SessionInfoView {
    /// The member `modes` of a descriptor. The outer `None` says that the
    /// member is there and is not a mode state.
    pub open spec fn modes_member(doc: JsonView) -> Option<Option<SessionModeStateView>> {
        match doc.field("modes"@) {
            None => Some(None),
            Some(member) => match SessionModeStateView::of(member) {
                Some(modes) => Some(Some(modes)),
                None => None,
            },
        }
    }

    /// The descriptor that a document holds: an object with a text
    /// `sessionId`, empty where the member is absent, and, optionally, a mode
    /// state `modes`.
    pub open spec fn of(doc: JsonView) -> Option<SessionInfoView> {
        if !(doc is Object) {
            None
        } else {
            match (defaulted_text(doc, "sessionId"@), SessionInfoView::modes_member(doc)) {
                (Some(session_id), Some(modes)) => Some(SessionInfoView { session_id, modes }),
                _ => None,
            }
        }
    }
}

impl SessionInfo {
    /// Reads a session descriptor out of a document.
    pub fn from_value(doc: &serde_json::Value) -> (read: Option<SessionInfo>)
        ensures
            match read {
                Some(info) => SessionInfoView::of(json_view(*doc)) == Some(info@),
                None => SessionInfoView::of(json_view(*doc)) is None,
            },
    {
        if !is_object(doc) {
            return None;
        }
        let session_id = match read_defaulted_text(doc, "sessionId") {
            Some(id) => id,
            None => return None,
        };
        let modes = match field(doc, "modes") {
            None => None,
            Some(member) => match SessionModeState::from_value(member) {
                Some(modes) => Some(modes),
                None => return None,
            },
        };
        Some(SessionInfo { session_id, modes })
    }
}

/// One line of the list of sessions.
#[derive(Debug, Clone)]
pub struct SessionSummary {
    pub session_id: String,
    pub cwd: Option<String>,
    pub title: Option<String>,
    pub updated_at: Option<String>,
}

/// The content of a [`SessionSummary`].
pub struct SessionSummaryView {
    pub session_id: Seq<char>,
    pub cwd: Option<Seq<char>>,
    pub title: Option<Seq<char>>,
    pub updated_at: Option<Seq<char>>,
}

impl View for SessionSummary {
    type V = SessionSummaryView;

    open spec fn view(&self) -> SessionSummaryView {
        SessionSummaryView {
            session_id: self.session_id@,
            cwd: text_view(self.cwd),
            title: text_view(self.title),
            updated_at: text_view(self.updated_at),
        }
    }
}

/// The views of a list of summaries.
pub open spec fn summary_views(summaries: Seq<SessionSummary>) -> Seq<SessionSummaryView> {
    Seq::new(summaries.len(), |i: int| summaries[i]@)
}

impl SessionSummaryView {
    /// The summary that a document holds: an object with a text `sessionId`
    /// and, optionally, the texts `cwd`, `title` and `updatedAt`.
    pub open spec fn of(doc: JsonView) -> Option<SessionSummaryView> {
        match (
            required_text(doc, "sessionId"@),
            optional_text(doc, "cwd"@),
            optional_text(doc, "title"@),
            optional_text(doc, "updatedAt"@),
        ) {
            (Some(session_id), Some(cwd), Some(title), Some(updated_at)) => Some(
                SessionSummaryView { session_id, cwd, title, updated_at },
            ),
            _ => None,
        }
    }

    /// The summaries that a document holds: an array of summaries.
    pub open spec fn of_list(doc: JsonView) -> Option<Seq<SessionSummaryView>> {
        match doc {
            JsonView::Array(docs) => if forall|i: int|
                0 <= i < docs.len() ==> SessionSummaryView::of(#[trigger] docs[i]) is Some {
                Some(Seq::new(docs.len(), |i: int| SessionSummaryView::of(docs[i]).unwrap()))
            } else {
                None
            },
            _ => None,
        }
    }
}

impl SessionSummary {
    /// Reads a summary out of a document.
    pub fn from_value(doc: &serde_json::Value) -> (read: Option<SessionSummary>)
        ensures
            match read {
                Some(summary) => SessionSummaryView::of(json_view(*doc)) == Some(summary@),
                None => SessionSummaryView::of(json_view(*doc)) is None,
            },
    {
        let session_id = match read_required_text(doc, "sessionId") {
            Some(id) => id,
            None => return None,
        };
        let cwd = match read_optional_text(doc, "cwd") {
            Some(cwd) => cwd,
            None => return None,
        };
        let title = match read_optional_text(doc, "title") {
            Some(title) => title,
            None => return None,
        };
        let updated_at = match read_optional_text(doc, "updatedAt") {
            Some(updated_at) => updated_at,
            None => return None,
        };
        Some(SessionSummary { session_id, cwd, title, updated_at })
    }

    /// Reads a list of summaries out of a document.
    pub fn list_from_value(doc: &serde_json::Value) -> (read: Option<Vec<SessionSummary>>)
        ensures
            match read {
                Some(summaries) => SessionSummaryView::of_list(json_view(*doc)) == Some(
                    summary_views(summaries@),
                ),
                None => SessionSummaryView::of_list(json_view(*doc)) is None,
            },
    {
        let docs = match as_array(doc) {
            Some(docs) => docs,
            None => return None,
        };
        let mut summaries: Vec<SessionSummary> = Vec::new();
        let mut i: usize = 0;
        while i < docs.len()
            invariant
                i <= docs.len(),
                summaries.len() == i,
                json_view(*doc) == JsonView::Array(views_of(docs@)),
                forall|j: int|
                    0 <= j < i ==> SessionSummaryView::of(#[trigger] views_of(docs@)[j]) == Some(
                        summaries[j]@,
                    ),
            decreases docs.len() - i,
        {
            match SessionSummary::from_value(&docs[i]) {
                Some(summary) => summaries.push(summary),
                None => {
                    assert(SessionSummaryView::of(views_of(docs@)[i as int]) is None);
                    return None;
                },
            }
            i += 1;
        }
        proof {
            let all = SessionSummaryView::of_list(json_view(*doc));
            assert(all is Some);
            assert(all.unwrap() =~= summary_views(summaries@));
        }
        Some(summaries)
    }
}

} // verus!

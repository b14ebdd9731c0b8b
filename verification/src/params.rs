//! The parameters of the calls that this side makes, and the JSON objects
//! that carry them.

use crate::json::{
    array, entries_of, json_view, object, object_of, string, unsigned, views_of, JsonNumber,
    JsonView,
};
use vstd::prelude::*;
use vstd::string::StringExecFns;

verus! {

/// The parameters of `initialize`.
#[derive(Debug)]
pub struct InitializeParams {
    pub protocol_version: u32,
    pub client_capabilities: serde_json::Value,
}

impl InitializeParams {
    /// The object with the members `protocolVersion` and
    /// `clientCapabilities`.
    pub open spec fn document(&self) -> JsonView {
        JsonView::Object(
            object_of(
                seq![
                    (
                        "protocolVersion"@,
                        JsonView::Number(JsonNumber::Integer(self.protocol_version as int)),
                    ),
                    ("clientCapabilities"@, json_view(self.client_capabilities)),
                ],
            ),
        )
    }

    /// The parameters as a JSON object.
    pub fn to_value(&self) -> (value: serde_json::Value)
        ensures
            json_view(value) == self.document(),
    {
        let mut entries: Vec<(String, serde_json::Value)> = Vec::new();
        entries.push((String::from_str("protocolVersion"), unsigned(self.protocol_version as u64)));
        entries.push(
            (String::from_str("clientCapabilities"), self.client_capabilities.clone()),
        );
        proof {
            reveal_strlit("protocolVersion");
            reveal_strlit("clientCapabilities");
            assert("protocolVersion"@.len() != "clientCapabilities"@.len());
            assert(entries_of(entries@) =~= seq![
                (
                    "protocolVersion"@,
                    JsonView::Number(JsonNumber::Integer(self.protocol_version as int)),
                ),
                ("clientCapabilities"@, json_view(self.client_capabilities)),
            ]);
        }
        object(entries)
    }
}

/// Copies a list of documents.
fn copy_documents(items: &Vec<serde_json::Value>) -> (copies: Vec<serde_json::Value>)
    ensures
        views_of(copies@) == views_of(items@),
{
    let mut copies: Vec<serde_json::Value> = Vec::new();
    let mut i: usize = 0;
    while i < items.len()
        invariant
            i <= items.len(),
            copies.len() == i,
            forall|j: int| 0 <= j < i ==> json_view(copies[j]) == json_view(items[j]),
        decreases items.len() - i,
    {
        copies.push(items[i].clone());
        i += 1;
    }
    assert(views_of(copies@) =~= views_of(items@));
    copies
}

/// An entry that holds a text.
fn text_entry(key: &str, text: &str) -> (entry: (String, serde_json::Value))
    ensures
        entry.0@ == key@,
        json_view(entry.1) == JsonView::String(text@),
{
    (String::from_str(key), string(text))
}

/// The parameters of `session/new`.
#[derive(Debug)]
pub struct NewSessionParams {
    pub cwd: String,
    pub mcp_servers: Vec<serde_json::Value>,
}

impl NewSessionParams {
    /// The object with the members `cwd` and `mcpServers`.
    pub open spec fn document(&self) -> JsonView {
        JsonView::Object(
            object_of(
                seq![
                    ("cwd"@, JsonView::String(self.cwd@)),
                    ("mcpServers"@, JsonView::Array(views_of(self.mcp_servers@))),
                ],
            ),
        )
    }

    /// The parameters as a JSON object.
    pub fn to_value(&self) -> (value: serde_json::Value)
        ensures
            json_view(value) == self.document(),
    {
        let mut entries: Vec<(String, serde_json::Value)> = Vec::new();
        entries.push(text_entry("cwd", self.cwd.as_str()));
        entries.push((String::from_str("mcpServers"), array(copy_documents(&self.mcp_servers))));
        proof {
            reveal_strlit("cwd");
            reveal_strlit("mcpServers");
            assert("cwd"@.len() != "mcpServers"@.len());
            assert(entries_of(entries@) =~= seq![
                ("cwd"@, JsonView::String(self.cwd@)),
                ("mcpServers"@, JsonView::Array(views_of(self.mcp_servers@))),
            ]);
        }
        object(entries)
    }
}

/// The parameters of `session/load`.
#[derive(Debug)]
pub struct LoadSessionParams {
    pub session_id: String,
    pub cwd: String,
    pub mcp_servers: Vec<serde_json::Value>,
}

impl LoadSessionParams {
    /// The object with the members `sessionId`, `cwd` and `mcpServers`.
    pub open spec fn document(&self) -> JsonView {
        JsonView::Object(
            object_of(
                seq![
                    ("sessionId"@, JsonView::String(self.session_id@)),
                    ("cwd"@, JsonView::String(self.cwd@)),
                    ("mcpServers"@, JsonView::Array(views_of(self.mcp_servers@))),
                ],
            ),
        )
    }

    /// The parameters as a JSON object.
    pub fn to_value(&self) -> (value: serde_json::Value)
        ensures
            json_view(value) == self.document(),
    {
        let mut entries: Vec<(String, serde_json::Value)> = Vec::new();
        entries.push(text_entry("sessionId", self.session_id.as_str()));
        entries.push(text_entry("cwd", self.cwd.as_str()));
        entries.push((String::from_str("mcpServers"), array(copy_documents(&self.mcp_servers))));
        proof {
            reveal_strlit("sessionId");
            reveal_strlit("cwd");
            reveal_strlit("mcpServers");
            assert("sessionId"@.len() != "cwd"@.len());
            assert("sessionId"@.len() != "mcpServers"@.len());
            assert("cwd"@.len() != "mcpServers"@.len());
            assert(entries_of(entries@) =~= seq![
                ("sessionId"@, JsonView::String(self.session_id@)),
                ("cwd"@, JsonView::String(self.cwd@)),
                ("mcpServers"@, JsonView::Array(views_of(self.mcp_servers@))),
            ]);
        }
        object(entries)
    }
}

/// One block of a prompt.
#[derive(Debug)]
pub struct PromptContent {
    /// What the block is; `text` for plain text. On the wire the member is
    /// called `type`.
    pub kind: String,
    pub text: String,
}

impl PromptContent {
    /// The object with the members `type` and `text`.
    pub open spec fn document(&self) -> JsonView {
        JsonView::Object(
            object_of(
                seq![
                    ("type"@, JsonView::String(self.kind@)),
                    ("text"@, JsonView::String(self.text@)),
                ],
            ),
        )
    }

    /// The block as a JSON object.
    pub fn to_value(&self) -> (value: serde_json::Value)
        ensures
            json_view(value) == self.document(),
    {
        let mut entries: Vec<(String, serde_json::Value)> = Vec::new();
        entries.push(text_entry("type", self.kind.as_str()));
        entries.push(text_entry("text", self.text.as_str()));
        proof {
            reveal_strlit("type");
            reveal_strlit("text");
            assert("type"@[1] != "text"@[1]);
            assert(entries_of(entries@) =~= seq![
                ("type"@, JsonView::String(self.kind@)),
                ("text"@, JsonView::String(self.text@)),
            ]);
        }
        object(entries)
    }
}

/// The documents of the blocks of a prompt, in order.
pub open spec fn prompt_documents(prompt: Seq<PromptContent>) -> Seq<JsonView> {
    Seq::new(prompt.len(), |i: int| prompt[i].document())
}

/// The parameters of `session/prompt`.
#[derive(Debug)]
pub struct PromptParams {
    pub session_id: String,
    pub prompt: Vec<PromptContent>,
}

impl PromptParams {
    /// The object with the members `sessionId` and `prompt`.
    pub open spec fn document(&self) -> JsonView {
        JsonView::Object(
            object_of(
                seq![
                    ("sessionId"@, JsonView::String(self.session_id@)),
                    ("prompt"@, JsonView::Array(prompt_documents(self.prompt@))),
                ],
            ),
        )
    }

    /// The parameters as a JSON object.
    pub fn to_value(&self) -> (value: serde_json::Value)
        ensures
            json_view(value) == self.document(),
    {
        let mut blocks: Vec<serde_json::Value> = Vec::new();
        let mut i: usize = 0;
        while i < self.prompt.len()
            invariant
                i <= self.prompt.len(),
                blocks.len() == i,
                forall|j: int| 0 <= j < i ==> json_view(blocks[j]) == self.prompt[j].document(),
            decreases self.prompt.len() - i,
        {
            blocks.push(self.prompt[i].to_value());
            i += 1;
        }
        assert(views_of(blocks@) =~= prompt_documents(self.prompt@));
        let mut entries: Vec<(String, serde_json::Value)> = Vec::new();
        entries.push(text_entry("sessionId", self.session_id.as_str()));
        entries.push((String::from_str("prompt"), array(blocks)));
        proof {
            reveal_strlit("sessionId");
            reveal_strlit("prompt");
            assert("sessionId"@.len() != "prompt"@.len());
            assert(entries_of(entries@) =~= seq![
                ("sessionId"@, JsonView::String(self.session_id@)),
                ("prompt"@, JsonView::Array(prompt_documents(self.prompt@))),
            ]);
        }
        object(entries)
    }
}

/// The parameters of `session/set_mode`.
#[derive(Debug)]
pub struct SetSessionModeParams {
    pub session_id: String,
    pub mode_id: String,
}

impl SetSessionModeParams {
    /// The object with the members `sessionId` and `modeId`.
    pub open spec fn document(&self) -> JsonView {
        JsonView::Object(
            object_of(
                seq![
                    ("sessionId"@, JsonView::String(self.session_id@)),
                    ("modeId"@, JsonView::String(self.mode_id@)),
                ],
            ),
        )
    }

    /// The parameters as a JSON object.
    pub fn to_value(&self) -> (value: serde_json::Value)
        ensures
            json_view(value) == self.document(),
    {
        let mut entries: Vec<(String, serde_json::Value)> = Vec::new();
        entries.push(text_entry("sessionId", self.session_id.as_str()));
        entries.push(text_entry("modeId", self.mode_id.as_str()));
        proof {
            reveal_strlit("sessionId");
            reveal_strlit("modeId");
            assert("sessionId"@.len() != "modeId"@.len());
            assert(entries_of(entries@) =~= seq![
                ("sessionId"@, JsonView::String(self.session_id@)),
                ("modeId"@, JsonView::String(self.mode_id@)),
            ]);
        }
        object(entries)
    }
}

/// The parameters of `session/list`.
#[derive(Debug)]
pub struct ListSessionsParams {
    pub cwd: String,
}

impl ListSessionsParams {
    /// The object with the member `cwd`.
    pub open spec fn document(&self) -> JsonView {
        JsonView::Object(object_of(seq![("cwd"@, JsonView::String(self.cwd@))]))
    }

    /// The parameters as a JSON object.
    pub fn to_value(&self) -> (value: serde_json::Value)
        ensures
            json_view(value) == self.document(),
    {
        let mut entries: Vec<(String, serde_json::Value)> = Vec::new();
        entries.push(text_entry("cwd", self.cwd.as_str()));
        assert(entries_of(entries@) =~= seq![("cwd"@, JsonView::String(self.cwd@))]);
        object(entries)
    }
}

/// The parameters of `session/cancel`.
#[derive(Debug)]
pub struct CancelParams {
    pub session_id: String,
}

impl CancelParams {
    /// The object with the member `sessionId`.
    pub open spec fn document(&self) -> JsonView {
        JsonView::Object(object_of(seq![("sessionId"@, JsonView::String(self.session_id@))]))
    }

    /// The parameters as a JSON object.
    pub fn to_value(&self) -> (value: serde_json::Value)
        ensures
            json_view(value) == self.document(),
    {
        let mut entries: Vec<(String, serde_json::Value)> = Vec::new();
        entries.push(text_entry("sessionId", self.session_id.as_str()));
        assert(entries_of(entries@) =~= seq![("sessionId"@, JsonView::String(self.session_id@))]);
        object(entries)
    }
}

} // verus!

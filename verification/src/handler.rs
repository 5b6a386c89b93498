//! The protocol handler: the server-side state machine over the connection
//! lifecycle. Each handler is a plain function from the current state and the
//! request's payload to the next state and the response; the surrounding
//! transport delivers payloads and carries responses back.

use crate::mapper::{range_slice, string_range_index, TextRange};
use crate::store::DocumentStore;
use vstd::prelude::*;

verus! {

/// Where the connection stands in the protocol lifecycle.
#[derive(Clone, Copy, Debug, PartialEq, Eq, Structural)]
pub enum Stage {
    /// No initialize request has been handled yet.
    Uninitialized,
    /// Capabilities were declared; the client has not confirmed yet.
    InitializedPending,
    /// The client confirmed; document and code-action traffic is expected.
    Ready,
    /// A shutdown request was acknowledged.
    ShuttingDown,
}

/// The capability surface declared in answer to an initialize request.
#[derive(Clone, Copy, Debug, PartialEq, Eq, Structural)]
pub struct Capabilities {
    /// Whole-document synchronization: every change notification carries the
    /// document's entire new text, never an incremental diff.
    pub full_document_sync: bool,
    /// The server answers code-action requests.
    pub code_action_provider: bool,
}

/// A proposed replacement of a range of the document with new text.
#[derive(Debug, Clone)]
pub struct TextEdit {
    pub range: TextRange,
    pub new_text: String,
}

/// A set of proposed edits against one document, keyed by its URI.
#[derive(Debug, Clone)]
pub struct WorkspaceEdit {
    pub uri: String,
    pub edits: Vec<TextEdit>,
}

/// A code action: a human-readable title bundled with a proposed edit.
#[derive(Debug, Clone)]
pub struct CodeAction {
    pub title: String,
    pub edit: WorkspaceEdit,
}

/// The text tracked after a document is opened with text `opened`: the open
/// overwrites whatever was tracked before.
pub open spec fn text_after_open(current: Seq<char>, opened: Seq<char>) -> Seq<char> {
    opened
}

/// The text tracked after a change notification whose content changes are
/// `changes`: the first full-text entry wins and later entries are ignored;
/// an empty list changes nothing.
pub open spec fn text_after_change(current: Seq<char>, changes: Seq<Seq<char>>) -> Seq<char> {
    if changes.len() > 0 {
        changes[0]
    } else {
        current
    }
}

/// The fixed title every proposed code action carries.
pub open spec fn action_title() -> Seq<char> {
    "ask silos"@
}

/// The message logged once the client reports itself initialized.
pub open spec fn initialized_message() -> Seq<char> {
    "server initialized!"@
}

/// The server: the lifecycle stage and the tracked document.
pub struct Server {
    pub stage: Stage,
    pub store: DocumentStore,
}

impl Server {
    /// A fresh server: uninitialized, tracking the empty document.
    pub fn new() -> (server: Server)
        ensures
            server.stage is Uninitialized,
            server.store@ == Seq::<char>::empty(),
    {
        Server { stage: Stage::Uninitialized, store: DocumentStore::new() }
    }

    /// Handle an initialize request: declare full-document synchronization
    /// and code-action support, leaving the document untouched.
    pub fn initialize(&mut self) -> (caps: Capabilities)
        ensures
            caps.full_document_sync,
            caps.code_action_provider,
            final(self).stage is InitializedPending,
            final(self).store@ == old(self).store@,
    {
        self.stage = Stage::InitializedPending;
        Capabilities { full_document_sync: true, code_action_provider: true }
    }

    /// Handle the initialized notification: become ready and hand back the
    /// informational message for the transport to log.
    pub fn initialized(&mut self) -> (message: String)
        ensures
            message@ == initialized_message(),
            final(self).stage is Ready,
            final(self).store@ == old(self).store@,
    {
        self.stage = Stage::Ready;
        "server initialized!".to_owned()
    }

    /// Handle a document-open notification: track the opened document's full
    /// text, overwriting whatever was tracked before.
    pub fn did_open(&mut self, text: String)
        ensures
            final(self).store@ == text_after_open(old(self).store@, text@),
            final(self).store@ == text@,
            final(self).stage == old(self).stage,
    {
        self.store.replace(text);
    }

    /// Handle a document-change notification: overwrite the tracked text
    /// with the first content change's full text; later entries, if any, are
    /// ignored, and an empty list leaves the document as it was.
    pub fn did_change(&mut self, content_changes: Vec<String>)
        ensures
            final(self).store@ == text_after_change(
                old(self).store@,
                content_changes.deep_view(),
            ),
            final(self).stage == old(self).stage,
    {
        if content_changes.len() > 0 {
            let first: String = content_changes[0].clone();
            self.store.replace(first);
        }
    }

    /// Handle a code-action request: extract the slice the range denotes
    /// from the tracked text and propose, as the sole suggestion, replacing
    /// that exact range with its own extracted text.
    pub fn code_action(&self, uri: String, range: TextRange) -> (action: CodeAction)
        ensures
            action.title@ == action_title(),
            action.edit.uri@ == uri@,
            action.edit.edits@.len() == 1,
            action.edit.edits@[0].range == range,
            action.edit.edits@[0].new_text@ == range_slice(self.store@, range),
    {
        let body = self.store.snapshot();
        let new_text = string_range_index(body.as_str(), range).to_owned();
        let text_edit = TextEdit { range, new_text };
        let mut edits: Vec<TextEdit> = Vec::new();
        edits.push(text_edit);
        let edit = WorkspaceEdit { uri, edits };
        CodeAction { title: "ask silos".to_owned(), edit }
    }

    /// Handle a shutdown request: acknowledge; there is no state to flush.
    pub fn shutdown(&mut self)
        ensures
            final(self).stage is ShuttingDown,
            final(self).store@ == old(self).store@,
    {
        self.stage = Stage::ShuttingDown;
    }
}

/// Opening a document with text `a` and then applying a change whose sole
/// content entry is `b` leaves exactly `b` tracked, whatever was tracked
/// before: a code action over any range then extracts from `b`, never from
/// `a`.
pub proof fn lemma_change_overwrites_open(
    initial: Seq<char>,
    a: Seq<char>,
    b: Seq<char>,
    r: TextRange,
)
    ensures
        text_after_change(text_after_open(initial, a), seq![b]) == b,
        range_slice(text_after_change(text_after_open(initial, a), seq![b]), r) == range_slice(
            b,
            r,
        ),
{
}

} // verus!

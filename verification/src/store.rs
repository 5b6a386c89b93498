//! The document store: the single currently tracked document's full text,
//! behind an exclusively owned slot whose only mutation is wholesale
//! replacement.

use vstd::prelude::*;

verus! {

/// Holds the full text of the single currently open document. There is no
/// per-URI keying: whichever document was opened or changed most recently is
/// the tracked one, and every mutation overwrites the text unconditionally.
pub struct DocumentStore {
    text: String,
}

impl View for DocumentStore {
    type V = Seq<char>;

    closed spec fn view(&self) -> Seq<char> {
        self.text@
    }
}

impl DocumentStore {
    /// A fresh store tracks the empty document.
    pub fn new() -> (store: DocumentStore)
        ensures
            store@ == Seq::<char>::empty(),
    {
        DocumentStore { text: String::new() }
    }

    /// Overwrite the tracked document wholesale with `new_text`.
    pub fn replace(&mut self, new_text: String)
        ensures
            final(self)@ == new_text@,
    {
        self.text = new_text;
    }

    /// The current tracked text, as an owned copy.
    pub fn snapshot(&self) -> (text: String)
        ensures
            text@ == self@,
    {
        self.text.clone()
    }
}

} // verus!

//! The curated facts: the agent's long-term memory file, held in memory for
//! the life of the process and never changed after it is loaded.

use vstd::prelude::*;
use std::sync::Arc;

verus! {

/// The curated facts store. Reading the file is the caller's part; the store
/// is built from what the read gave.
pub struct CuratedFactsStore {
    content: Option<Arc<String>>,
    source_path: String,
}

impl CuratedFactsStore {
    /// The loaded text, `None` when nothing was loaded.
    pub closed spec fn spec_content(&self) -> Option<Seq<char>> {
        match self.content {
            Some(text) => Some((*text)@),
            None => None,
        }
    }

    /// The path the content was read from.
    pub closed spec fn spec_source_path(&self) -> Seq<char> {
        self.source_path@
    }

    /// Builds the store from the outcome of reading `path`: the text when
    /// the read succeeded, `None` when the file is missing or unreadable,
    /// which counts as an empty memory.
    pub fn from_read(path: &str, content: Option<String>) -> (r: Self)
        ensures
            r.spec_content() == match content {
                Some(text) => Some(text@),
                None => None::<Seq<char>>,
            },
            r.spec_source_path() == path@,
    {
        let content = match content {
            Some(text) => Some(Arc::new(text)),
            None => None,
        };
        CuratedFactsStore { content, source_path: path.to_string() }
    }

    /// The loaded text, shared, or `None` if nothing was loaded.
    pub fn get(&self) -> (r: Option<Arc<String>>)
        ensures
            match r {
                Some(text) => self.spec_content() == Some((*text)@),
                None => self.spec_content() is None,
            },
    {
        match &self.content {
            Some(text) => Some(Arc::clone(text)),
            None => None,
        }
    }

    /// Whether the file was loaded.
    pub fn is_loaded(&self) -> (r: bool)
        ensures
            r == self.spec_content() is Some,
    {
        self.content.is_some()
    }

    /// The path the store was loaded from.
    pub fn source_path(&self) -> (r: &str)
        ensures
            r@ == self.spec_source_path(),
    {
        self.source_path.as_str()
    }
}

} // verus!

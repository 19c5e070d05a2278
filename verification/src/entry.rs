//! The log entry, the one entity of the progress log.

use vstd::prelude::*;

verus! {

/// What a log entry is, as mathematics: an identifier and two texts.
pub struct EntryView {
    pub id: nat,
    pub text: Seq<char>,
    pub created_at: Seq<char>,
}

/// One line of the progress log.
///
/// The storage assigns `id` when the entry is added. `text` and `created_at` are kept as
/// the caller gave them: the text free-form, the time of creation as opaque text.
#[derive(Debug, PartialEq, Eq)]
pub struct LogEntry {
    pub id: u32,
    pub text: String,
    pub created_at: String,
}

impl View for LogEntry {
    type V = EntryView;

    open spec fn view(&self) -> EntryView {
        EntryView { id: self.id as nat, text: self.text@, created_at: self.created_at@ }
    }
}

impl Clone for LogEntry {
    fn clone(&self) -> (copy: LogEntry)
        ensures
            copy == *self,
    {
        LogEntry { id: self.id, text: self.text.clone(), created_at: self.created_at.clone() }
    }
}

impl LogEntry {
    /// An entry with the given identifier and texts.
    pub fn new(id: u32, text: String, created_at: String) -> (entry: LogEntry)
        ensures
            entry.id == id,
            entry.text == text,
            entry.created_at == created_at,
    {
        LogEntry { id, text, created_at }
    }
}

/// The views of a sequence of entries, in the same order.
pub open spec fn entry_views(entries: Seq<LogEntry>) -> Seq<EntryView> {
    entries.map_values(|e: LogEntry| e@)
}

} // verus!

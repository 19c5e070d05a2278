//! The table of log entries as the repository counts on it to behave.
//!
//! The storage engine is outside the library, and nothing is proved of it. This module
//! states what is expected of it. [`TableState`] is the table as mathematics, with the
//! effect of each operation. [`Table`] is a table in memory that is proved to behave so: it
//! keeps the entries in a `Vec`, in the order in which they were added, and hands out
//! identifiers that grow and are never given twice. It is the measure to which the tests
//! hold the engine.

use vstd::prelude::*;

use crate::entry::{entry_views, EntryView, LogEntry};

verus! {

/// The table as mathematics: whether it exists, the rows it holds in the order of their
/// insertion, and the greatest identifier it has ever handed out.
pub struct TableState {
    pub created: bool,
    pub rows: Seq<EntryView>,
    pub last_id: nat,
}

impl TableState {
    /// The state before the table exists.
    pub open spec fn absent() -> TableState {
        TableState { created: false, rows: Seq::empty(), last_id: 0 }
    }

    /// A table that does not exist holds nothing and has handed out nothing; every row's
    /// identifier is one that was handed out; the identifiers grow strictly along the rows.
    pub open spec fn wf(self) -> bool {
        &&& !self.created ==> self.rows.len() == 0 && self.last_id == 0
        &&& forall|i: int|
            0 <= i < self.rows.len() ==> 1 <= (#[trigger] self.rows[i]).id <= self.last_id
        &&& forall|i: int, j: int|
            0 <= i < j < self.rows.len() ==> (#[trigger] self.rows[i]).id < (
            #[trigger] self.rows[j]).id
    }

    /// Whether some row carries the identifier.
    pub open spec fn has_id(self, id: nat) -> bool {
        exists|i: int| 0 <= i < self.rows.len() && (#[trigger] self.rows[i]).id == id
    }

    /// The table after it was made sure to exist: created if it was absent, and otherwise
    /// as it was.
    pub open spec fn ensure_schema(self) -> TableState {
        TableState { created: true, rows: self.rows, last_id: self.last_id }
    }

    /// The identifier that the next added entry gets.
    pub open spec fn next_id(self) -> nat {
        self.last_id + 1
    }

    /// The table after one entry was added: the new row comes last and carries the next
    /// identifier and the two texts as given.
    pub open spec fn add(self, text: Seq<char>, created_at: Seq<char>) -> TableState {
        TableState {
            created: self.created,
            rows: self.rows.push(EntryView { id: self.next_id(), text, created_at }),
            last_id: self.next_id(),
        }
    }

    /// The table after the rows with the identifier were deleted: the others stay, in
    /// their order, and no identifier is given back.
    pub open spec fn delete(self, id: nat) -> TableState {
        TableState {
            created: self.created,
            rows: self.rows.filter(|e: EntryView| e.id != id),
            last_id: self.last_id,
        }
    }
}

/// Why an operation on the in-memory table did nothing.
#[derive(Debug, Clone, Copy, PartialEq, Eq, Structural)]
pub enum TableError {
    /// The table does not exist yet.
    NoTable,
    /// Every identifier that fits an entry has been handed out.
    Full,
}

/// The table of log entries, in memory.
pub struct Table {
    created: bool,
    rows: Vec<LogEntry>,
    last_id: u32,
}

impl View for Table {
    type V = TableState;

    closed spec fn view(&self) -> TableState {
        TableState {
            created: self.created,
            rows: entry_views(self.rows@),
            last_id: self.last_id as nat,
        }
    }
}

/// In a sequence whose identifiers differ pairwise, deleting the identifier of the row at
/// `k` removes that row and keeps the others in place.
pub proof fn lemma_delete_present(rows: Seq<EntryView>, k: int)
    requires
        0 <= k < rows.len(),
        forall|i: int, j: int|
            0 <= i < j < rows.len() ==> (#[trigger] rows[i]).id != (#[trigger] rows[j]).id,
    ensures
        rows.filter(|e: EntryView| e.id != rows[k].id) == rows.remove(k),
    decreases rows.len(),
{
    let id = rows[k].id;
    let keep = |e: EntryView| e.id != id;
    let front = rows.drop_last();
    let last = rows.last();
    assert(rows == front.push(last));
    Seq::lemma_filter_push(front, last, keep);
    if k == rows.len() - 1 {
        lemma_delete_absent(front, id);
        assert(rows.remove(k) == front);
    } else {
        assert(front[k] == rows[k]);
        lemma_delete_present(front, k);
        assert(keep(last));
        assert(rows.remove(k) == front.remove(k).push(last));
    }
}

/// Deleting an identifier that no row carries leaves the sequence as it is.
pub proof fn lemma_delete_absent(rows: Seq<EntryView>, id: nat)
    requires
        forall|i: int| 0 <= i < rows.len() ==> (#[trigger] rows[i]).id != id,
    ensures
        rows.filter(|e: EntryView| e.id != id) == rows,
    decreases rows.len(),
{
    let keep = |e: EntryView| e.id != id;
    if rows.len() == 0 {
        reveal(Seq::filter);
    } else {
        let front = rows.drop_last();
        let last = rows.last();
        assert(rows == front.push(last));
        Seq::lemma_filter_push(front, last, keep);
        lemma_delete_absent(front, id);
        assert(keep(last));
    }
}

impl Table {
    /// What every table satisfies, whatever was done to it.
    #[verifier::type_invariant]
    spec fn well_formed(self) -> bool {
        self@.wf()
    }

    /// A handle to a store in which the table does not exist yet.
    pub fn new() -> (table: Table)
        ensures
            table@ == TableState::absent(),
            table@.wf(),
    {
        let table = Table { created: false, rows: Vec::new(), last_id: 0 };
        assert(table@.rows == Seq::<EntryView>::empty());
        table
    }

    /// An existing table that holds nothing after identifiers up to `last_id` were handed
    /// out: the state after that many entries were added and every one of them deleted.
    pub fn emptied(last_id: u32) -> (table: Table)
        ensures
            table@ == (TableState { created: true, rows: Seq::empty(), last_id: last_id as nat }),
            table@.wf(),
    {
        let table = Table { created: true, rows: Vec::new(), last_id };
        assert(table@.rows == Seq::<EntryView>::empty());
        table
    }

    /// Creates the table if it does not exist, and leaves an existing table with all
    /// that it holds.
    pub fn ensure_schema(&mut self)
        ensures
            final(self)@ == old(self)@.ensure_schema(),
            final(self)@.wf(),
    {
        proof {
            use_type_invariant(&*self);
        }
        self.created = true;
    }

    /// All entries, in the order in which they were added, which is the order of their
    /// identifiers.
    ///
    /// Fails with [`TableError::NoTable`] exactly when the table does not exist; an empty
    /// table gives an empty `Vec`.
    pub fn list(&self) -> (listed: Result<Vec<LogEntry>, TableError>)
        ensures
            self@.wf(),
            match listed {
                Ok(entries) => self@.created && entry_views(entries@) == self@.rows,
                Err(e) => !self@.created && e == TableError::NoTable,
            },
    {
        proof {
            use_type_invariant(self);
        }
        if !self.created {
            return Err(TableError::NoTable);
        }
        let mut entries: Vec<LogEntry> = Vec::new();
        let mut i: usize = 0;
        while i < self.rows.len()
            invariant
                0 <= i <= self.rows.len(),
                entries@ == self.rows@.take(i as int),
            decreases self.rows.len() - i,
        {
            entries.push(self.rows[i].clone());
            proof {
                assert(self.rows@.take(i + 1) == self.rows@.take(i as int).push(self.rows@[i as int]));
            }
            i += 1;
        }
        proof {
            assert(self.rows@.take(i as int) == self.rows@);
        }
        Ok(entries)
    }

    /// Adds one entry with the two texts as given; the table assigns the identifier.
    ///
    /// Fails with [`TableError::NoTable`] exactly when the table does not exist, and with
    /// [`TableError::Full`] exactly when it exists and the greatest identifier has been
    /// handed out. A failed call changes nothing.
    pub fn add(&mut self, text: &str, created_at: &str) -> (added: Result<(), TableError>)
        ensures
            final(self)@.wf(),
            match added {
                Ok(()) => {
                    &&& old(self)@.created
                    &&& old(self)@.last_id < u32::MAX
                    &&& final(self)@ == old(self)@.add(text@, created_at@)
                },
                Err(TableError::NoTable) => !old(self)@.created && final(self)@ == old(self)@,
                Err(TableError::Full) => {
                    &&& old(self)@.created
                    &&& old(self)@.last_id == u32::MAX
                    &&& final(self)@ == old(self)@
                },
            },
    {
        proof {
            use_type_invariant(&*self);
        }
        if !self.created {
            return Err(TableError::NoTable);
        }
        if self.last_id == u32::MAX {
            return Err(TableError::Full);
        }
        let id: u32 = self.last_id + 1;
        let mut rows: Vec<LogEntry> = Vec::new();
        std::mem::swap(&mut rows, &mut self.rows);
        rows.push(LogEntry::new(id, text.to_owned(), created_at.to_owned()));
        proof {
            assert(entry_views(rows@) == old(self)@.add(text@, created_at@).rows);
        }
        self.last_id = id;
        self.rows = rows;
        Ok(())
    }

    /// Deletes the entry with the identifier, if there is one.
    ///
    /// Fails with [`TableError::NoTable`] exactly when the table does not exist. An
    /// identifier that no entry carries is no error: the table stays as it is.
    pub fn delete(&mut self, id: u32) -> (deleted: Result<(), TableError>)
        ensures
            final(self)@ == old(self)@.delete(id as nat),
            final(self)@.wf(),
            match deleted {
                Ok(()) => old(self)@.created,
                Err(e) => !old(self)@.created && e == TableError::NoTable,
            },
    {
        proof {
            use_type_invariant(&*self);
        }
        if !self.created {
            proof {
                lemma_delete_absent(self@.rows, id as nat);
            }
            return Err(TableError::NoTable);
        }
        let mut rows: Vec<LogEntry> = Vec::new();
        std::mem::swap(&mut rows, &mut self.rows);
        let mut i: usize = 0;
        while i < rows.len()
            invariant
                0 <= i <= rows.len(),
                entry_views(rows@) == old(self)@.rows,
                old(self)@.wf(),
                forall|j: int| 0 <= j < i ==> (#[trigger] rows@[j]).id != id,
            ensures
                i <= rows.len(),
                entry_views(rows@) == old(self)@.rows,
                i < rows.len() ==> rows@[i as int].id == id,
                i == rows.len() ==> forall|j: int|
                    0 <= j < rows.len() ==> (#[trigger] rows@[j]).id != id,
            decreases rows.len() - i,
        {
            if rows[i].id == id {
                break;
            }
            i += 1;
        }
        if i < rows.len() {
            proof {
                lemma_delete_present(old(self)@.rows, i as int);
            }
            rows.remove(i);
            proof {
                assert(entry_views(rows@) == old(self)@.rows.remove(i as int));
            }
        } else {
            proof {
                assert forall|j: int| 0 <= j < old(self)@.rows.len() implies (
                #[trigger] old(self)@.rows[j]).id != id by {
                    assert(rows@[j].id != id);
                }
                lemma_delete_absent(old(self)@.rows, id as nat);
            }
        }
        self.rows = rows;
        Ok(())
    }
}

} // verus!

//! What holds of the table whatever is done to it, in whatever order.
//!
//! Each statement here is about [`TableState`] and its operations, the same ones in which
//! the contracts of [`crate::table::Table`] are written.

use vstd::prelude::*;

use crate::entry::EntryView;
use crate::table::{lemma_delete_absent, lemma_delete_present, TableState};

verus! {

/// One operation on the table.
pub enum Op {
    EnsureSchema,
    Add { text: Seq<char>, created_at: Seq<char> },
    Delete { id: nat },
}

impl TableState {
    /// The table after one operation. Adding to a table that does not exist fails and
    /// changes nothing.
    pub open spec fn apply(self, op: Op) -> TableState {
        match op {
            Op::EnsureSchema => self.ensure_schema(),
            Op::Add { text, created_at } => if self.created {
                self.add(text, created_at)
            } else {
                self
            },
            Op::Delete { id } => self.delete(id),
        }
    }

    /// The table after a sequence of operations, the first one first.
    pub open spec fn run(self, ops: Seq<Op>) -> TableState
        decreases ops.len(),
    {
        if ops.len() == 0 {
            self
        } else {
            self.run(ops.drop_last()).apply(ops.last())
        }
    }

    /// The table after entries with the given pairs of text and creation time were added,
    /// the first pair first.
    pub open spec fn add_all(self, items: Seq<(Seq<char>, Seq<char>)>) -> TableState
        decreases items.len(),
    {
        if items.len() == 0 {
            self
        } else {
            self.add_all(items.drop_last()).add(items.last().0, items.last().1)
        }
    }
}

/// The row that the `i`-th of the pairs becomes when the pairs are added to a table whose
/// greatest identifier so far is `last_id`.
pub open spec fn row_of(last_id: nat, items: Seq<(Seq<char>, Seq<char>)>, i: int) -> EntryView {
    EntryView { id: (last_id + 1 + i) as nat, text: items[i].0, created_at: items[i].1 }
}

/// Every operation leaves the table well formed: the identifiers of its rows still
/// differ, still grow along the rows, and none exceeds the greatest one handed out.
pub proof fn apply_keeps_wf(t: TableState, op: Op)
    requires
        t.wf(),
    ensures
        t.apply(op).wf(),
        t.apply(op).last_id >= t.last_id,
{
    match op {
        Op::EnsureSchema => {},
        Op::Add { text, created_at } => {},
        Op::Delete { id } => {
            if t.has_id(id) {
                let k = choose|k: int| 0 <= k < t.rows.len() && (#[trigger] t.rows[k]).id == id;
                lemma_delete_present(t.rows, k);
            } else {
                lemma_delete_absent(t.rows, id);
            }
        },
    }
}

/// Every sequence of operations leaves the table well formed, and the greatest
/// identifier handed out never goes down.
pub proof fn run_keeps_wf(t: TableState, ops: Seq<Op>)
    requires
        t.wf(),
    ensures
        t.run(ops).wf(),
        t.run(ops).last_id >= t.last_id,
        t.created ==> t.run(ops).created,
    decreases ops.len(),
{
    if ops.len() > 0 {
        run_keeps_wf(t, ops.drop_last());
        apply_keeps_wf(t.run(ops.drop_last()), ops.last());
    }
}

/// After any number of entries were added to an existing table, the listing is the
/// earlier listing followed by exactly those entries, in the order of the calls, with
/// consecutive identifiers above every earlier one and with the texts as given.
pub proof fn adds_are_listed_in_order(t: TableState, items: Seq<(Seq<char>, Seq<char>)>)
    requires
        t.wf(),
        t.created,
    ensures
        t.add_all(items).wf(),
        t.add_all(items).created,
        t.add_all(items).last_id == t.last_id + items.len(),
        t.add_all(items).rows == t.rows + Seq::new(
            items.len(),
            |i: int| row_of(t.last_id, items, i),
        ),
    decreases items.len(),
{
    let added = Seq::new(items.len(), |i: int| row_of(t.last_id, items, i));
    if items.len() == 0 {
        assert(t.rows + added == t.rows);
    } else {
        let front = items.drop_last();
        adds_are_listed_in_order(t, front);
        let added_front = Seq::new(front.len(), |i: int| row_of(t.last_id, front, i));
        assert(t.rows + added == (t.rows + added_front).push(
            row_of(t.last_id, items, items.len() - 1),
        ));
    }
}

/// Running a sequence of operations is running its first `k` and then the rest.
pub proof fn run_splits(t: TableState, ops: Seq<Op>, k: int)
    requires
        0 <= k <= ops.len(),
    ensures
        t.run(ops) == t.run(ops.take(k)).run(ops.skip(k)),
    decreases ops.len(),
{
    if k == ops.len() {
        assert(ops.take(k) == ops);
    } else {
        let front = ops.drop_last();
        run_splits(t, front, k);
        assert(front.take(k) == ops.take(k));
        assert(front.skip(k) == ops.skip(k).drop_last());
    }
}

/// The listing is in the strict order of the identifiers, whatever was done to the table.
pub proof fn listing_is_in_ascending_order(t: TableState, ops: Seq<Op>, i: int, j: int)
    requires
        t.wf(),
        0 <= i < j < t.run(ops).rows.len(),
    ensures
        t.run(ops).rows[i].id < t.run(ops).rows[j].id,
{
    run_keeps_wf(t, ops);
}

/// No identifier is handed out twice: an identifier that a row carried at some moment is
/// below the next identifier at every later moment, whether the row is still there or was
/// deleted in between, and no row carries the next identifier.
pub proof fn identifiers_are_never_reused(t: TableState, ops: Seq<Op>, k: int, i: int)
    requires
        t.wf(),
        0 <= k <= ops.len(),
        0 <= i < t.run(ops.take(k)).rows.len(),
    ensures
        t.run(ops.take(k)).rows[i].id < t.run(ops).next_id(),
        !t.run(ops).has_id(t.run(ops).next_id()),
{
    let then = t.run(ops.take(k));
    run_keeps_wf(t, ops.take(k));
    run_splits(t, ops, k);
    run_keeps_wf(then, ops.skip(k));
}

/// Two entries added at different times carry different identifiers, the later one the
/// greater, whatever was done in between.
pub proof fn later_entry_has_greater_identifier(
    t: TableState,
    text: Seq<char>,
    created_at: Seq<char>,
    between: Seq<Op>,
)
    requires
        t.wf(),
        t.created,
    ensures
        t.next_id() < t.add(text, created_at).run(between).next_id(),
{
    apply_keeps_wf(t, Op::Add { text, created_at });
    run_keeps_wf(t.add(text, created_at), between);
}

/// Deleting an identifier that no row carries leaves the table as it is.
pub proof fn delete_absent_changes_nothing(t: TableState, id: nat)
    requires
        !t.has_id(id),
    ensures
        t.delete(id) == t,
{
    lemma_delete_absent(t.rows, id);
}

/// Deleting the identifier of a row removes that row and no other: the rows before it
/// and after it stay, in their order and unchanged.
pub proof fn delete_removes_exactly_that_entry(t: TableState, k: int)
    requires
        t.wf(),
        0 <= k < t.rows.len(),
    ensures
        t.delete(t.rows[k].id).rows == t.rows.remove(k),
        t.delete(t.rows[k].id).created == t.created,
        t.delete(t.rows[k].id).last_id == t.last_id,
        !t.delete(t.rows[k].id).has_id(t.rows[k].id),
{
    lemma_delete_present(t.rows, k);
}

/// Making sure twice that the table exists does what making sure once does, and neither
/// loses a row or an identifier.
pub proof fn ensure_schema_is_idempotent(t: TableState)
    ensures
        t.ensure_schema().ensure_schema() == t.ensure_schema(),
        t.ensure_schema().created,
        t.ensure_schema().rows == t.rows,
        t.ensure_schema().last_id == t.last_id,
        t.created ==> t.ensure_schema() == t,
{
}

/// An added entry is listed with the two texts exactly as they were given, after the
/// rows that were there, which stay as they were.
pub proof fn added_entry_round_trips(t: TableState, text: Seq<char>, created_at: Seq<char>)
    ensures
        t.add(text, created_at).rows.len() == t.rows.len() + 1,
        t.add(text, created_at).rows.last().text == text,
        t.add(text, created_at).rows.last().created_at == created_at,
        t.add(text, created_at).rows.last().id == t.next_id(),
        t.add(text, created_at).rows.drop_last() == t.rows,
{
}

} // verus!

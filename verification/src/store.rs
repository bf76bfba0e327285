//! The table of recorded messages: one row for each message identifier.
//!
//! [`Table`] is the table as mathematics and [`MessageStore`] keeps one in
//! memory. A durable store lives with the caller, who reports what it did in
//! the same terms: a [`Lookup`], or a `Result` with a [`StorageError`].

use vstd::prelude::*;

verus! {

/// The mathematical content of a [`StoredMessage`].
pub struct RowView {
    pub message_id: Seq<char>,
    pub user_id: Seq<char>,
    pub content: Seq<char>,
}

/// One recorded message: who wrote it and what it said when it was created.
#[derive(Clone, Debug, PartialEq, Eq)]
pub struct StoredMessage {
    /// The message's identifier, as text. The table's key.
    pub message_id: String,
    /// The author's identifier, as text.
    pub user_id: String,
    /// The text of the message.
    pub content: String,
}

impl View for StoredMessage {
    type V = RowView;

    open spec fn view(&self) -> RowView {
        RowView { message_id: self.message_id@, user_id: self.user_id@, content: self.content@ }
    }
}

/// The table: from a message identifier to the author and the text recorded
/// under it.
pub type Table = Map<Seq<char>, (Seq<char>, Seq<char>)>;

/// Why a write or a read of the table failed.
#[derive(Clone, Copy, Debug, PartialEq, Eq, Structural)]
pub enum StorageError {
    /// A row with that message identifier is there already.
    DuplicateKey,
    /// The storage engine could not do its work.
    Unavailable,
}

/// The mathematical content of a [`Lookup`].
pub enum LookupView {
    Found { user_id: Seq<char>, content: Seq<char> },
    NotFound,
    Failed,
}

/// What a point query by message identifier came back with.
#[derive(Clone, Debug, PartialEq, Eq)]
pub enum Lookup {
    /// The row that is recorded under the identifier.
    Found { user_id: String, content: String },
    /// No row is recorded under the identifier.
    NotFound,
    /// The storage engine could not answer.
    Failed,
}

impl View for Lookup {
    type V = LookupView;

    open spec fn view(&self) -> LookupView {
        match *self {
            Lookup::Found { user_id, content } => LookupView::Found {
                user_id: user_id@,
                content: content@,
            },
            Lookup::NotFound => LookupView::NotFound,
            Lookup::Failed => LookupView::Failed,
        }
    }
}

/// The table after an attempt to record `row`: a row is never replaced, so
/// the attempt changes nothing where the identifier is taken.
pub open spec fn table_record(table: Table, row: RowView) -> Table {
    if table.dom().contains(row.message_id) {
        table
    } else {
        table.insert(row.message_id, (row.user_id, row.content))
    }
}

/// What a query for `message_id` finds in the table.
pub open spec fn table_lookup(table: Table, message_id: Seq<char>) -> LookupView {
    if table.dom().contains(message_id) {
        LookupView::Found { user_id: table[message_id].0, content: table[message_id].1 }
    } else {
        LookupView::NotFound
    }
}

/// Recording adds at most one row and touches no other: what was recorded
/// under an identifier stays there, unchanged.
pub proof fn recorded_rows_stay(table: Table, row: RowView, message_id: Seq<char>)
    requires
        table.dom().contains(message_id),
    ensures
        table_lookup(table_record(table, row), message_id) == table_lookup(table, message_id),
{
}

/// A message table kept in memory.
pub struct MessageStore {
    rows: Vec<StoredMessage>,
}

/// Whether the row at `index` is the one recorded under `message_id`.
spec fn keyed_at(rows: Seq<StoredMessage>, index: int, message_id: Seq<char>) -> bool {
    0 <= index < rows.len() && rows[index].message_id@ == message_id
}

impl View for MessageStore {
    type V = Table;

    closed spec fn view(&self) -> Table {
        Map::new(
            |message_id: Seq<char>| exists|i: int| keyed_at(self.rows@, i, message_id),
            |message_id: Seq<char>|
                {
                    let i = choose|i: int| keyed_at(self.rows@, i, message_id);
                    (self.rows@[i].user_id@, self.rows@[i].content@)
                },
        )
    }
}

impl MessageStore {
    /// The table's invariant: no two rows are recorded under one message
    /// identifier.
    pub closed spec fn wf(&self) -> bool {
        forall|i: int, j: int|
            0 <= i < j < self.rows@.len() ==> self.rows@[i].message_id@
                != self.rows@[j].message_id@
    }

    /// A table without rows.
    pub fn new() -> (store: MessageStore)
        ensures
            store.wf(),
            store@ == Map::<Seq<char>, (Seq<char>, Seq<char>)>::empty(),
    {
        let store = MessageStore { rows: Vec::new() };
        assert(store@ =~= Map::<Seq<char>, (Seq<char>, Seq<char>)>::empty()) by {
            assert(forall|message_id: Seq<char>, i: int| !keyed_at(store.rows@, i, message_id));
        }
        store
    }

    /// Records `row`, unless a row with its message identifier is there
    /// already: then nothing changes and the attempt fails.
    pub fn record(&mut self, row: StoredMessage) -> (done: Result<(), StorageError>)
        requires
            old(self).wf(),
        ensures
            final(self).wf(),
            final(self)@ == table_record(old(self)@, row@),
            old(self)@.dom().contains(row@.message_id) ==> done == Err::<(), StorageError>(
                StorageError::DuplicateKey,
            ),
            !old(self)@.dom().contains(row@.message_id) ==> done is Ok,
    {
        let mut at: usize = 0;
        while at < self.rows.len()
            invariant
                at <= self.rows@.len(),
                self.wf(),
                self.rows@ == old(self).rows@,
                forall|i: int| 0 <= i < at ==> !keyed_at(self.rows@, i, row.message_id@),
            decreases self.rows@.len() - at,
        {
            if self.rows[at].message_id == row.message_id {
                assert(keyed_at(self.rows@, at as int, row.message_id@));
                return Err(StorageError::DuplicateKey);
            }
            at += 1;
        }
        let ghost added = row@;
        let ghost before = self.rows@;
        self.rows.push(row);
        proof {
            let after = self.rows@;
            let grown = old(self)@.insert(added.message_id, (added.user_id, added.content));
            assert(keyed_at(after, before.len() as int, added.message_id));
            assert forall|i: int, j: int| 0 <= i < j < after.len() implies after[i].message_id@
                != after[j].message_id@ by {
                if j == before.len() {
                    assert(!keyed_at(before, i, added.message_id));
                }
            }
            assert forall|message_id: Seq<char>| #[trigger]
                self@.dom().contains(message_id) <==> grown.dom().contains(message_id) by {
                if self@.dom().contains(message_id) && message_id != added.message_id {
                    let i = choose|i: int| keyed_at(after, i, message_id);
                    assert(keyed_at(before, i, message_id));
                }
                if old(self)@.dom().contains(message_id) {
                    let i = choose|i: int| keyed_at(before, i, message_id);
                    assert(keyed_at(after, i, message_id));
                }
            }
            assert forall|message_id: Seq<char>| #[trigger]
                self@.dom().contains(message_id) implies self@[message_id]
                == grown[message_id] by {
                let i = choose|i: int| keyed_at(after, i, message_id);
                if message_id == added.message_id {
                    assert(!keyed_at(before, i, added.message_id));
                } else {
                    let j = choose|j: int| keyed_at(before, j, message_id);
                    assert(keyed_at(before, i, message_id));
                    assert(keyed_at(after, j, message_id));
                }
            }
            assert(self@ =~= grown);
        }
        Ok(())
    }

    /// Looks up the row recorded under `message_id`.
    pub fn lookup(&self, message_id: &str) -> (found: Lookup)
        requires
            self.wf(),
        ensures
            found@ == table_lookup(self@, message_id@),
    {
        let key = String::from_str(message_id);
        let mut at: usize = 0;
        while at < self.rows.len()
            invariant
                at <= self.rows@.len(),
                self.wf(),
                key@ == message_id@,
                forall|i: int| 0 <= i < at ==> !keyed_at(self.rows@, i, message_id@),
            decreases self.rows@.len() - at,
        {
            if self.rows[at].message_id == key {
                proof {
                    assert(keyed_at(self.rows@, at as int, message_id@));
                    let i = choose|i: int| keyed_at(self.rows@, i, message_id@);
                    assert(i == at);
                }
                return Lookup::Found {
                    user_id: self.rows[at].user_id.clone(),
                    content: self.rows[at].content.clone(),
                };
            }
            at += 1;
        }
        assert(forall|i: int| !keyed_at(self.rows@, i, message_id@));
        Lookup::NotFound
    }
}

} // verus!

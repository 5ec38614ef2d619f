use vstd::prelude::*;

use crate::message::{record_of, records_of, Message};

verus! {

/// How many messages the listing route returns at most.
pub const RECENT_LIMIT: usize = 10;

/// Why the store refused an insertion.
pub enum StoreError {
    /// Every identifier that a `u32` can hold has already been handed out.
    IdsExhausted,
}

impl StoreError {
    /// A human-readable description of the failure; never empty.
    pub fn describe(&self) -> (r: String)
        ensures
            r@.len() > 0,
    {
        match self {
            StoreError::IdsExhausted => {
                let r = "message identifiers are exhausted".to_string();
                proof {
                    reveal_strlit("message identifiers are exhausted");
                }
                r
            },
        }
    }
}

/// Identifiers strictly increase along the table.
pub open spec fn ids_ascending(rows: Seq<(u32, Seq<char>)>) -> bool {
    forall|i: int, j: int| 0 <= i < j < rows.len() ==> rows[i].0 < rows[j].0
}

/// The identifier the next inserted row receives: one past the last row's, or 1.
pub open spec fn next_id(rows: Seq<(u32, Seq<char>)>) -> int {
    if rows.len() == 0 {
        1
    } else {
        rows.last().0 + 1
    }
}

/// Whether another row still gets an identifier that fits in a `u32`.
pub open spec fn can_insert(rows: Seq<(u32, Seq<char>)>) -> bool {
    next_id(rows) <= u32::MAX
}

/// The table after appending a row with the given text.
pub open spec fn inserted(rows: Seq<(u32, Seq<char>)>, content: Seq<char>) -> Seq<(u32, Seq<char>)> {
    rows.push((next_id(rows) as u32, content))
}

/// The table after inserting each text of `contents` in turn.
pub open spec fn apply_inserts(rows: Seq<(u32, Seq<char>)>, contents: Seq<Seq<char>>) -> Seq<
    (u32, Seq<char>),
>
    decreases contents.len(),
{
    if contents.len() == 0 {
        rows
    } else {
        inserted(apply_inserts(rows, contents.drop_last()), contents.last())
    }
}

/// The newest `limit` rows (fewer if the table is smaller), newest first.
pub open spec fn recent(rows: Seq<(u32, Seq<char>)>, limit: nat) -> Seq<(u32, Seq<char>)> {
    let k = if rows.len() < limit {
        rows.len()
    } else {
        limit
    };
    Seq::new(k, |i: int| rows[rows.len() - 1 - i])
}

/// Listing a table whose identifiers ascend yields at most `limit` rows, the
/// newest first, with strictly descending identifiers.
pub proof fn lemma_recent_descending(rows: Seq<(u32, Seq<char>)>, limit: nat)
    requires
        ids_ascending(rows),
    ensures
        recent(rows, limit).len() == if rows.len() < limit {
            rows.len()
        } else {
            limit
        },
        forall|i: int, j: int|
            0 <= i < j < recent(rows, limit).len() ==> recent(rows, limit)[i].0 > recent(
                rows,
                limit,
            )[j].0,
{
}

/// Inserting texts one after another into an empty table numbers them
/// 1, 2, 3, ... in the order they were submitted.
pub proof fn lemma_numbering(contents: Seq<Seq<char>>)
    requires
        contents.len() <= u32::MAX,
    ensures
        apply_inserts(Seq::empty(), contents) == Seq::new(
            contents.len(),
            |i: int| ((i + 1) as u32, contents[i]),
        ),
    decreases contents.len(),
{
    if contents.len() > 0 {
        let init = contents.drop_last();
        lemma_numbering(init);
        assert(apply_inserts(Seq::empty(), contents) =~= Seq::new(
            contents.len(),
            |i: int| ((i + 1) as u32, contents[i]),
        ));
    }
}

/// For any sequence of N insertions into an empty table: every insertion
/// succeeds, identifiers strictly increase in submission order, and listing
/// the recent messages returns exactly min(N, 10) of them, the newest first,
/// with strictly descending identifiers.
pub proof fn law_listing_after_inserts(contents: Seq<Seq<char>>)
    requires
        contents.len() <= u32::MAX,
    ensures
        forall|k: int|
            0 <= k < contents.len() ==> can_insert(
                #[trigger] apply_inserts(Seq::empty(), contents.take(k)),
            ),
        ({
            let rows = apply_inserts(Seq::empty(), contents);
            let listed = recent(rows, RECENT_LIMIT as nat);
            &&& forall|i: int, j: int| 0 <= i < j < rows.len() ==> rows[i].0 < rows[j].0
            &&& listed.len() == if contents.len() < RECENT_LIMIT {
                contents.len()
            } else {
                RECENT_LIMIT as nat
            }
            &&& forall|i: int, j: int| 0 <= i < j < listed.len() ==> listed[i].0 > listed[j].0
            &&& forall|i: int| 0 <= i < listed.len() ==> listed[i] == rows[rows.len() - 1 - i]
        }),
{
    lemma_numbering(contents);
    let rows = apply_inserts(Seq::empty(), contents);
    lemma_recent_descending(rows, RECENT_LIMIT as nat);
    assert forall|k: int| 0 <= k < contents.len() implies can_insert(
        #[trigger] apply_inserts(Seq::empty(), contents.take(k)),
    ) by {
        lemma_numbering(contents.take(k));
    }
}

/// After an insertion succeeds, the listing starts with the new message, whose
/// identifier no earlier message has.
pub proof fn law_insert_then_list(rows: Seq<(u32, Seq<char>)>, content: Seq<char>)
    requires
        ids_ascending(rows),
        can_insert(rows),
    ensures
        ids_ascending(inserted(rows, content)),
        recent(inserted(rows, content), RECENT_LIMIT as nat)[0] == (next_id(rows) as u32, content),
        forall|i: int| 0 <= i < rows.len() ==> rows[i].0 != next_id(rows),
{
    let after = inserted(rows, content);
    assert(after[after.len() - 1] == (next_id(rows) as u32, content));
}

/// An in-memory table of messages keyed by an auto-assigned identifier.
pub struct MessageStore {
    rows: Vec<Message>,
}

impl View for MessageStore {
    type V = Seq<(u32, Seq<char>)>;

    closed spec fn view(&self) -> Seq<(u32, Seq<char>)> {
        records_of(self.rows@)
    }
}

impl MessageStore {
    /// The table's invariant: identifiers start at 1 or later and strictly increase.
    pub open spec fn wf(&self) -> bool {
        &&& ids_ascending(self@)
        &&& self@.len() > 0 ==> self@[0].0 >= 1
    }

    /// An empty table.
    pub fn new() -> (r: MessageStore)
        ensures
            r.wf(),
            r@ == Seq::<(u32, Seq<char>)>::empty(),
    {
        let r = MessageStore { rows: Vec::new() };
        proof {
            assert(r@ =~= Seq::<(u32, Seq<char>)>::empty());
        }
        r
    }

    /// The number of stored messages.
    pub fn len(&self) -> (r: usize)
        ensures
            r == self@.len(),
    {
        self.rows.len()
    }

    /// Appends a message with the next identifier and returns that identifier,
    /// or leaves the table as it was when no identifier is left.
    pub fn insert(&mut self, content: String) -> (r: Result<u32, StoreError>)
        requires
            old(self).wf(),
        ensures
            final(self).wf(),
            r is Ok <==> can_insert(old(self)@),
            match r {
                Ok(id) => {
                    &&& id == next_id(old(self)@)
                    &&& forall|i: int| 0 <= i < old(self)@.len() ==> old(self)@[i].0 < id
                    &&& final(self)@ == inserted(old(self)@, content@)
                },
                Err(e) => e is IdsExhausted && final(self)@ == old(self)@,
            },
    {
        let n = self.rows.len();
        let id: u32 = if n == 0 {
            1
        } else {
            let last = self.rows[n - 1].id;
            if last == u32::MAX {
                return Err(StoreError::IdsExhausted);
            }
            last + 1
        };
        let ghost before = self@;
        let m = Message::new(id, content);
        self.rows.push(m);
        proof {
            assert(self@ =~= inserted(before, content@));
        }
        Ok(id)
    }

    /// The newest `limit` messages (all of them if there are fewer), newest first.
    pub fn list_recent(&self, limit: usize) -> (r: Vec<Message>)
        ensures
            records_of(r@) == recent(self@, limit as nat),
    {
        let n = self.rows.len();
        let mut out: Vec<Message> = Vec::new();
        let mut i: usize = 0;
        while i < limit && i < n
            invariant
                n == self.rows.len(),
                i <= n,
                i <= limit,
                records_of(out@) =~= Seq::new(i as nat, |k: int| self@[n - 1 - k]),
            decreases n - i,
        {
            let m = self.rows[n - 1 - i].duplicate();
            let ghost prev = out@;
            out.push(m);
            proof {
                assert(records_of(out@) =~= records_of(prev).push(record_of(m)));
            }
            i = i + 1;
        }
        proof {
            assert(recent(self@, limit as nat) =~= Seq::new(i as nat, |k: int| self@[n - 1 - k]));
        }
        out
    }
}

} // verus!

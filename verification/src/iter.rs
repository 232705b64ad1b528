//! A walk over the entries of a database, in the engine's order.
//!
//! The engine's cursor is reached only by the caller. The walk says which
//! call to make on the cursor, is told the answer, and so on until it has an
//! entry to give or the entries have run out: a key and a value are copied
//! out before the cursor moves on, since the engine's buffers last no longer.

use vstd::prelude::*;
use vstd::slice::slice_to_vec;
use crate::db::Db;

verus! {

/// A call on the engine's cursor.
#[derive(Debug, Clone, Copy, PartialEq, Eq, Structural)]
pub enum CursorCall {
    /// Move to the first entry.
    SeekToFirst,
    /// Ask whether the cursor is at an entry.
    Valid,
    /// Read the key of the entry.
    Key,
    /// Read the value of the entry.
    Value,
    /// Move to the next entry.
    Next,
}

/// The engine's answer to a call on its cursor.
#[derive(Debug, Clone, Copy, PartialEq, Eq)]
pub enum CursorReply<'b> {
    /// The cursor has moved.
    Moved,
    /// The cursor is at an entry if the flag is not zero.
    Valid(u8),
    /// The engine's buffer with the key; `None` for a null pointer.
    Key(Option<&'b [u8]>),
    /// The engine's buffer with the value; `None` for a null pointer.
    Value(Option<&'b [u8]>),
}

/// What a walk asks for or gives.
#[derive(Debug, PartialEq, Eq)]
pub enum Step {
    /// Make this call on the cursor and hand the answer to
    /// [`OwnedIterator::resume`].
    Call(CursorCall),
    /// The next entry: its key and its value.
    Item(Vec<u8>, Vec<u8>),
    /// There are no more entries.
    End,
}

#[derive(Debug)]
enum Phase {
    Fresh,
    Seeking,
    Ready,
    AskedValid,
    AskedKey,
    AskedValue { key: Vec<u8> },
    AskedNext { key: Vec<u8>, value: Vec<u8> },
    Finished,
}

/// How far a walk has come.
pub enum PhaseView {
    /// The cursor has not been placed yet.
    Fresh,
    /// The cursor was asked to move to the first entry.
    Seeking,
    /// The cursor is placed and nothing is asked of it.
    Ready,
    /// The cursor was asked whether it is at an entry.
    AskedValid,
    /// The cursor was asked for the key.
    AskedKey,
    /// The key is copied; the cursor was asked for the value.
    AskedValue { key: Seq<u8> },
    /// Key and value are copied; the cursor was asked to move on.
    AskedNext { key: Seq<u8>, value: Seq<u8> },
    /// The entries have run out.
    Finished,
}

/// The mathematical value of a [`CursorReply`].
pub enum ReplyView {
    Moved,
    Valid(u8),
    Key(Option<Seq<u8>>),
    Value(Option<Seq<u8>>),
}

/// The mathematical value of a [`Step`].
pub enum StepView {
    Call(CursorCall),
    Item(Seq<u8>, Seq<u8>),
    End,
}

impl View for Phase {
    type V = PhaseView;

    closed spec fn view(&self) -> PhaseView {
        match self {
            Phase::Fresh => PhaseView::Fresh,
            Phase::Seeking => PhaseView::Seeking,
            Phase::Ready => PhaseView::Ready,
            Phase::AskedValid => PhaseView::AskedValid,
            Phase::AskedKey => PhaseView::AskedKey,
            Phase::AskedValue { key } => PhaseView::AskedValue { key: key@ },
            Phase::AskedNext { key, value } => PhaseView::AskedNext { key: key@, value: value@ },
            Phase::Finished => PhaseView::Finished,
        }
    }
}

impl<'b> View for CursorReply<'b> {
    type V = ReplyView;

    open spec fn view(&self) -> ReplyView {
        match self {
            CursorReply::Moved => ReplyView::Moved,
            CursorReply::Valid(flag) => ReplyView::Valid(*flag),
            CursorReply::Key(Some(memory)) => ReplyView::Key(Some(memory@)),
            CursorReply::Key(None) => ReplyView::Key(None),
            CursorReply::Value(Some(memory)) => ReplyView::Value(Some(memory@)),
            CursorReply::Value(None) => ReplyView::Value(None),
        }
    }
}

impl View for Step {
    type V = StepView;

    open spec fn view(&self) -> StepView {
        match self {
            Step::Call(call) => StepView::Call(*call),
            Step::Item(key, value) => StepView::Item(key@, value@),
            Step::End => StepView::End,
        }
    }
}

/// What a walk in `phase` does when it is asked for the next entry: it
/// places the cursor first, asks whether the cursor is at an entry, or, if a
/// call is still unanswered, asks for that again.
pub open spec fn begin(phase: PhaseView) -> (PhaseView, StepView) {
    match phase {
        PhaseView::Fresh => (PhaseView::Seeking, StepView::Call(CursorCall::SeekToFirst)),
        PhaseView::Seeking => (phase, StepView::Call(CursorCall::SeekToFirst)),
        PhaseView::Ready => (PhaseView::AskedValid, StepView::Call(CursorCall::Valid)),
        PhaseView::AskedValid => (phase, StepView::Call(CursorCall::Valid)),
        PhaseView::AskedKey => (phase, StepView::Call(CursorCall::Key)),
        PhaseView::AskedValue { .. } => (phase, StepView::Call(CursorCall::Value)),
        PhaseView::AskedNext { .. } => (phase, StepView::Call(CursorCall::Next)),
        PhaseView::Finished => (phase, StepView::End),
    }
}

/// What a walk in `phase` does with the answer to its call. Once placed, the
/// cursor is asked whether it is at an entry; if so for the key, then for the
/// value, then to move on, and then the entry is given. A cursor that is at
/// no entry, a null buffer, or an answer to another call than the one made,
/// ends the walk.
pub open spec fn resume(phase: PhaseView, reply: ReplyView) -> (PhaseView, StepView) {
    match (phase, reply) {
        (PhaseView::Seeking, ReplyView::Moved) => (
            PhaseView::AskedValid,
            StepView::Call(CursorCall::Valid),
        ),
        (PhaseView::AskedValid, ReplyView::Valid(flag)) => if flag > 0 {
            (PhaseView::AskedKey, StepView::Call(CursorCall::Key))
        } else {
            (PhaseView::Finished, StepView::End)
        },
        (PhaseView::AskedKey, ReplyView::Key(Some(key))) => (
            PhaseView::AskedValue { key },
            StepView::Call(CursorCall::Value),
        ),
        (PhaseView::AskedValue { key }, ReplyView::Value(Some(value))) => (
            PhaseView::AskedNext { key, value },
            StepView::Call(CursorCall::Next),
        ),
        (PhaseView::AskedNext { key, value }, ReplyView::Moved) => (
            PhaseView::Ready,
            StepView::Item(key, value),
        ),
        _ => (PhaseView::Finished, StepView::End),
    }
}

/// A walk over the entries of a database. It borrows the database, which
/// therefore outlives it.
#[derive(Debug)]
pub struct OwnedIterator<'a> {
    raw: usize,
    db: &'a Db,
    phase: Phase,
}

impl<'a> OwnedIterator<'a> {
    #[verifier::type_invariant]
    closed spec fn well_formed(&self) -> bool {
        self.raw != 0
    }

    /// The address of the engine's cursor.
    pub closed spec fn address(&self) -> usize {
        self.raw
    }

    /// How far the walk has come.
    pub closed spec fn phase(&self) -> PhaseView {
        self.phase@
    }

    /// Starts a walk with the cursor that the engine has made at `raw` for
    /// `db`.
    pub fn from_parts(raw: usize, db: &'a Db) -> (walk: Self)
        requires
            raw != 0,
        ensures
            walk.address() == raw,
            walk.phase() == PhaseView::Fresh,
    {
        OwnedIterator { raw, db, phase: Phase::Fresh }
    }

    /// The address of the engine's cursor.
    pub fn as_raw(&self) -> (raw: usize)
        ensures
            raw == self.address(),
            raw != 0,
    {
        proof {
            use_type_invariant(self);
        }
        self.raw
    }

    /// Whether the engine's flag says that the cursor is at an entry.
    pub fn valid(flag: u8) -> (valid: bool)
        ensures
            valid == (flag > 0),
    {
        flag > 0
    }

    /// A copy of the key in the engine's buffer; `None` for a null pointer.
    pub fn key(memory: Option<&[u8]>) -> (key: Option<Vec<u8>>)
        ensures
            key is Some <==> memory is Some,
            key matches Some(key) ==> key@ == memory->0@,
    {
        match memory {
            Some(memory) => Some(slice_to_vec(memory)),
            None => None,
        }
    }

    /// A copy of the value in the engine's buffer; `None` for a null pointer.
    pub fn value(memory: Option<&[u8]>) -> (value: Option<Vec<u8>>)
        ensures
            value is Some <==> memory is Some,
            value matches Some(value) ==> value@ == memory->0@,
    {
        match memory {
            Some(memory) => Some(slice_to_vec(memory)),
            None => None,
        }
    }

    /// Asks for the next entry.
    pub fn next(&mut self) -> (step: Step)
        ensures
            (final(self).phase(), step@) == begin(old(self).phase()),
            final(self).address() == old(self).address(),
    {
        proof {
            use_type_invariant(&*self);
        }
        match &self.phase {
            Phase::Fresh => {
                self.phase = Phase::Seeking;
                Step::Call(CursorCall::SeekToFirst)
            },
            Phase::Seeking => Step::Call(CursorCall::SeekToFirst),
            Phase::Ready => {
                self.phase = Phase::AskedValid;
                Step::Call(CursorCall::Valid)
            },
            Phase::AskedValid => Step::Call(CursorCall::Valid),
            Phase::AskedKey => Step::Call(CursorCall::Key),
            Phase::AskedValue { .. } => Step::Call(CursorCall::Value),
            Phase::AskedNext { .. } => Step::Call(CursorCall::Next),
            Phase::Finished => Step::End,
        }
    }

    /// Takes the engine's answer to the call that the walk asked for.
    pub fn resume(&mut self, reply: CursorReply<'_>) -> (step: Step)
        ensures
            (final(self).phase(), step@) == resume(old(self).phase(), reply@),
            final(self).address() == old(self).address(),
    {
        proof {
            use_type_invariant(&*self);
        }
        let mut phase = Phase::Finished;
        std::mem::swap(&mut self.phase, &mut phase);
        match phase {
            Phase::Seeking => match reply {
                CursorReply::Moved => {
                    self.phase = Phase::AskedValid;
                    Step::Call(CursorCall::Valid)
                },
                _ => Step::End,
            },
            Phase::AskedValid => match reply {
                CursorReply::Valid(flag) => {
                    if Self::valid(flag) {
                        self.phase = Phase::AskedKey;
                        Step::Call(CursorCall::Key)
                    } else {
                        Step::End
                    }
                },
                _ => Step::End,
            },
            Phase::AskedKey => match reply {
                CursorReply::Key(memory) => match Self::key(memory) {
                    Some(key) => {
                        self.phase = Phase::AskedValue { key };
                        Step::Call(CursorCall::Value)
                    },
                    None => Step::End,
                },
                _ => Step::End,
            },
            Phase::AskedValue { key } => match reply {
                CursorReply::Value(memory) => match Self::value(memory) {
                    Some(value) => {
                        self.phase = Phase::AskedNext { key, value };
                        Step::Call(CursorCall::Next)
                    },
                    None => Step::End,
                },
                _ => Step::End,
            },
            Phase::AskedNext { key, value } => match reply {
                CursorReply::Moved => {
                    self.phase = Phase::Ready;
                    Step::Item(key, value)
                },
                _ => Step::End,
            },
            _ => Step::End,
        }
    }
}

/// The engine's cursor as a walk may take it to be: the entries of the
/// database in the engine's order, and the index at which the cursor stands.
pub struct CursorModel {
    pub entries: Seq<(Seq<u8>, Seq<u8>)>,
    pub position: int,
}

/// Whether the cursor stands at an entry.
pub open spec fn at_entry(cursor: CursorModel) -> bool {
    0 <= cursor.position < cursor.entries.len()
}

/// The cursor after `call`, and its answer.
pub open spec fn answer(cursor: CursorModel, call: CursorCall) -> (CursorModel, ReplyView) {
    match call {
        CursorCall::SeekToFirst => (CursorModel { position: 0, ..cursor }, ReplyView::Moved),
        CursorCall::Valid => (
            cursor,
            ReplyView::Valid(
                if at_entry(cursor) {
                    1
                } else {
                    0
                },
            ),
        ),
        CursorCall::Key => (
            cursor,
            ReplyView::Key(
                if at_entry(cursor) {
                    Some(cursor.entries[cursor.position].0)
                } else {
                    None
                },
            ),
        ),
        CursorCall::Value => (
            cursor,
            ReplyView::Value(
                if at_entry(cursor) {
                    Some(cursor.entries[cursor.position].1)
                } else {
                    None
                },
            ),
        ),
        CursorCall::Next => (
            CursorModel { position: cursor.position + 1, ..cursor },
            ReplyView::Moved,
        ),
    }
}

/// The walk and the cursor once the calls that the walk asks for have been
/// made and answered, `calls` of them at most, up to an entry or the end.
pub open spec fn settle(phase: PhaseView, step: StepView, cursor: CursorModel, calls: nat) -> (
    PhaseView,
    StepView,
    CursorModel,
)
    decreases calls,
{
    match step {
        StepView::Call(call) => if calls == 0 {
            (phase, step, cursor)
        } else {
            let (moved, reply) = answer(cursor, call);
            let (next, asked) = resume(phase, reply);
            settle(next, asked, moved, (calls - 1) as nat)
        },
        _ => (phase, step, cursor),
    }
}

/// One request for the next entry, with the calls it leads to: five at most.
pub open spec fn pull(phase: PhaseView, cursor: CursorModel) -> (
    PhaseView,
    StepView,
    CursorModel,
) {
    settle(begin(phase).0, begin(phase).1, cursor, 5)
}

/// The entries that `pulls` requests in a row give.
pub open spec fn entries_given(phase: PhaseView, cursor: CursorModel, pulls: nat) -> Seq<
    (Seq<u8>, Seq<u8>),
>
    decreases pulls,
{
    if pulls == 0 {
        Seq::empty()
    } else {
        let (next, step, moved) = pull(phase, cursor);
        match step {
            StepView::Item(key, value) => seq![(key, value)] + entries_given(
                next,
                moved,
                (pulls - 1) as nat,
            ),
            _ => entries_given(next, moved, (pulls - 1) as nat),
        }
    }
}

/// A request made while the cursor stands at an entry gives that entry, read
/// before the cursor has moved on by one; a request made past the last entry
/// ends the walk and leaves the cursor where it is.
pub proof fn lemma_pull_gives_entry_at_cursor(cursor: CursorModel)
    requires
        0 <= cursor.position,
    ensures
        at_entry(cursor) ==> pull(PhaseView::Ready, cursor) == (
            PhaseView::Ready,
            StepView::Item(
                cursor.entries[cursor.position].0,
                cursor.entries[cursor.position].1,
            ),
            CursorModel { position: cursor.position + 1, ..cursor },
        ),
        !at_entry(cursor) ==> pull(PhaseView::Ready, cursor) == (
            PhaseView::Finished,
            StepView::End,
            cursor,
        ),
{
    reveal_with_fuel(settle, 6);
}

/// The first request places the cursor at the first entry and then does what
/// every request does.
pub proof fn lemma_first_pull_starts_at_first_entry(cursor: CursorModel)
    ensures
        pull(PhaseView::Fresh, cursor) == pull(
            PhaseView::Ready,
            CursorModel { position: 0, ..cursor },
        ),
{
    reveal_with_fuel(settle, 6);
}

/// Once the walk has ended, every request ends at once, with no call on the
/// cursor.
pub proof fn lemma_finished_walk_stays_finished(cursor: CursorModel, pulls: nat)
    ensures
        pull(PhaseView::Finished, cursor) == (PhaseView::Finished, StepView::End, cursor),
        entries_given(PhaseView::Finished, cursor, pulls) == Seq::<(Seq<u8>, Seq<u8>)>::empty(),
    decreases pulls,
{
    reveal_with_fuel(settle, 2);
    if pulls > 0 {
        lemma_finished_walk_stays_finished(cursor, (pulls - 1) as nat);
    }
}

/// From where the cursor stands, requests give the entries that follow, in
/// order and once each, as far as the requests or the entries reach.
pub proof fn lemma_pulls_give_entries_in_order(cursor: CursorModel, pulls: nat)
    requires
        0 <= cursor.position <= cursor.entries.len(),
    ensures
        entries_given(PhaseView::Ready, cursor, pulls) == cursor.entries.subrange(
            cursor.position,
            if cursor.position + pulls <= cursor.entries.len() {
                cursor.position + pulls
            } else {
                cursor.entries.len() as int
            },
        ),
    decreases pulls,
{
    if pulls > 0 {
        lemma_pull_gives_entry_at_cursor(cursor);
        if at_entry(cursor) {
            let moved = CursorModel { position: cursor.position + 1, ..cursor };
            lemma_pulls_give_entries_in_order(moved, (pulls - 1) as nat);
            let end = if cursor.position + pulls <= cursor.entries.len() {
                cursor.position + pulls
            } else {
                cursor.entries.len() as int
            };
            assert(seq![cursor.entries[cursor.position]] + cursor.entries.subrange(
                cursor.position + 1,
                end,
            ) =~= cursor.entries.subrange(cursor.position, end));
        } else {
            lemma_finished_walk_stays_finished(cursor, (pulls - 1) as nat);
            assert(cursor.entries.subrange(cursor.position, cursor.entries.len() as int)
                =~= Seq::<(Seq<u8>, Seq<u8>)>::empty());
        }
    } else {
        assert(cursor.entries.subrange(cursor.position, cursor.position) =~= Seq::<
            (Seq<u8>, Seq<u8>),
        >::empty());
    }
}

/// A new walk that is asked for more entries than there are gives every
/// entry of the database, in the engine's order and once each, wherever the
/// cursor stood when the walk began.
pub proof fn lemma_walk_gives_every_entry_once(cursor: CursorModel, pulls: nat)
    requires
        pulls > cursor.entries.len(),
    ensures
        entries_given(PhaseView::Fresh, cursor, pulls) == cursor.entries,
{
    let first = CursorModel { position: 0, ..cursor };
    lemma_first_pull_starts_at_first_entry(cursor);
    lemma_pulls_give_entries_in_order(first, pulls);
    assert(entries_given(PhaseView::Fresh, cursor, pulls) == entries_given(
        PhaseView::Ready,
        first,
        pulls,
    ));
    assert(cursor.entries.subrange(0, cursor.entries.len() as int) =~= cursor.entries);
}

} // verus!

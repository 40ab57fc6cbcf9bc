use vstd::prelude::*;
use crate::entities::{keywords, messages, users};
use crate::ingest::PendingWrite;
use crate::limits::WRITE_BATCH_THRESHOLD;

verus! {

/// How an attempt to commit the buffered units ended.
#[derive(Clone, Copy, Debug, PartialEq, Eq, Structural)]
pub enum FlushOutcome {
    /// The transaction could not be opened.
    BeginFailed,
    /// A user, message or keyword write failed; the transaction was rolled back.
    StepFailed,
    /// Every write succeeded but the commit failed.
    CommitFailed,
    /// Every write succeeded and was committed.
    Committed,
}

/// The contents of the store as the write path sees it: messages in insertion
/// order (a message's row id is its position plus one), keywords in insertion
/// order, and senders by id.
pub ghost struct StoreModel {
    pub messages: Seq<messages::Model>,
    pub keywords: Seq<keywords::Model>,
    pub users: Map<i64, users::Model>,
}

/// A sender row after an upsert: a new sender is inserted as given; a known one
/// takes the new name and last-seen time and counts one more message.
pub open spec fn merged_user(existing: Option<users::Model>, up: users::Model) -> users::Model {
    match existing {
        None => up,
        Some(e) => users::Model {
            user_id: e.user_id,
            nickname: up.nickname,
            first_seen: e.first_seen,
            last_seen: up.last_seen,
            message_count: (e.message_count + 1) as i64,
        },
    }
}

/// Keyword rows handed their owner's row id.
pub open spec fn stamped(ks: Seq<keywords::Model>, message_id: i64) -> Seq<keywords::Model> {
    ks.map_values(|k: keywords::Model| keywords::Model { message_id: message_id, ..k })
}

/// The store after one unit is written: the sender upsert, then the message with
/// the next row id, then its keywords pointing at that id.
pub open spec fn apply_unit(s: StoreModel, u: PendingWrite) -> StoreModel {
    let id = (s.messages.len() + 1) as i64;
    let uid = u.user_upsert.user_id;
    let existing = if s.users.contains_key(uid) { Some(s.users[uid]) } else { None };
    StoreModel {
        messages: s.messages.push(messages::Model { id: id, ..u.message }),
        keywords: s.keywords + stamped(u.keywords@, id),
        users: s.users.insert(uid, merged_user(existing, u.user_upsert)),
    }
}

/// The store after a sequence of units is written in order.
pub open spec fn apply_units(s: StoreModel, us: Seq<PendingWrite>) -> StoreModel
    decreases us.len(),
{
    if us.len() == 0 {
        s
    } else {
        apply_unit(apply_units(s, us.drop_last()), us.last())
    }
}

/// What is visible after a flush attempt: all of the batch when it committed,
/// none of it otherwise.
pub open spec fn after_flush(s: StoreModel, us: Seq<PendingWrite>, outcome: FlushOutcome) -> StoreModel {
    if outcome == FlushOutcome::Committed {
        apply_units(s, us)
    } else {
        s
    }
}

/// The outcome of a flush attempt from what the store reported: whether the
/// transaction opened, whether each attempted unit's writes succeeded, and
/// whether the commit succeeded.
pub open spec fn outcome_of(began: bool, unit_ok: Seq<bool>, commit_ok: bool) -> FlushOutcome {
    if !began {
        FlushOutcome::BeginFailed
    } else if exists|i: int| 0 <= i < unit_ok.len() && !#[trigger] unit_ok[i] {
        FlushOutcome::StepFailed
    } else if !commit_ok {
        FlushOutcome::CommitFailed
    } else {
        FlushOutcome::Committed
    }
}

/// Decides how a flush attempt ended.
pub fn flush_outcome(began: bool, unit_ok: &Vec<bool>, commit_ok: bool) -> (r: FlushOutcome)
    ensures
        r == outcome_of(began, unit_ok@, commit_ok),
{
    if !began {
        return FlushOutcome::BeginFailed;
    }
    let mut i: usize = 0;
    while i < unit_ok.len()
        invariant
            began,
            i <= unit_ok@.len(),
            forall|j: int| 0 <= j < i ==> unit_ok@[j],
        decreases unit_ok@.len() - i,
    {
        if !unit_ok[i] {
            assert(!unit_ok@[i as int]);
            assert(exists|j: int| 0 <= j < unit_ok@.len() && !#[trigger] unit_ok@[j]);

            return FlushOutcome::StepFailed;
        }
        i = i + 1;
    }
    if !commit_ok {
        FlushOutcome::CommitFailed
    } else {
        FlushOutcome::Committed
    }
}

/// The sender row after an upsert of `up` over the stored row, if any.
pub fn merge_user(existing: Option<&users::Model>, up: &users::Model) -> (r: users::Model)
    requires
        existing matches Some(e) ==> e.message_count < i64::MAX,
    ensures
        r == merged_user(
            match existing {
                Some(e) => Some(*e),
                None => None,
            },
            *up,
        ),
{
    match existing {
        None => users::Model {
            user_id: up.user_id,
            nickname: up.nickname.clone(),
            first_seen: up.first_seen,
            last_seen: up.last_seen,
            message_count: up.message_count,
        },
        Some(e) => users::Model {
            user_id: e.user_id,
            nickname: up.nickname.clone(),
            first_seen: e.first_seen,
            last_seen: up.last_seen,
            message_count: e.message_count + 1,
        },
    }
}

/// Units waiting to be committed together.
pub struct WriteBuffer {
    buffer: Vec<PendingWrite>,
}

impl WriteBuffer {
    /// The buffered units, oldest first.
    pub closed spec fn pending(&self) -> Seq<PendingWrite> {
        self.buffer@
    }

    /// An empty buffer.
    pub fn new() -> (r: Self)
        ensures
            r.pending() == Seq::<PendingWrite>::empty(),
    {
        WriteBuffer { buffer: Vec::new() }
    }

    /// Number of buffered units.
    pub fn len(&self) -> (r: usize)
        ensures
            r == self.pending().len(),
    {
        self.buffer.len()
    }

    /// The buffered units, oldest first, for the store to write in one transaction.
    pub fn units(&self) -> (r: &Vec<PendingWrite>)
        ensures
            r@ == self.pending(),
    {
        &self.buffer
    }

    /// Accepts a unit; answers whether the buffer has reached the batch threshold
    /// and must be flushed now.
    pub fn on_unit(&mut self, unit: PendingWrite) -> (flush: bool)
        ensures
            final(self).pending() == old(self).pending().push(unit),
            flush == (final(self).pending().len() >= WRITE_BATCH_THRESHOLD),
    {
        self.buffer.push(unit);
        self.buffer.len() >= WRITE_BATCH_THRESHOLD
    }

    /// On a timer tick, a non-empty buffer is flushed.
    pub fn on_tick(&self) -> (flush: bool)
        ensures
            flush == (self.pending().len() > 0),
    {
        self.buffer.len() > 0
    }

    /// When the queue closes, what remains is flushed before stopping.
    pub fn on_close(&self) -> (flush: bool)
        ensures
            flush == (self.pending().len() > 0),
    {
        self.buffer.len() > 0
    }

    /// Settles the buffer after a flush attempt: a commit empties it; a failed
    /// write keeps it for the next attempt, except that when it holds more than a
    /// batch the oldest batch's worth is dropped; a failure to begin or to commit
    /// keeps it whole.
    pub fn settle(&mut self, outcome: FlushOutcome)
        ensures
            final(self).pending() == retained(old(self).pending(), outcome),
    {
        match outcome {
            FlushOutcome::Committed => {
                self.buffer.clear();
            },
            FlushOutcome::StepFailed => {
                if self.buffer.len() > WRITE_BATCH_THRESHOLD {
                    let rest = self.buffer.split_off(WRITE_BATCH_THRESHOLD);
                    self.buffer = rest;
                }
            },
            FlushOutcome::BeginFailed | FlushOutcome::CommitFailed => {},
        }
    }
}

/// What stays buffered after a flush attempt.
pub open spec fn retained(pending: Seq<PendingWrite>, outcome: FlushOutcome) -> Seq<PendingWrite> {
    match outcome {
        FlushOutcome::Committed => Seq::empty(),
        FlushOutcome::StepFailed => if pending.len() > WRITE_BATCH_THRESHOLD {
            pending.subrange(WRITE_BATCH_THRESHOLD as int, pending.len() as int)
        } else {
            pending
        },
        _ => pending,
    }
}

/// Atomicity law: when any unit of a batch fails to be written, the flush does
/// not commit and none of the batch's rows become visible.
pub proof fn failed_unit_leaves_store_unchanged(
    s: StoreModel,
    us: Seq<PendingWrite>,
    began: bool,
    unit_ok: Seq<bool>,
    commit_ok: bool,
    i: int,
)
    requires
        0 <= i < unit_ok.len(),
        !unit_ok[i],
    ensures
        outcome_of(began, unit_ok, commit_ok) != FlushOutcome::Committed,
        after_flush(s, us, outcome_of(began, unit_ok, commit_ok)) == s,
{
}

/// A committed flush makes every unit of the batch visible, in order.
pub proof fn committed_flush_applies_batch(s: StoreModel, us: Seq<PendingWrite>, unit_ok: Seq<bool>)
    requires
        forall|i: int| 0 <= i < unit_ok.len() ==> unit_ok[i],
    ensures
        outcome_of(true, unit_ok, true) == FlushOutcome::Committed,
        after_flush(s, us, outcome_of(true, unit_ok, true)) == apply_units(s, us),
{
}

/// Direct-write law: writing one unit outside any batch leaves the store exactly
/// as a committed batch holding only that unit does.
pub proof fn direct_write_matches_batched(s: StoreModel, u: PendingWrite)
    ensures
        apply_units(s, seq![u]) == apply_unit(s, u),
{
    assert(seq![u].drop_last() =~= Seq::<PendingWrite>::empty());
    assert(apply_units(s, seq![u].drop_last()) == s);
    assert(seq![u].last() == u);
}

/// Message-count law: writing a unit whose upsert counts one message raises the
/// sender's stored count by exactly one, or records it at one for a new sender.
pub proof fn unit_increments_sender_count(s: StoreModel, u: PendingWrite)
    requires
        u.user_upsert.message_count == 1,
        s.users.contains_key(u.user_upsert.user_id) ==> s.users[u.user_upsert.user_id].message_count < i64::MAX,
    ensures
        apply_unit(s, u).users.contains_key(u.user_upsert.user_id),
        apply_unit(s, u).users[u.user_upsert.user_id].message_count == (if s.users.contains_key(u.user_upsert.user_id) {
            s.users[u.user_upsert.user_id].message_count + 1
        } else {
            1
        }),
{
}

} // verus!

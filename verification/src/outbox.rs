//! The outbox: a durable queue of writes that could not be delivered at once.
//!
//! Every entry is attempted again after a growing delay until it is delivered
//! or given up. Entries are never removed, so the place of an entry in the
//! queue identifies it for as long as the queue lives.
//!
//! Instants are milliseconds since the Unix epoch.

use vstd::prelude::*;
use vstd::string::*;
use crate::backoff::{backoff_delay_secs, backoff_secs, MAX_ATTEMPTS, MAX_DELAY_SECS};
use crate::clock::{now_millis, CLOCK_LIMIT_MILLIS};
use crate::error::AppError;
use crate::ids::{fresh_id, is_hyphenated_id};

verus! {

/// At most this many entries are attempted in one sweep.
pub const SWEEP_BATCH: usize = 10;

/// The name of the event published when a write has been queued.
pub const QUEUED_EVENT: &'static str = "mutation-queued";

/// The name of the event published when a queued write has been sent.
pub const SENT_EVENT: &'static str = "mutation-sent";

/// Where an entry stands. `Sent` and `Failed` are final.
#[derive(Clone, Copy, Debug, PartialEq, Eq, Structural)]
pub enum MutationStatus {
    /// Waiting for its next attempt.
    Queued,
    /// An attempt is under way.
    Retrying,
    /// Delivered.
    Sent,
    /// Given up.
    Failed,
}

impl MutationStatus {
    /// Whether the entry still takes part in sweeps.
    pub open spec fn is_active(self) -> bool {
        self is Queued || self is Retrying
    }

    /// Whether nothing can happen to the entry any more.
    pub open spec fn is_terminal(self) -> bool {
        self is Sent || self is Failed
    }

    /// The name under which the status is stored.
    pub open spec fn name(self) -> Seq<char> {
        match self {
            MutationStatus::Queued => "queued"@,
            MutationStatus::Retrying => "retrying"@,
            MutationStatus::Sent => "sent"@,
            MutationStatus::Failed => "failed"@,
        }
    }

    /// Tells whether the status is final.
    pub fn terminal(&self) -> (t: bool)
        ensures
            t == self.is_terminal(),
    {
        match self {
            MutationStatus::Sent => true,
            MutationStatus::Failed => true,
            _ => false,
        }
    }

    /// The status stored under `name`, if it is the name of one.
    pub fn from_name(name: &str) -> (status: Option<MutationStatus>)
        ensures
            match status {
                Some(found) => found.name() == name@,
                None => forall|any: MutationStatus| any.name() != name@,
            },
    {
        let name = name.to_owned();
        if name == String::from_str("queued") {
            Some(MutationStatus::Queued)
        } else if name == String::from_str("retrying") {
            Some(MutationStatus::Retrying)
        } else if name == String::from_str("sent") {
            Some(MutationStatus::Sent)
        } else if name == String::from_str("failed") {
            Some(MutationStatus::Failed)
        } else {
            None
        }
    }

    /// The stored name of the status.
    pub fn as_str(&self) -> (name: &'static str)
        ensures
            name@ == self.name(),
    {
        match self {
            MutationStatus::Queued => "queued",
            MutationStatus::Retrying => "retrying",
            MutationStatus::Sent => "sent",
            MutationStatus::Failed => "failed",
        }
    }
}

/// One pending write.
#[derive(Debug)]
pub struct QueuedMutation {
    /// Unique among the entries of a queue.
    pub id: String,
    /// The identity on whose behalf the write is made.
    pub owner: String,
    /// The arguments of the write, serialized; the queue never looks inside.
    pub payload: String,
    pub status: MutationStatus,
    /// How often delivery has been tried, the first, immediate try included.
    pub attempts: u32,
    /// Not attempted again before this instant.
    pub next_retry_at: i64,
    /// Why the last attempt failed.
    pub last_error: String,
    pub created_at: i64,
    pub updated_at: i64,
    /// Set when, and only when, the entry was delivered.
    pub sent_at: Option<i64>,
}

/// What a [`QueuedMutation`] holds, as mathematical values.
pub struct MutationView {
    pub id: Seq<char>,
    pub owner: Seq<char>,
    pub payload: Seq<char>,
    pub status: MutationStatus,
    pub attempts: nat,
    pub next_retry_at: int,
    pub last_error: Seq<char>,
    pub created_at: int,
    pub updated_at: int,
    pub sent_at: Option<int>,
}

impl View for QueuedMutation {
    type V = MutationView;

    open spec fn view(&self) -> MutationView {
        MutationView {
            id: self.id@,
            owner: self.owner@,
            payload: self.payload@,
            status: self.status,
            attempts: self.attempts as nat,
            next_retry_at: self.next_retry_at as int,
            last_error: self.last_error@,
            created_at: self.created_at as int,
            updated_at: self.updated_at as int,
            sent_at: match self.sent_at {
                Some(t) => Some(t as int),
                None => None,
            },
        }
    }
}

impl MutationView {
    /// The bounds that every entry of a queue keeps: never more than
    /// [`MAX_ATTEMPTS`] attempts, fewer while the entry is active, and a
    /// delivery time exactly when it was delivered.
    pub open spec fn wf(self) -> bool {
        &&& self.attempts <= MAX_ATTEMPTS
        &&& self.status.is_active() ==> self.attempts < MAX_ATTEMPTS
        &&& self.status is Sent <==> self.sent_at is Some
    }

    /// Whether a sweep for `owner` at `now` may attempt the entry.
    pub open spec fn is_due(self, owner: Seq<char>, now: int) -> bool {
        &&& self.owner == owner
        &&& self.status.is_active()
        &&& self.next_retry_at <= now
    }
}

impl Clone for QueuedMutation {
    fn clone(&self) -> (copy: Self)
        ensures
            copy@ == self@,
    {
        QueuedMutation {
            id: self.id.clone(),
            owner: self.owner.clone(),
            payload: self.payload.clone(),
            status: self.status,
            attempts: self.attempts,
            next_retry_at: self.next_retry_at,
            last_error: self.last_error.clone(),
            created_at: self.created_at,
            updated_at: self.updated_at,
            sent_at: self.sent_at,
        }
    }
}

impl QueuedMutation {
    /// Tells whether the entry keeps the bounds of [`MutationView::wf`].
    pub fn is_valid(&self) -> (ok: bool)
        ensures
            ok == self@.wf(),
    {
        let active = match self.status {
            MutationStatus::Queued => true,
            MutationStatus::Retrying => true,
            _ => false,
        };
        let sent = match self.status {
            MutationStatus::Sent => true,
            _ => false,
        };
        self.attempts <= MAX_ATTEMPTS && (!active || self.attempts < MAX_ATTEMPTS) && (sent
            == self.sent_at.is_some())
    }
}

/// The entry that enqueueing creates: queued, one attempt made, due at once.
pub open spec fn fresh_entry(
    id: Seq<char>,
    owner: Seq<char>,
    payload: Seq<char>,
    reason: Seq<char>,
    now: int,
) -> MutationView {
    MutationView {
        id,
        owner,
        payload,
        status: MutationStatus::Queued,
        attempts: 1,
        next_retry_at: now,
        last_error: reason,
        created_at: now,
        updated_at: now,
        sent_at: None,
    }
}

/// What happens to an entry in the course of a sweep.
#[derive(Debug)]
pub enum AttemptEvent {
    /// The payload could not be decoded: the entry is given up without an
    /// attempt to deliver it.
    PayloadRejected { reason: String },
    /// Delivery is about to be attempted.
    Started,
    /// The remote side accepted the write.
    Delivered,
    /// The attempt failed.
    Failed { reason: String },
}

/// The milliseconds to wait after the given number of attempts.
pub open spec fn backoff_millis(attempts: int) -> int {
    backoff_secs(attempts) as int * 1000
}

/// Whether an entry in `status` takes `event`. Final entries take none, and
/// an attempt ends only after it has started.
pub open spec fn accepts(status: MutationStatus, event: AttemptEvent) -> bool {
    match event {
        AttemptEvent::PayloadRejected { .. } => status.is_active(),
        AttemptEvent::Started => status.is_active(),
        AttemptEvent::Delivered => status is Retrying,
        AttemptEvent::Failed { .. } => status is Retrying,
    }
}

/// The text recorded for a payload that could not be decoded.
pub open spec fn rejection_text(reason: Seq<char>) -> Seq<char> {
    "Invalid retry payload: "@ + reason
}

/// The entry after `event` at `now`.
///
/// A rejected payload ends the entry as failed and counts as an attempt. A
/// start marks the entry as under way. A delivery ends it as sent, at `now`.
/// A failure counts as an attempt; with [`MAX_ATTEMPTS`] reached the entry
/// ends as failed, its retry time set to `now`, else it is queued again and
/// due after the backoff delay for the attempts made before this one.
pub open spec fn entry_after(row: MutationView, event: AttemptEvent, now: int) -> MutationView {
    match event {
        AttemptEvent::PayloadRejected { reason } => MutationView {
            status: MutationStatus::Failed,
            attempts: row.attempts + 1nat,
            last_error: rejection_text(reason@),
            updated_at: now,
            ..row
        },
        AttemptEvent::Started => MutationView {
            status: MutationStatus::Retrying,
            updated_at: now,
            ..row
        },
        AttemptEvent::Delivered => MutationView {
            status: MutationStatus::Sent,
            sent_at: Some(now),
            updated_at: now,
            ..row
        },
        AttemptEvent::Failed { reason } => if row.attempts + 1 >= MAX_ATTEMPTS {
            MutationView {
                status: MutationStatus::Failed,
                attempts: row.attempts + 1nat,
                next_retry_at: now,
                last_error: reason@,
                updated_at: now,
                ..row
            }
        } else {
            MutationView {
                status: MutationStatus::Queued,
                attempts: row.attempts + 1nat,
                next_retry_at: now + backoff_millis(row.attempts as int),
                last_error: reason@,
                updated_at: now,
                ..row
            }
        },
    }
}

/// Published when a write has been queued, and again when it has been sent.
#[derive(Debug)]
pub struct RetryQueueEvent {
    pub id: String,
}

/// No two entries share an id.
pub open spec fn ids_distinct(rows: Seq<MutationView>) -> bool {
    forall|i: int, j: int| 0 <= i < j < rows.len() ==> (#[trigger] rows[i]).id != (#[trigger] rows[j]).id
}

/// Whether some entry has the id.
pub open spec fn has_id(rows: Seq<MutationView>, id: Seq<char>) -> bool {
    exists|i: int| 0 <= i < rows.len() && (#[trigger] rows[i]).id == id
}

/// Whether some entry has an id of the shape in which new ids are drawn.
/// Only such an entry can stand in the way of a newly drawn id.
pub open spec fn holds_drawn_id(rows: Seq<MutationView>) -> bool {
    exists|i: int| 0 <= i < rows.len() && is_hyphenated_id((#[trigger] rows[i]).id)
}

/// What makes a sequence of entries a queue: distinct ids, every entry
/// within its bounds.
pub open spec fn queue_wf(rows: Seq<MutationView>) -> bool {
    &&& ids_distinct(rows)
    &&& forall|i: int| 0 <= i < rows.len() ==> (#[trigger] rows[i]).wf()
}

/// The text of the error for an id that is already taken.
pub open spec fn duplicate_id_text() -> Seq<char> {
    "enqueue retry failed: id already present"@
}

/// The text of the error for a place that holds no entry.
pub open spec fn no_entry_text() -> Seq<char> {
    "retry queue update failed: no such entry"@
}

/// The text of the error for an event that the entry does not take.
pub open spec fn bad_transition_text() -> Seq<char> {
    "retry queue update failed: transition not allowed"@
}

/// The order in which a sweep takes entries: by creation time, and among
/// entries created at the same instant, the one inserted first.
pub open spec fn precedes(rows: Seq<MutationView>, i: int, j: int) -> bool {
    rows[i].created_at < rows[j].created_at || (rows[i].created_at == rows[j].created_at && i < j)
}

/// Whether place `j` is among `picked`.
pub open spec fn is_picked(picked: Seq<usize>, j: int) -> bool {
    exists|k: int| 0 <= k < picked.len() && #[trigger] picked[k] == j
}

/// Whether `picked` is the batch of a sweep for `owner` at `now`: at most
/// [`SWEEP_BATCH`] places, each holding a due entry, in the order of
/// [`precedes`], and such that a due entry is left out only when the batch is
/// full and the entry comes after all of it. Exactly one sequence is.
pub open spec fn is_due_batch(
    rows: Seq<MutationView>,
    owner: Seq<char>,
    now: int,
    picked: Seq<usize>,
) -> bool {
    &&& picked.len() <= SWEEP_BATCH
    &&& forall|k: int|
        0 <= k < picked.len() ==> (#[trigger] picked[k]) < rows.len() && rows[picked[k] as int].is_due(
            owner,
            now,
        )
    &&& forall|a: int, b: int|
        0 <= a < b < picked.len() ==> precedes(
            rows,
            (#[trigger] picked[a]) as int,
            (#[trigger] picked[b]) as int,
        )
    &&& forall|j: int|
        0 <= j < rows.len() && (#[trigger] rows[j]).is_due(owner, now) && !is_picked(picked, j)
            ==> picked.len() == SWEEP_BATCH && precedes(rows, picked[picked.len() - 1] as int, j)
}

/// Whether place `j` may be taken next, after `last`: it holds a due entry
/// that comes after the one taken last.
spec fn is_candidate(
    rows: Seq<MutationView>,
    owner: Seq<char>,
    now: int,
    last: Option<usize>,
    j: int,
) -> bool {
    &&& rows[j].is_due(owner, now)
    &&& last matches Some(l) ==> precedes(rows, l as int, j)
}

/// The views of a sequence of entries.
pub open spec fn views_of(rows: Seq<QueuedMutation>) -> Seq<MutationView> {
    Seq::new(rows.len(), |i: int| rows[i]@)
}

/// The queue of pending writes, oldest insertion first.
pub struct Outbox {
    rows: Vec<QueuedMutation>,
}

impl View for Outbox {
    type V = Seq<MutationView>;

    closed spec fn view(&self) -> Seq<MutationView> {
        views_of(self.rows@)
    }
}

impl Outbox {
    /// The validity of a queue: see [`queue_wf`].
    pub open spec fn inv(&self) -> bool {
        queue_wf(self@)
    }

    /// An empty queue.
    pub fn new() -> (outbox: Outbox)
        ensures
            outbox@ == Seq::<MutationView>::empty(),
            outbox.inv(),
    {
        let outbox = Outbox { rows: Vec::new() };
        assert(outbox@ =~= Seq::<MutationView>::empty());
        outbox
    }

    /// Takes stored entries back into a queue, in the given order. Entries
    /// that break the bounds of a queue, or share an id, are not accepted.
    pub fn restore(rows: Vec<QueuedMutation>) -> (restored: Option<Outbox>)
        ensures
            match restored {
                Some(outbox) => outbox.inv() && outbox@ == views_of(rows@),
                None => !queue_wf(views_of(rows@)),
            },
    {
        let ghost all = views_of(rows@);
        let mut i: usize = 0;
        while i < rows.len()
            invariant
                i <= rows@.len(),
                all == views_of(rows@),
                forall|k: int| 0 <= k < i ==> (#[trigger] all[k]).wf(),
                forall|a: int, b: int|
                    0 <= a < b < i ==> (#[trigger] all[a]).id != (#[trigger] all[b]).id,
            decreases rows@.len() - i,
        {
            assert(rows@[i as int]@ == all[i as int]);
            if !rows[i].is_valid() {
                return None;
            }
            let mut j: usize = 0;
            while j < i
                invariant
                    j <= i < rows@.len(),
                    all == views_of(rows@),
                    forall|a: int| 0 <= a < j ==> (#[trigger] all[a]).id != all[i as int].id,
                decreases i - j,
            {
                assert(rows@[j as int]@ == all[j as int]);
                assert(rows@[i as int]@ == all[i as int]);
                if rows[j].id == rows[i].id {
                    return None;
                }
                j = j + 1;
            }
            i = i + 1;
        }
        Some(Outbox { rows })
    }

    /// Queues a write under a newly drawn id, at the present time.
    ///
    /// Whatever id and time come back from outside, the new entry is the
    /// [`fresh_entry`] for them; should the id be taken, nothing changes.
    /// Only an entry whose id has the shape of a drawn one can take it, so
    /// on a queue without such an entry, an empty one above all, the write
    /// is queued.
    pub fn enqueue_now(&mut self, owner: &str, payload: &str, reason: &AppError) -> (queued:
        Result<RetryQueueEvent, AppError>)
        requires
            old(self).inv(),
        ensures
            final(self).inv(),
            old(self)@.len() == 0 ==> queued is Ok,
            queued is Err ==> holds_drawn_id(old(self)@),
            match queued {
                Ok(event) => {
                    &&& is_hyphenated_id(event.id@)
                    &&& !has_id(old(self)@, event.id@)
                    &&& final(self)@.len() == old(self)@.len() + 1
                    &&& 0 <= final(self)@.last().created_at < CLOCK_LIMIT_MILLIS
                    &&& final(self)@ == old(self)@.push(
                        fresh_entry(
                            event.id@,
                            owner@,
                            payload@,
                            reason.message_text(),
                            final(self)@.last().created_at,
                        ),
                    )
                },
                Err(error) => {
                    &&& final(self)@ == old(self)@
                    &&& error matches AppError::InternalError(text)
                    &&& text@ == duplicate_id_text()
                },
            },
    {
        let id = fresh_id();
        let now = now_millis();
        self.enqueue(id.as_str(), owner, payload, reason, now)
    }

    /// The number of entries.
    pub fn len(&self) -> (n: usize)
        ensures
            n == self@.len(),
    {
        self.rows.len()
    }

    /// The entry at place `pos`.
    pub fn row(&self, pos: usize) -> (row: &QueuedMutation)
        requires
            pos < self@.len(),
        ensures
            row@ == self@[pos as int],
    {
        &self.rows[pos]
    }

    /// The place of the entry with the given id, if there is one.
    pub fn position_of(&self, id: &str) -> (found: Option<usize>)
        ensures
            match found {
                Some(pos) => pos < self@.len() && self@[pos as int].id == id@,
                None => !has_id(self@, id@),
            },
    {
        let wanted = id.to_owned();
        let mut i: usize = 0;
        while i < self.rows.len()
            invariant
                i <= self.rows@.len(),
                wanted@ == id@,
                self@.len() == self.rows@.len(),
                forall|k: int| 0 <= k < i ==> (#[trigger] self@[k]).id != id@,
            decreases self.rows@.len() - i,
        {
            if self.rows[i].id == wanted {
                return Some(i);
            }
            i = i + 1;
        }
        None
    }

    /// Queues a write whose immediate delivery failed for `reason`.
    ///
    /// The new entry is queued, counts one attempt and is due at once. The
    /// event to publish is returned. An id that is already taken is refused
    /// and the queue is left as it was.
    pub fn enqueue(
        &mut self,
        id: &str,
        owner: &str,
        payload: &str,
        reason: &AppError,
        now: i64,
    ) -> (queued: Result<RetryQueueEvent, AppError>)
        requires
            old(self).inv(),
        ensures
            final(self).inv(),
            !has_id(old(self)@, id@) ==> {
                &&& queued matches Ok(event)
                &&& event.id@ == id@
                &&& final(self)@ == old(self)@.push(
                    fresh_entry(id@, owner@, payload@, reason.message_text(), now as int),
                )
            },
            has_id(old(self)@, id@) ==> {
                &&& queued matches Err(AppError::InternalError(text))
                &&& text@ == duplicate_id_text()
                &&& final(self)@ == old(self)@
            },
    {
        if self.position_of(id).is_some() {
            return Err(
                AppError::InternalError(
                    String::from_str("enqueue retry failed: id already present"),
                ),
            );
        }
        let row = QueuedMutation {
            id: id.to_owned(),
            owner: owner.to_owned(),
            payload: payload.to_owned(),
            status: MutationStatus::Queued,
            attempts: 1,
            next_retry_at: now,
            last_error: reason.message(),
            created_at: now,
            updated_at: now,
            sent_at: None,
        };
        let ghost before = self@;
        self.rows.push(row);
        proof {
            assert(self@ =~= before.push(
                fresh_entry(id@, owner@, payload@, reason.message_text(), now as int),
            ));
            assert forall|i: int, j: int| 0 <= i < j < self@.len() implies (#[trigger] self@[i]).id
                != (#[trigger] self@[j]).id by {
                if j == before.len() {
                    assert(before[i].id != id@);
                }
            }
        }
        Ok(RetryQueueEvent { id: id.to_owned() })
    }

    /// Applies `event` to the entry at place `pos`: the one transition
    /// function of the queue.
    ///
    /// An event that the entry does not take, or a place without an entry, is
    /// refused and changes nothing. A delivery returns the event to publish.
    pub fn apply(&mut self, pos: usize, event: &AttemptEvent, now: i64) -> (outcome: Result<
        Option<RetryQueueEvent>,
        AppError,
    >)
        requires
            old(self).inv(),
            *event is Failed ==> now + MAX_DELAY_SECS * 1000 <= i64::MAX,
        ensures
            final(self).inv(),
            final(self)@.len() == old(self)@.len(),
            pos < old(self)@.len() && accepts(old(self)@[pos as int].status, *event) ==> {
                &&& final(self)@ == old(self)@.update(
                    pos as int,
                    entry_after(old(self)@[pos as int], *event, now as int),
                )
                &&& match outcome {
                    Ok(Some(sent)) => *event is Delivered && sent.id@ == old(self)@[pos as int].id,
                    Ok(None) => !(*event is Delivered),
                    Err(_) => false,
                }
            },
            pos >= old(self)@.len() ==> {
                &&& final(self)@ == old(self)@
                &&& outcome matches Err(AppError::InternalError(text))
                &&& text@ == no_entry_text()
            },
            pos < old(self)@.len() && !accepts(old(self)@[pos as int].status, *event) ==> {
                &&& final(self)@ == old(self)@
                &&& outcome matches Err(AppError::InternalError(text))
                &&& text@ == bad_transition_text()
            },
    {
        if pos >= self.rows.len() {
            return Err(
                AppError::InternalError(
                    String::from_str("retry queue update failed: no such entry"),
                ),
            );
        }
        let ghost before = self@;
        let row = &self.rows[pos];
        assert(row@ == before[pos as int]);
        assert(before[pos as int].wf());
        let active = match row.status {
            MutationStatus::Queued => true,
            MutationStatus::Retrying => true,
            _ => false,
        };
        let retrying = match row.status {
            MutationStatus::Retrying => true,
            _ => false,
        };
        let allowed = match event {
            AttemptEvent::PayloadRejected { .. } => active,
            AttemptEvent::Started => active,
            AttemptEvent::Delivered => retrying,
            AttemptEvent::Failed { .. } => retrying,
        };
        if !allowed {
            return Err(
                AppError::InternalError(
                    String::from_str("retry queue update failed: transition not allowed"),
                ),
            );
        }
        let mut next = row.clone();
        let mut published: Option<RetryQueueEvent> = None;
        next.updated_at = now;
        match event {
            AttemptEvent::PayloadRejected { reason } => {
                next.status = MutationStatus::Failed;
                next.attempts = next.attempts + 1;
                next.last_error = String::from_str("Invalid retry payload: ").concat(
                    reason.as_str(),
                );
            },
            AttemptEvent::Started => {
                next.status = MutationStatus::Retrying;
            },
            AttemptEvent::Delivered => {
                next.status = MutationStatus::Sent;
                next.sent_at = Some(now);
                published = Some(RetryQueueEvent { id: next.id.clone() });
            },
            AttemptEvent::Failed { reason } => {
                let delay: u64 = backoff_delay_secs(next.attempts);
                next.attempts = next.attempts + 1;
                next.last_error = reason.clone();
                if next.attempts >= MAX_ATTEMPTS {
                    next.status = MutationStatus::Failed;
                    next.next_retry_at = now;
                } else {
                    next.status = MutationStatus::Queued;
                    next.next_retry_at = now + (delay * 1000) as i64;
                }
            },
        }
        assert(next@ == entry_after(before[pos as int], *event, now as int));
        self.rows.set(pos, next);
        proof {
            assert(self@ =~= before.update(
                pos as int,
                entry_after(before[pos as int], *event, now as int),
            ));
            assert forall|i: int, j: int| 0 <= i < j < self@.len() implies (#[trigger] self@[i]).id
                != (#[trigger] self@[j]).id by {
                assert(before[i].id != before[j].id);
            }
            assert forall|i: int| 0 <= i < self@.len() implies (#[trigger] self@[i]).wf() by {
                assert(before[i].wf());
            }
        }
        Ok(published)
    }

    /// Finds the due entry that comes first after `last`, if any.
    fn next_due(&self, owner: &String, now: i64, last: Option<usize>) -> (best: Option<usize>)
        requires
            last matches Some(l) ==> l < self@.len(),
        ensures
            match best {
                Some(b) => {
                    &&& b < self@.len()
                    &&& is_candidate(self@, owner@, now as int, last, b as int)
                    &&& forall|k: int|
                        0 <= k < self@.len() && #[trigger] is_candidate(
                            self@,
                            owner@,
                            now as int,
                            last,
                            k,
                        ) ==> k == b || precedes(self@, b as int, k)
                },
                None => forall|k: int|
                    0 <= k < self@.len() ==> !#[trigger] is_candidate(
                        self@,
                        owner@,
                        now as int,
                        last,
                        k,
                    ),
            },
    {
        let mut best: Option<usize> = None;
        let mut j: usize = 0;
        while j < self.rows.len()
            invariant
                j <= self.rows@.len(),
                self@.len() == self.rows@.len(),
                last matches Some(l) ==> l < self@.len(),
                match best {
                    Some(b) => {
                        &&& b < j
                        &&& is_candidate(self@, owner@, now as int, last, b as int)
                        &&& forall|k: int|
                            0 <= k < j && #[trigger] is_candidate(
                                self@,
                                owner@,
                                now as int,
                                last,
                                k,
                            ) ==> k == b || precedes(self@, b as int, k)
                    },
                    None => forall|k: int|
                        0 <= k < j ==> !#[trigger] is_candidate(
                            self@,
                            owner@,
                            now as int,
                            last,
                            k,
                        ),
                },
            decreases self.rows@.len() - j,
        {
            let row = &self.rows[j];
            assert(row@ == self@[j as int]);
            let active = match row.status {
                MutationStatus::Queued => true,
                MutationStatus::Retrying => true,
                _ => false,
            };
            let due = active && row.next_retry_at <= now && row.owner == *owner;
            let after_last = match last {
                Some(l) => {
                    let prior = &self.rows[l];
                    assert(prior@ == self@[l as int]);
                    prior.created_at < row.created_at || (prior.created_at == row.created_at && l
                        < j)
                },
                None => true,
            };
            assert((due && after_last) == is_candidate(self@, owner@, now as int, last, j as int));
            if due && after_last {
                let better = match best {
                    Some(b) => {
                        let held = &self.rows[b];
                        assert(held@ == self@[b as int]);
                        row.created_at < held.created_at
                    },
                    None => true,
                };
                if better {
                    best = Some(j);
                }
            }
            j = j + 1;
        }
        best
    }

    /// Selects what a sweep at `now` attempts: the places of the due entries
    /// of `identity`, oldest first, at most [`SWEEP_BATCH`] of them. Without an
    /// identity nothing is selected.
    pub fn due_batch(&self, identity: Option<&str>, now: i64) -> (batch: Vec<usize>)
        ensures
            identity is None ==> batch@.len() == 0,
            identity matches Some(owner) ==> is_due_batch(self@, owner@, now as int, batch@),
    {
        let mut picked: Vec<usize> = Vec::new();
        let owner: String = match identity {
            Some(name) => name.to_owned(),
            None => {
                return picked;
            },
        };
        let mut last: Option<usize> = None;
        let mut exhausted = false;
        while picked.len() < SWEEP_BATCH && !exhausted
            invariant
                picked@.len() <= SWEEP_BATCH,
                match last {
                    Some(l) => picked@.len() > 0 && picked@[picked@.len() - 1] == l,
                    None => picked@.len() == 0,
                },
                forall|k: int|
                    0 <= k < picked@.len() ==> (#[trigger] picked@[k]) < self@.len()
                        && self@[picked@[k] as int].is_due(owner@, now as int),
                forall|a: int, b: int|
                    0 <= a < b < picked@.len() ==> precedes(
                        self@,
                        (#[trigger] picked@[a]) as int,
                        (#[trigger] picked@[b]) as int,
                    ),
                forall|j: int|
                    0 <= j < self@.len() && (#[trigger] self@[j]).is_due(owner@, now as int)
                        && !is_picked(picked@, j) ==> !exhausted && is_candidate(
                        self@,
                        owner@,
                        now as int,
                        last,
                        j,
                    ),
            decreases SWEEP_BATCH - picked@.len() + (if exhausted { 0int } else { 1int }),
        {
            let ghost before = picked@;
            match self.next_due(&owner, now, last) {
                Some(b) => {
                    picked.push(b);
                    last = Some(b);
                    proof {
                        assert(picked@[before.len() as int] == b);
                        assert forall|a: int, c: int| 0 <= a < c < picked@.len() implies precedes(
                            self@,
                            (#[trigger] picked@[a]) as int,
                            (#[trigger] picked@[c]) as int,
                        ) by {
                            if c == before.len() {
                                assert(picked@[a] == before[a]);
                                if a < before.len() - 1 {
                                    assert(precedes(
                                        self@,
                                        before[a] as int,
                                        before[before.len() - 1] as int,
                                    ));
                                }
                            } else {
                                assert(picked@[a] == before[a]);
                                assert(picked@[c] == before[c]);
                            }
                        }
                        assert forall|j: int|
                            0 <= j < self@.len() && (#[trigger] self@[j]).is_due(
                                owner@,
                                now as int,
                            ) && !is_picked(picked@, j) implies !exhausted && is_candidate(
                            self@,
                            owner@,
                            now as int,
                            last,
                            j,
                        ) by {
                            if is_picked(before, j) {
                                let k = choose|k: int| 0 <= k < before.len() && before[k] == j;
                                assert(picked@[k] == j);
                                assert(is_picked(picked@, j));
                            }
                            assert(j != b) by {
                                if j == b {
                                    assert(picked@[before.len() as int] == j);
                                    assert(is_picked(picked@, j));
                                }
                            }
                        }
                    }
                },
                None => {
                    exhausted = true;
                    proof {
                        assert forall|j: int|
                            0 <= j < self@.len() && (#[trigger] self@[j]).is_due(
                                owner@,
                                now as int,
                            ) implies is_picked(picked@, j) by {
                            if !is_picked(picked@, j) {
                                assert(is_candidate(self@, owner@, now as int, last, j));
                            }
                        }
                    }
                },
            }
        }
        proof {
            assert forall|j: int|
                0 <= j < self@.len() && (#[trigger] self@[j]).is_due(owner@, now as int)
                    && !is_picked(picked@, j) implies picked@.len() == SWEEP_BATCH && precedes(
                self@,
                picked@[picked@.len() - 1] as int,
                j,
            ) by {
                assert(is_candidate(self@, owner@, now as int, last, j));
            }
        }
        picked
    }
}

/// The entry after a sweep has started an attempt at each of the instants
/// `times`, in turn, and every attempt has ended in `failure`. Once the entry
/// is final nothing more happens to it.
pub open spec fn after_failed_attempts(
    row: MutationView,
    failure: AttemptEvent,
    times: Seq<int>,
) -> MutationView
    decreases times.len(),
{
    if times.len() == 0 {
        row
    } else {
        let earlier = after_failed_attempts(row, failure, times.drop_last());
        if earlier.status.is_active() {
            entry_after(entry_after(earlier, AttemptEvent::Started, times.last()), failure, times.last())
        } else {
            earlier
        }
    }
}

/// A newly queued entry is queued, counts one attempt, is due from the
/// moment it was queued, and keeps the bounds of an entry.
pub proof fn lemma_fresh_entry(
    id: Seq<char>,
    owner: Seq<char>,
    payload: Seq<char>,
    reason: Seq<char>,
    now: int,
)
    ensures
        fresh_entry(id, owner, payload, reason, now).status is Queued,
        fresh_entry(id, owner, payload, reason, now).attempts == 1,
        fresh_entry(id, owner, payload, reason, now).next_retry_at <= now,
        fresh_entry(id, owner, payload, reason, now).wf(),
        forall|later: int|
            now <= later ==> fresh_entry(id, owner, payload, reason, now).is_due(owner, later),
{
}

/// Every event that an entry takes leaves it within its bounds, never
/// lowers the count of attempts, and keeps its identity, owner, payload and
/// creation time. A final entry takes no event at all.
pub proof fn lemma_transitions_go_forward(row: MutationView, event: AttemptEvent, now: int)
    requires
        row.wf(),
    ensures
        row.status.is_terminal() ==> !accepts(row.status, event),
        accepts(row.status, event) ==> {
            &&& entry_after(row, event, now).wf()
            &&& entry_after(row, event, now).attempts >= row.attempts
            &&& entry_after(row, event, now).id == row.id
            &&& entry_after(row, event, now).owner == row.owner
            &&& entry_after(row, event, now).payload == row.payload
            &&& entry_after(row, event, now).created_at == row.created_at
        },
{
}

/// A failed attempt that brings the count to [`MAX_ATTEMPTS`] ends the
/// entry; one that leaves it below queues the entry again, due after the
/// backoff delay for the count before it: thirty seconds after the first
/// retry, a minute after the second, and so on.
pub proof fn lemma_failure_outcome(row: MutationView, event: AttemptEvent, now: int)
    requires
        row.wf(),
        row.status is Retrying,
        event is Failed,
    ensures
        entry_after(row, event, now).attempts == row.attempts + 1,
        row.attempts + 1 == MAX_ATTEMPTS ==> entry_after(row, event, now).status is Failed,
        row.attempts + 1 < MAX_ATTEMPTS ==> {
            &&& entry_after(row, event, now).status is Queued
            &&& entry_after(row, event, now).next_retry_at == now + 1000 * backoff_secs(
                row.attempts as int,
            )
        },
{
}

/// An entry whose payload cannot be decoded is given up at once: it goes
/// from queued, or from an attempt left unfinished, straight to failed, is
/// never marked as under way, and gets neither a delivery time nor a new
/// retry time. The count of attempts rises by the one that was refused.
pub proof fn lemma_rejected_payload(row: MutationView, event: AttemptEvent, now: int)
    requires
        row.wf(),
        row.status.is_active(),
        event is PayloadRejected,
    ensures
        accepts(row.status, event),
        entry_after(row, event, now).status is Failed,
        entry_after(row, event, now).attempts == row.attempts + 1,
        entry_after(row, event, now).next_retry_at == row.next_retry_at,
        entry_after(row, event, now).sent_at is None,
        entry_after(row, event, now).last_error == rejection_text(event->PayloadRejected_reason@),
{
}

/// An entry that counts `n` attempts and is still active has failed
/// once it has been attempted [`MAX_ATTEMPTS`]` - n` more times in vain, and
/// then counts exactly [`MAX_ATTEMPTS`]; further sweeps leave it alone.
pub proof fn lemma_given_up_after_limit(row: MutationView, failure: AttemptEvent, times: Seq<int>)
    requires
        row.wf(),
        row.status.is_active(),
        failure is Failed,
    ensures
        after_failed_attempts(row, failure, times).wf(),
        times.len() < MAX_ATTEMPTS - row.attempts ==> {
            &&& after_failed_attempts(row, failure, times).status.is_active()
            &&& after_failed_attempts(row, failure, times).attempts == row.attempts + times.len()
        },
        times.len() >= MAX_ATTEMPTS - row.attempts ==> {
            &&& after_failed_attempts(row, failure, times).status is Failed
            &&& after_failed_attempts(row, failure, times).attempts == MAX_ATTEMPTS
        },
    decreases times.len(),
{
    if times.len() > 0 {
        lemma_given_up_after_limit(row, failure, times.drop_last());
    }
}

/// A sweep attempts only active entries: an entry that was sent or given up
/// is at no place of any batch, for any owner and at any time.
pub proof fn lemma_final_entries_are_left_alone(
    rows: Seq<MutationView>,
    owner: Seq<char>,
    now: int,
    picked: Seq<usize>,
    j: int,
)
    requires
        is_due_batch(rows, owner, now, picked),
        0 <= j < rows.len(),
        rows[j].status.is_terminal(),
    ensures
        !is_picked(picked, j),
{
    if is_picked(picked, j) {
        let k = choose|k: int| 0 <= k < picked.len() && picked[k] == j;
        assert(rows[picked[k] as int].is_due(owner, now));
    }
}

/// A batch never holds more than [`SWEEP_BATCH`] places, holds no place
/// twice, and runs through the creation times in ascending order.
pub proof fn lemma_batch_is_bounded_and_ordered(
    rows: Seq<MutationView>,
    owner: Seq<char>,
    now: int,
    picked: Seq<usize>,
    a: int,
    b: int,
)
    requires
        is_due_batch(rows, owner, now, picked),
        0 <= a < b < picked.len(),
    ensures
        picked.len() <= SWEEP_BATCH,
        picked[a] != picked[b],
        rows[picked[a] as int].created_at <= rows[picked[b] as int].created_at,
{
    assert(precedes(rows, picked[a] as int, picked[b] as int));
}

proof fn lemma_batches_cannot_part(
    rows: Seq<MutationView>,
    owner: Seq<char>,
    now: int,
    p: Seq<usize>,
    q: Seq<usize>,
    m: int,
)
    requires
        is_due_batch(rows, owner, now, p),
        is_due_batch(rows, owner, now, q),
        0 <= m < p.len(),
        m < q.len(),
        forall|i: int| 0 <= i < m ==> p[i] == q[i],
    ensures
        !precedes(rows, p[m] as int, q[m] as int),
{
    if precedes(rows, p[m] as int, q[m] as int) {
        let x = p[m] as int;
        assert(rows[x].is_due(owner, now));
        assert forall|j: int| 0 <= j < q.len() implies q[j] != x by {
            if q[j] == x {
                if j < m {
                    assert(p[j] == q[j]);
                    assert(precedes(rows, p[j] as int, p[m] as int));
                } else if j > m {
                    assert(precedes(rows, q[m] as int, q[j] as int));
                }
            }
        }
        assert(!is_picked(q, x));
        assert(precedes(rows, q[q.len() - 1] as int, x));
        if m < q.len() - 1 {
            assert(precedes(rows, q[m] as int, q[q.len() - 1] as int));
        }
    }
}

/// The batch of a sweep is determined: two sequences that both are the
/// batch for the same queue, owner and time are the same sequence.
pub proof fn lemma_due_batch_is_unique(
    rows: Seq<MutationView>,
    owner: Seq<char>,
    now: int,
    p: Seq<usize>,
    q: Seq<usize>,
)
    requires
        is_due_batch(rows, owner, now, p),
        is_due_batch(rows, owner, now, q),
    ensures
        p == q,
{
    let shorter = if p.len() <= q.len() {
        p.len() as int
    } else {
        q.len() as int
    };
    assert forall|m: int| 0 <= m < shorter implies p[m] == q[m] by {
        lemma_batches_agree(rows, owner, now, p, q, m);
    }
    if p.len() <= q.len() {
        lemma_batches_end_together(rows, owner, now, p, q);
    } else {
        lemma_batches_end_together(rows, owner, now, q, p);
    }
    assert(p =~= q);
}

proof fn lemma_batches_agree(
    rows: Seq<MutationView>,
    owner: Seq<char>,
    now: int,
    p: Seq<usize>,
    q: Seq<usize>,
    m: int,
)
    requires
        is_due_batch(rows, owner, now, p),
        is_due_batch(rows, owner, now, q),
        0 <= m < p.len(),
        m < q.len(),
    ensures
        forall|i: int| 0 <= i <= m ==> p[i] == q[i],
    decreases m,
{
    if m > 0 {
        lemma_batches_agree(rows, owner, now, p, q, m - 1);
    }
    assert(p[m] < rows.len() && q[m] < rows.len());
    lemma_batches_cannot_part(rows, owner, now, p, q, m);
    lemma_batches_cannot_part(rows, owner, now, q, p, m);
}

proof fn lemma_batches_end_together(
    rows: Seq<MutationView>,
    owner: Seq<char>,
    now: int,
    p: Seq<usize>,
    q: Seq<usize>,
)
    requires
        is_due_batch(rows, owner, now, p),
        is_due_batch(rows, owner, now, q),
        p.len() <= q.len(),
        forall|i: int| 0 <= i < p.len() ==> p[i] == q[i],
    ensures
        p.len() == q.len(),
{
    if p.len() < q.len() {
        let y = q[p.len() as int] as int;
        assert(rows[y].is_due(owner, now));
        assert forall|j: int| 0 <= j < p.len() implies p[j] != y by {
            if p[j] == y {
                assert(q[j] == p[j]);
                assert(precedes(rows, q[j] as int, q[p.len() as int] as int));
            }
        }
        assert(!is_picked(p, y));
    }
}

} // verus!

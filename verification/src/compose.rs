//! The write path: what becomes of a post after the attempt to send it at
//! once.
//!
//! A post that went out leaves no draft behind. One that failed for a reason
//! worth retrying is queued, announced, and its draft removed as well, since
//! the queue now holds it. Any other failure is reported, and the draft
//! stays for the author to mend.

use vstd::prelude::*;
use vstd::string::*;
use crate::clock::{now_millis, CLOCK_LIMIT_MILLIS};
use crate::drafts::{CreatePostPayload, DraftStore, DraftView};
use crate::error::{should_enqueue_retry, AppError};
use crate::ids::{fresh_id, is_hyphenated_id};
use crate::outbox::{
    duplicate_id_text, fresh_entry, has_id, holds_drawn_id, MutationView, Outbox, RetryQueueEvent,
};
use crate::text::{opt_str_text};

verus! {

/// Whether the attempt leaves the post to the outbox: it failed, and for a
/// reason worth retrying.
pub open spec fn goes_to_outbox(outcome: Result<(), AppError>) -> bool {
    outcome matches Err(error) && error.is_retryable()
}

/// The queue after the attempt: one entry longer where the post goes to the
/// outbox under an id that is free, else unchanged.
pub open spec fn outbox_after_send(
    queue: Seq<MutationView>,
    id: Seq<char>,
    owner: Seq<char>,
    encoded: Seq<char>,
    outcome: Result<(), AppError>,
    now: int,
) -> Seq<MutationView> {
    if goes_to_outbox(outcome) && !has_id(queue, id) {
        queue.push(fresh_entry(id, owner, encoded, outcome->Err_0.message_text(), now))
    } else {
        queue
    }
}

/// The drafts after the attempt: the draft of the post's context is gone
/// where the post went out or was queued, and stays where the failure is
/// reported.
pub open spec fn drafts_after_send(
    drafts: Map<Seq<char>, DraftView>,
    queue: Seq<MutationView>,
    id: Seq<char>,
    key: Seq<char>,
    outcome: Result<(), AppError>,
) -> Map<Seq<char>, DraftView> {
    if outcome is Ok || (goes_to_outbox(outcome) && !has_id(queue, id)) {
        drafts.remove(key)
    } else {
        drafts
    }
}

/// Settles a post after the attempt to send it at once.
///
/// `encoded` is the serialized form of `payload`, kept in the queue; `id` is
/// the id for the queue entry should one be needed. The caller gets `Ok` for
/// a post that went out (`None`) or was queued (the event to publish), and
/// the error otherwise: the attempt's own, or that of an id already taken.
pub fn finish_post(
    outbox: &mut Outbox,
    drafts: &mut DraftStore,
    owner: &str,
    payload: &CreatePostPayload,
    encoded: &str,
    outcome: Result<(), AppError>,
    id: &str,
    now: i64,
) -> (settled: Result<Option<RetryQueueEvent>, AppError>)
    requires
        old(outbox).inv(),
        old(drafts).inv(),
    ensures
        final(outbox).inv(),
        final(drafts).inv(),
        final(outbox)@ == outbox_after_send(
            old(outbox)@,
            id@,
            owner@,
            encoded@,
            outcome,
            now as int,
        ),
        final(drafts)@ == drafts_after_send(
            old(drafts)@,
            old(outbox)@,
            id@,
            payload@.context_key(),
            outcome,
        ),
        match outcome {
            Ok(_) => settled matches Ok(None),
            Err(error) => if !error.is_retryable() {
                settled == Err::<Option<RetryQueueEvent>, AppError>(error)
            } else if has_id(old(outbox)@, id@) {
                &&& settled matches Err(AppError::InternalError(text))
                &&& text@ == duplicate_id_text()
            } else {
                &&& settled matches Ok(Some(event))
                &&& event.id@ == id@
            },
        },
{
    match outcome {
        Ok(_) => {
            let key = payload.context_key();
            drafts.clear(key.as_str());
            Ok(None)
        },
        Err(error) => {
            if !should_enqueue_retry(&error) {
                return Err(error);
            }
            match outbox.enqueue(id, owner, encoded, &error, now) {
                Ok(event) => {
                    let key = payload.context_key();
                    drafts.clear(key.as_str());
                    Ok(Some(event))
                },
                Err(storage) => Err(storage),
            }
        },
    }
}

/// Settles a post as [`finish_post`] does, under a newly drawn id and at the
/// present time.
///
/// Whatever id and time come back from outside: a post that went out leaves
/// the queue alone and removes its draft; a failure not worth retrying is
/// handed back and changes nothing; a failure worth retrying either adds one
/// queued entry and removes the draft, or, should the id be taken, is
/// answered with that error and changes nothing. Only an entry whose id has
/// the shape of a drawn one can take it, so with a queue that holds no such
/// entry, an empty one above all, a failure worth retrying is always queued.
pub fn finish_post_now(
    outbox: &mut Outbox,
    drafts: &mut DraftStore,
    owner: &str,
    payload: &CreatePostPayload,
    encoded: &str,
    outcome: Result<(), AppError>,
) -> (settled: Result<Option<RetryQueueEvent>, AppError>)
    requires
        old(outbox).inv(),
        old(drafts).inv(),
    ensures
        final(outbox).inv(),
        final(drafts).inv(),
        goes_to_outbox(outcome) && old(outbox)@.len() == 0 ==> settled is Ok,
        goes_to_outbox(outcome) && settled is Err ==> holds_drawn_id(old(outbox)@),
        settled matches Ok(Some(event)) ==> (is_hyphenated_id(event.id@) && 0 <= final(outbox)@.last().created_at
            < CLOCK_LIMIT_MILLIS),
        match outcome {
            Ok(_) => {
                &&& settled matches Ok(None)
                &&& final(outbox)@ == old(outbox)@
                &&& final(drafts)@ == old(drafts)@.remove(payload@.context_key())
            },
            Err(error) => if !error.is_retryable() {
                &&& settled == Err::<Option<RetryQueueEvent>, AppError>(error)
                &&& final(outbox)@ == old(outbox)@
                &&& final(drafts)@ == old(drafts)@
            } else {
                match settled {
                    Ok(Some(event)) => {
                        &&& !has_id(old(outbox)@, event.id@)
                        &&& final(outbox)@ == old(outbox)@.push(
                            fresh_entry(
                                event.id@,
                                owner@,
                                encoded@,
                                error.message_text(),
                                final(outbox)@.last().created_at,
                            ),
                        )
                        &&& final(drafts)@ == old(drafts)@.remove(payload@.context_key())
                    },
                    Ok(None) => false,
                    Err(storage) => {
                        &&& storage matches AppError::InternalError(text)
                        &&& text@ == duplicate_id_text()
                        &&& final(outbox)@ == old(outbox)@
                        &&& final(drafts)@ == old(drafts)@
                    },
                }
            },
        },
{
    let id = fresh_id();
    let now = now_millis();
    finish_post(outbox, drafts, owner, payload, encoded, outcome, id.as_str(), now)
}

/// A post that went out, or that the outbox took, leaves no draft for its
/// context; a failure that is reported leaves every draft as it was.
pub proof fn lemma_draft_follows_post(
    drafts: Map<Seq<char>, DraftView>,
    queue: Seq<MutationView>,
    id: Seq<char>,
    key: Seq<char>,
    outcome: Result<(), AppError>,
)
    ensures
        outcome is Ok ==> !drafts_after_send(drafts, queue, id, key, outcome).contains_key(key),
        goes_to_outbox(outcome) && !has_id(queue, id) ==> !drafts_after_send(
            drafts,
            queue,
            id,
            key,
            outcome,
        ).contains_key(key),
        outcome is Err && !goes_to_outbox(outcome) ==> drafts_after_send(
            drafts,
            queue,
            id,
            key,
            outcome,
        ) == drafts,
{
}

/// What a post embeds, going by what it carries.
#[derive(Clone, Copy, Debug, PartialEq, Eq, Structural)]
pub enum EmbedShape {
    /// Nothing.
    Plain,
    /// Images only.
    Images,
    /// A quoted record only.
    Record,
    /// A quoted record beside images.
    RecordWithMedia,
}

/// The shape of the embed of a post with `images` uploaded images, with or
/// without a quoted record.
pub open spec fn shape_for(images: nat, quoted: bool) -> EmbedShape {
    if images > 0 && quoted {
        EmbedShape::RecordWithMedia
    } else if images > 0 {
        EmbedShape::Images
    } else if quoted {
        EmbedShape::Record
    } else {
        EmbedShape::Plain
    }
}

/// Chooses the shape of the embed of a post.
pub fn embed_shape(images: usize, quoted: bool) -> (shape: EmbedShape)
    ensures
        shape == shape_for(images as nat, quoted),
{
    if images > 0 && quoted {
        EmbedShape::RecordWithMedia
    } else if images > 0 {
        EmbedShape::Images
    } else if quoted {
        EmbedShape::Record
    } else {
        EmbedShape::Plain
    }
}

/// A record, pointed at by its address and its content id.
#[derive(Debug)]
pub struct StrongRef {
    pub uri: String,
    pub cid: String,
}

impl StrongRef {
    /// The address and the content id, as texts.
    pub open spec fn texts(&self) -> (Seq<char>, Seq<char>) {
        (self.uri@, self.cid@)
    }
}

/// The record that a composition quotes: there is one only where both its
/// address and its content id are given.
pub open spec fn quoted_texts(
    quote_uri: Option<Seq<char>>,
    quote_cid: Option<Seq<char>>,
) -> Option<(Seq<char>, Seq<char>)> {
    match (quote_uri, quote_cid) {
        (Some(uri), Some(cid)) => Some((uri, cid)),
        _ => None,
    }
}

/// Finds the record that a composition quotes.
pub fn quote_target(quote_uri: Option<&str>, quote_cid: Option<&str>) -> (target: Option<StrongRef>)
    ensures
        match target {
            Some(quoted) => quoted_texts(opt_str_text(quote_uri), opt_str_text(quote_cid)) == Some(
                quoted.texts(),
            ),
            None => quoted_texts(opt_str_text(quote_uri), opt_str_text(quote_cid)) is None,
        },
{
    match (quote_uri, quote_cid) {
        (Some(uri), Some(cid)) => Some(StrongRef { uri: uri.to_owned(), cid: cid.to_owned() }),
        _ => None,
    }
}

/// What a reply points at: the post it answers, and the post that started
/// the thread.
#[derive(Debug)]
pub struct ReplyRefs {
    pub root: StrongRef,
    pub parent: StrongRef,
}

/// Works out what a reply points at. `parent_root` is the root that the
/// answered post itself names, if it is a reply; a post that is none starts
/// its own thread.
pub fn reply_refs(parent: StrongRef, parent_root: Option<StrongRef>) -> (refs: ReplyRefs)
    ensures
        refs.parent.texts() == parent.texts(),
        refs.root.texts() == match parent_root {
            Some(root) => root.texts(),
            None => parent.texts(),
        },
{
    let root = match parent_root {
        Some(root) => root,
        None => StrongRef { uri: parent.uri.clone(), cid: parent.cid.clone() },
    };
    ReplyRefs { root, parent }
}

} // verus!

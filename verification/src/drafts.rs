//! Drafts: the unsent composition of each compositional context.
//!
//! A context is what the composition answers to: a post replied to, a post
//! quoted, or nothing. Each context holds at most one draft; saving replaces
//! it, and saving an empty composition removes it.
//!
//! Instants are milliseconds since the Unix epoch.

use vstd::prelude::*;
use vstd::string::*;
use crate::clock::{format_rfc3339, rfc3339_text};
use crate::error::AppError;
use crate::text::{blank, clone_opt, is_blank_text, opt_str_text, opt_text};

verus! {

/// An image attached to a composition.
#[derive(Debug)]
pub struct ImageInput {
    pub path: String,
    pub alt: String,
}

/// What an [`ImageInput`] holds.
pub struct ImageInputView {
    pub path: Seq<char>,
    pub alt: Seq<char>,
}

impl View for ImageInput {
    type V = ImageInputView;

    open spec fn view(&self) -> ImageInputView {
        ImageInputView { path: self.path@, alt: self.alt@ }
    }
}

impl Clone for ImageInput {
    fn clone(&self) -> (copy: Self)
        ensures
            copy == *self,
    {
        ImageInput { path: self.path.clone(), alt: self.alt.clone() }
    }
}

/// The views of a sequence of images.
pub open spec fn image_views(images: Seq<ImageInput>) -> Seq<ImageInputView> {
    Seq::new(images.len(), |i: int| images[i]@)
}

/// A copy of a list of images.
pub fn clone_images(images: &Vec<ImageInput>) -> (copy: Vec<ImageInput>)
    ensures
        copy@ == images@,
{
    let mut copy: Vec<ImageInput> = Vec::new();
    let mut i: usize = 0;
    while i < images.len()
        invariant
            i <= images@.len(),
            copy@ == images@.subrange(0, i as int),
        decreases images@.len() - i,
    {
        copy.push(images[i].clone());
        assert(copy@ =~= images@.subrange(0, i + 1));
        i = i + 1;
    }
    assert(copy@ =~= images@);
    copy
}

/// A composition: the arguments of publishing a post.
#[derive(Debug)]
pub struct CreatePostPayload {
    pub text: String,
    /// The post replied to, if any.
    pub reply_to: Option<String>,
    /// The post quoted, if any, and its content id.
    pub quote_uri: Option<String>,
    pub quote_cid: Option<String>,
    pub images: Vec<ImageInput>,
}

/// What a [`CreatePostPayload`] holds.
pub struct PayloadView {
    pub text: Seq<char>,
    pub reply_to: Option<Seq<char>>,
    pub quote_uri: Option<Seq<char>>,
    pub quote_cid: Option<Seq<char>>,
    pub images: Seq<ImageInputView>,
}

impl View for CreatePostPayload {
    type V = PayloadView;

    open spec fn view(&self) -> PayloadView {
        PayloadView {
            text: self.text@,
            reply_to: opt_text(self.reply_to),
            quote_uri: opt_text(self.quote_uri),
            quote_cid: opt_text(self.quote_cid),
            images: image_views(self.images@),
        }
    }
}

impl PayloadView {
    /// Whether the composition has neither content nor attachments.
    pub open spec fn is_empty(self) -> bool {
        is_blank_text(self.text) && self.images.len() == 0
    }

    /// The key of the context that the composition belongs to.
    pub open spec fn context_key(self) -> Seq<char> {
        draft_key_text(self.reply_to, self.quote_uri)
    }
}

impl Clone for CreatePostPayload {
    fn clone(&self) -> (copy: Self)
        ensures
            copy@ == self@,
    {
        CreatePostPayload {
            text: self.text.clone(),
            reply_to: clone_opt(&self.reply_to),
            quote_uri: clone_opt(&self.quote_uri),
            quote_cid: clone_opt(&self.quote_cid),
            images: clone_images(&self.images),
        }
    }
}

impl CreatePostPayload {
    /// Tells whether the composition has neither content nor attachments.
    pub fn is_empty(&self) -> (empty: bool)
        ensures
            empty == self@.is_empty(),
    {
        blank(self.text.as_str()) && self.images.len() == 0
    }

    /// The key of the context that the composition belongs to.
    pub fn context_key(&self) -> (key: String)
        ensures
            key@ == self@.context_key(),
    {
        let reply: Option<&str> = match &self.reply_to {
            Some(uri) => Some(uri.as_str()),
            None => None,
        };
        let quote: Option<&str> = match &self.quote_uri {
            Some(uri) => Some(uri.as_str()),
            None => None,
        };
        draft_key(reply, quote)
    }
}

/// The key of a context: `reply:` and the post replied to; without a reply,
/// `quote:` and the post quoted; without either, `post:new`.
pub open spec fn draft_key_text(
    reply_to: Option<Seq<char>>,
    quote_uri: Option<Seq<char>>,
) -> Seq<char> {
    match reply_to {
        Some(reply) => "reply:"@ + reply,
        None => match quote_uri {
            Some(quote) => "quote:"@ + quote,
            None => "post:new"@,
        },
    }
}

/// Computes the key of the context given by a reply target and a quote target.
pub fn draft_key(reply_to: Option<&str>, quote_uri: Option<&str>) -> (key: String)
    ensures
        key@ == draft_key_text(opt_str_text(reply_to), opt_str_text(quote_uri)),
{
    match reply_to {
        Some(reply) => String::from_str("reply:").concat(reply),
        None => match quote_uri {
            Some(quote) => String::from_str("quote:").concat(quote),
            None => String::from_str("post:new"),
        },
    }
}

/// A stored draft.
#[derive(Debug)]
pub struct Draft {
    /// The key of the context; unique in a store.
    pub key: String,
    pub payload: CreatePostPayload,
    /// When the context first got a draft that has been kept since.
    pub created_at: i64,
    /// When the draft was last saved.
    pub updated_at: i64,
}

/// What a store holds under a key.
pub struct DraftView {
    pub payload: PayloadView,
    pub created_at: int,
    pub updated_at: int,
}

impl Draft {
    /// What the draft holds besides its key.
    pub open spec fn content(&self) -> DraftView {
        DraftView {
            payload: self.payload@,
            created_at: self.created_at as int,
            updated_at: self.updated_at as int,
        }
    }
}

/// The draft that saving `payload` at `now` leaves under its key: a first
/// draft is created at `now`, a later one keeps the creation time.
pub open spec fn saved_draft(
    drafts: Map<Seq<char>, DraftView>,
    key: Seq<char>,
    payload: PayloadView,
    now: int,
) -> DraftView {
    DraftView {
        payload,
        created_at: if drafts.contains_key(key) {
            drafts[key].created_at
        } else {
            now
        },
        updated_at: now,
    }
}

/// The drafts after `payload` has been saved at `now`: without content or
/// attachments the draft of its context is removed, else it is replaced.
pub open spec fn drafts_after_save(
    drafts: Map<Seq<char>, DraftView>,
    payload: PayloadView,
    now: int,
) -> Map<Seq<char>, DraftView> {
    if payload.is_empty() {
        drafts.remove(payload.context_key())
    } else {
        drafts.insert(
            payload.context_key(),
            saved_draft(drafts, payload.context_key(), payload, now),
        )
    }
}

/// Whether one of `slots` is for `key`.
pub open spec fn holds_key(slots: Seq<Draft>, key: Seq<char>) -> bool {
    exists|i: int| 0 <= i < slots.len() && (#[trigger] slots[i]).key@ == key
}

/// The place of a slot for `key`.
pub open spec fn slot_of(slots: Seq<Draft>, key: Seq<char>) -> int {
    choose|i: int| 0 <= i < slots.len() && (#[trigger] slots[i]).key@ == key
}

/// No two slots are for the same key.
pub open spec fn keys_distinct(slots: Seq<Draft>) -> bool {
    forall|i: int, j: int|
        0 <= i < j < slots.len() ==> (#[trigger] slots[i]).key@ != (#[trigger] slots[j]).key@
}

/// The drafts that `slots` hold, by key.
pub open spec fn drafts_of(slots: Seq<Draft>) -> Map<Seq<char>, DraftView> {
    Map::new(
        |key: Seq<char>| holds_key(slots, key),
        |key: Seq<char>| slots[slot_of(slots, key)].content(),
    )
}

proof fn lemma_slot(slots: Seq<Draft>, i: int)
    requires
        keys_distinct(slots),
        0 <= i < slots.len(),
    ensures
        holds_key(slots, slots[i].key@),
        slot_of(slots, slots[i].key@) == i,
        drafts_of(slots).contains_key(slots[i].key@),
        drafts_of(slots)[slots[i].key@] == slots[i].content(),
{
    let key = slots[i].key@;
    assert(slots[i].key@ == key);
    let j = slot_of(slots, key);
    assert(0 <= j < slots.len() && slots[j].key@ == key);
    if j != i {
        if j < i {
            assert(slots[j].key@ != slots[i].key@);
        } else {
            assert(slots[i].key@ != slots[j].key@);
        }
    }
}

/// The drafts, one slot per context.
pub struct DraftStore {
    slots: Vec<Draft>,
}

impl View for DraftStore {
    type V = Map<Seq<char>, DraftView>;

    closed spec fn view(&self) -> Map<Seq<char>, DraftView> {
        drafts_of(self.slots@)
    }
}

impl DraftStore {
    /// The validity of a store: no context has two slots.
    pub closed spec fn inv(&self) -> bool {
        keys_distinct(self.slots@)
    }

    /// A store without drafts.
    pub fn new() -> (store: DraftStore)
        ensures
            store.inv(),
            store@ == Map::<Seq<char>, DraftView>::empty(),
    {
        let store = DraftStore { slots: Vec::new() };
        assert(store@ =~= Map::<Seq<char>, DraftView>::empty());
        store
    }

    fn find(&self, key: &String) -> (found: Option<usize>)
        requires
            self.inv(),
        ensures
            match found {
                Some(i) => i < self.slots@.len() && self.slots@[i as int].key@ == key@,
                None => !holds_key(self.slots@, key@),
            },
    {
        let mut i: usize = 0;
        while i < self.slots.len()
            invariant
                i <= self.slots@.len(),
                forall|k: int| 0 <= k < i ==> (#[trigger] self.slots@[k]).key@ != key@,
            decreases self.slots@.len() - i,
        {
            if self.slots[i].key == *key {
                return Some(i);
            }
            i = i + 1;
        }
        None
    }

    /// The draft under `key`, if there is one.
    pub fn load(&self, key: &str) -> (found: Option<&Draft>)
        requires
            self.inv(),
        ensures
            match found {
                Some(draft) => {
                    &&& self@.contains_key(key@)
                    &&& draft.key@ == key@
                    &&& draft.content() == self@[key@]
                },
                None => !self@.contains_key(key@),
            },
    {
        let wanted = key.to_owned();
        match self.find(&wanted) {
            Some(i) => {
                proof {
                    lemma_slot(self.slots@, i as int);
                }
                Some(&self.slots[i])
            },
            None => None,
        }
    }

    /// Puts `payload` under `key`, in place of what was there.
    pub fn save(&mut self, key: &str, payload: CreatePostPayload, now: i64)
        requires
            old(self).inv(),
        ensures
            final(self).inv(),
            final(self)@ == old(self)@.insert(
                key@,
                saved_draft(old(self)@, key@, payload@, now as int),
            ),
    {
        let wanted = key.to_owned();
        let ghost before = self.slots@;
        let ghost value = saved_draft(self@, key@, payload@, now as int);
        match self.find(&wanted) {
            Some(i) => {
                proof {
                    lemma_slot(before, i as int);
                }
                let created_at = self.slots[i].created_at;
                let draft = Draft { key: wanted, payload, created_at, updated_at: now };
                assert(draft.content() == value);
                self.slots.set(i, draft);
                proof {
                    let after = self.slots@;
                    assert(keys_distinct(after)) by {
                        assert forall|a: int, b: int| 0 <= a < b < after.len() implies (
                        #[trigger] after[a]).key@ != (#[trigger] after[b]).key@ by {
                            assert(before[a].key@ != before[b].key@);
                        }
                    }
                    assert forall|k: Seq<char>| holds_key(after, k) == holds_key(before, k) by {
                        if holds_key(after, k) {
                            let a = slot_of(after, k);
                            assert(before[a].key@ == k);
                        }
                        if holds_key(before, k) {
                            let a = slot_of(before, k);
                            assert(after[a].key@ == k);
                        }
                    }
                    assert forall|k: Seq<char>| holds_key(after, k) implies #[trigger] drafts_of(
                        after,
                    )[k] == drafts_of(before).insert(key@, value)[k] by {
                        let a = slot_of(after, k);
                        lemma_slot(after, a);
                        lemma_slot(before, a);
                    }
                    assert(drafts_of(after) =~= drafts_of(before).insert(key@, value));
                }
            },
            None => {
                let draft = Draft { key: wanted, payload, created_at: now, updated_at: now };
                assert(draft.content() == value);
                self.slots.push(draft);
                proof {
                    let after = self.slots@;
                    assert(keys_distinct(after)) by {
                        assert forall|a: int, b: int| 0 <= a < b < after.len() implies (
                        #[trigger] after[a]).key@ != (#[trigger] after[b]).key@ by {
                            if b == before.len() {
                                assert(before[a].key@ != key@);
                            } else {
                                assert(before[a].key@ != before[b].key@);
                            }
                        }
                    }
                    assert forall|k: Seq<char>|
                        holds_key(after, k) == (holds_key(before, k) || k == key@) by {
                        if holds_key(after, k) {
                            let a = slot_of(after, k);
                            if a < before.len() {
                                assert(before[a].key@ == k);
                            }
                        }
                        if holds_key(before, k) {
                            let a = slot_of(before, k);
                            assert(after[a].key@ == k);
                        }
                        if k == key@ {
                            assert(after[before.len() as int].key@ == k);
                        }
                    }
                    assert forall|k: Seq<char>| holds_key(after, k) implies #[trigger] drafts_of(
                        after,
                    )[k] == drafts_of(before).insert(key@, value)[k] by {
                        let a = slot_of(after, k);
                        lemma_slot(after, a);
                        if a < before.len() {
                            lemma_slot(before, a);
                        }
                    }
                    assert(drafts_of(after) =~= drafts_of(before).insert(key@, value));
                }
            },
        }
    }

    /// Removes the draft under `key`. Where there is none, nothing changes.
    pub fn clear(&mut self, key: &str)
        requires
            old(self).inv(),
        ensures
            final(self).inv(),
            final(self)@ == old(self)@.remove(key@),
    {
        let wanted = key.to_owned();
        let ghost before = self.slots@;
        match self.find(&wanted) {
            Some(i) => {
                self.slots.remove(i);
                proof {
                    let after = self.slots@;
                    assert forall|a: int| 0 <= a < after.len() implies #[trigger] after[a] == before[if a
                        < i {
                        a
                    } else {
                        a + 1
                    }] by {}
                    assert(keys_distinct(after)) by {
                        assert forall|a: int, b: int| 0 <= a < b < after.len() implies (
                        #[trigger] after[a]).key@ != (#[trigger] after[b]).key@ by {
                            let a0 = if a < i { a } else { a + 1 };
                            let b0 = if b < i { b } else { b + 1 };
                            assert(before[a0].key@ != before[b0].key@);
                        }
                    }
                    assert forall|k: Seq<char>|
                        holds_key(after, k) == (holds_key(before, k) && k != key@) by {
                        if holds_key(after, k) {
                            let a = slot_of(after, k);
                            let a0 = if a < i { a } else { a + 1 };
                            assert(before[a0].key@ == k);
                            if k == key@ {
                                if a0 < i {
                                    assert(before[a0].key@ != before[i as int].key@);
                                } else {
                                    assert(before[i as int].key@ != before[a0].key@);
                                }
                            }
                        }
                        if holds_key(before, k) && k != key@ {
                            let a0 = slot_of(before, k);
                            let a = if a0 < i { a0 } else { a0 - 1 };
                            assert(after[a].key@ == k);
                        }
                    }
                    assert forall|k: Seq<char>| holds_key(after, k) implies #[trigger] drafts_of(
                        after,
                    )[k] == drafts_of(before)[k] by {
                        let a = slot_of(after, k);
                        let a0 = if a < i { a } else { a + 1 };
                        lemma_slot(after, a);
                        lemma_slot(before, a0);
                    }
                    assert(drafts_of(after) =~= drafts_of(before).remove(key@));
                }
            },
            None => {
                assert(drafts_of(before) =~= drafts_of(before).remove(key@));
            },
        }
    }

    /// Takes stored drafts back into a store. Two drafts for one key are not
    /// accepted.
    pub fn restore(rows: Vec<Draft>) -> (restored: Option<DraftStore>)
        ensures
            match restored {
                Some(store) => store.inv() && store@ == drafts_of(rows@),
                None => !keys_distinct(rows@),
            },
    {
        let mut i: usize = 0;
        while i < rows.len()
            invariant
                i <= rows@.len(),
                forall|a: int, b: int|
                    0 <= a < b < i ==> (#[trigger] rows@[a]).key@ != (#[trigger] rows@[b]).key@,
            decreases rows@.len() - i,
        {
            let mut j: usize = 0;
            while j < i
                invariant
                    j <= i < rows@.len(),
                    forall|a: int| 0 <= a < j ==> (#[trigger] rows@[a]).key@ != rows@[i as int].key@,
                decreases i - j,
            {
                if rows[j].key == rows[i].key {
                    return None;
                }
                j = j + 1;
            }
            i = i + 1;
        }
        Some(DraftStore { slots: rows })
    }
}

/// A draft as handed to a front end.
#[derive(Debug)]
pub struct PostDraft {
    pub text: String,
    pub reply_to: Option<String>,
    pub quote_uri: Option<String>,
    pub quote_cid: Option<String>,
    pub images: Vec<ImageInput>,
    /// When the draft was last saved, as RFC 3339 text.
    pub updated_at: String,
}

impl PostDraft {
    /// The composition that the draft holds.
    pub open spec fn payload(&self) -> PayloadView {
        PayloadView {
            text: self.text@,
            reply_to: opt_text(self.reply_to),
            quote_uri: opt_text(self.quote_uri),
            quote_cid: opt_text(self.quote_cid),
            images: image_views(self.images@),
        }
    }
}

/// The text of the error for a draft whose time no calendar date stands for.
pub open spec fn draft_time_text() -> Seq<char> {
    "draft load failed: time out of range"@
}

/// Saves a composition as the draft of its context. A composition without
/// content or attachments removes the draft instead.
pub fn save_post_draft(store: &mut DraftStore, payload: CreatePostPayload, now: i64)
    requires
        old(store).inv(),
    ensures
        final(store).inv(),
        final(store)@ == drafts_after_save(old(store)@, payload@, now as int),
{
    let key = payload.context_key();
    if payload.is_empty() {
        store.clear(key.as_str());
    } else {
        store.save(key.as_str(), payload, now);
    }
}

/// The draft of the context given by a reply target and a quote target.
///
/// The time of the last save is given as text; a time that no calendar date
/// stands for is an error.
pub fn get_post_draft(store: &DraftStore, reply_to: Option<&str>, quote_uri: Option<&str>) -> (found:
    Result<Option<PostDraft>, AppError>)
    requires
        store.inv(),
    ensures
        ({
            let key = draft_key_text(opt_str_text(reply_to), opt_str_text(quote_uri));
            if !store@.contains_key(key) {
                found matches Ok(None)
            } else {
                match rfc3339_text(store@[key].updated_at) {
                    Some(time) => {
                        &&& found matches Ok(Some(draft))
                        &&& draft.payload() == store@[key].payload
                        &&& draft.updated_at@ == time
                    },
                    None => {
                        &&& found matches Err(AppError::InternalError(text))
                        &&& text@ == draft_time_text()
                    },
                }
            }
        }),
{
    let key = draft_key(reply_to, quote_uri);
    match store.load(key.as_str()) {
        None => Ok(None),
        Some(draft) => match format_rfc3339(draft.updated_at) {
            Some(updated_at) => {
                let payload = draft.payload.clone();
                Ok(
                    Some(
                        PostDraft {
                            text: payload.text,
                            reply_to: payload.reply_to,
                            quote_uri: payload.quote_uri,
                            quote_cid: payload.quote_cid,
                            images: payload.images,
                            updated_at,
                        },
                    ),
                )
            },
            None => Err(
                AppError::InternalError(String::from_str("draft load failed: time out of range")),
            ),
        },
    }
}

/// Removes the draft of the context given by a reply target and a quote
/// target.
pub fn clear_post_draft(store: &mut DraftStore, reply_to: Option<&str>, quote_uri: Option<&str>)
    requires
        old(store).inv(),
    ensures
        final(store).inv(),
        final(store)@ == old(store)@.remove(
            draft_key_text(opt_str_text(reply_to), opt_str_text(quote_uri)),
        ),
{
    let key = draft_key(reply_to, quote_uri);
    store.clear(key.as_str());
}

/// A composition with no text at all and no image is empty, and one with an
/// image never is.
pub proof fn lemma_what_is_empty(payload: PayloadView)
    ensures
        payload.text.len() == 0 && payload.images.len() == 0 ==> payload.is_empty(),
        payload.images.len() > 0 ==> !payload.is_empty(),
{
}

/// Saving a composition without content or attachments is the same as
/// clearing the draft of its context.
pub proof fn lemma_empty_save_is_clear(
    drafts: Map<Seq<char>, DraftView>,
    payload: PayloadView,
    now: int,
)
    requires
        payload.is_empty(),
    ensures
        drafts_after_save(drafts, payload, now) == drafts.remove(payload.context_key()),
        !drafts_after_save(drafts, payload, now).contains_key(payload.context_key()),
{
}

/// Saving a composition that has content or attachments leaves exactly that
/// composition under its key, whatever was there before, and touches no other
/// context.
pub proof fn lemma_save_replaces(
    drafts: Map<Seq<char>, DraftView>,
    payload: PayloadView,
    now: int,
    other: Seq<char>,
)
    requires
        !payload.is_empty(),
        other != payload.context_key(),
    ensures
        drafts_after_save(drafts, payload, now).contains_key(payload.context_key()),
        drafts_after_save(drafts, payload, now)[payload.context_key()].payload == payload,
        drafts_after_save(drafts, payload, now)[payload.context_key()].updated_at == now,
        drafts_after_save(drafts, payload, now).contains_key(other) == drafts.contains_key(other),
        drafts.contains_key(other) ==> drafts_after_save(drafts, payload, now)[other]
            == drafts[other],
{
}

/// Clearing twice is clearing once.
pub proof fn lemma_clear_is_idempotent(drafts: Map<Seq<char>, DraftView>, key: Seq<char>)
    ensures
        drafts.remove(key).remove(key) == drafts.remove(key),
{
    assert(drafts.remove(key).remove(key) =~= drafts.remove(key));
}

} // verus!

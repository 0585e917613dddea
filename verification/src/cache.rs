//! Cache-aside reads: serve the last snapshot at once, refresh it behind the
//! caller's back, and fall back on it when the remote side fails.
//!
//! A snapshot is an opaque text. The store keeps one per identity, kind of
//! resource and key, and the last one written wins. Instants are
//! milliseconds since the Unix epoch.

use vstd::prelude::*;
use vstd::string::*;
use crate::error::AppError;
use crate::text::{lowercased, opt_str_text, to_lowercase, trim, trimmed};

verus! {

/// The kinds of resource that are read through the cache.
#[derive(Clone, Copy, Debug, PartialEq, Eq, Structural)]
pub enum ResourceKind {
    /// The home timeline, keyed by cursor.
    Timeline,
    /// The notifications, keyed by cursor.
    Notifications,
    /// A profile, keyed by handle.
    Profile,
}

impl ResourceKind {
    /// The name of the event that announces a fresh snapshot.
    pub open spec fn event_text(self) -> Seq<char> {
        match self {
            ResourceKind::Timeline => "timeline-updated"@,
            ResourceKind::Notifications => "notifications-updated"@,
            ResourceKind::Profile => "profile-updated"@,
        }
    }

    /// The name of the event that announces a fresh snapshot.
    pub fn event_name(&self) -> (name: &'static str)
        ensures
            name@ == self.event_text(),
    {
        match self {
            ResourceKind::Timeline => "timeline-updated",
            ResourceKind::Notifications => "notifications-updated",
            ResourceKind::Profile => "profile-updated",
        }
    }
}

/// What identifies a snapshot.
pub struct CacheKey {
    pub owner: Seq<char>,
    pub kind: ResourceKind,
    pub key: Seq<char>,
}

/// A stored snapshot.
#[derive(Debug)]
pub struct CacheEntry {
    pub owner: String,
    pub kind: ResourceKind,
    /// Empty for the root view, else a cursor or a handle.
    pub key: String,
    pub payload: String,
    pub cached_at: i64,
}

/// What a store holds under a key.
pub struct SnapshotView {
    pub payload: Seq<char>,
    pub cached_at: int,
}

impl CacheEntry {
    /// What identifies the entry.
    pub open spec fn id(&self) -> CacheKey {
        CacheKey { owner: self.owner@, kind: self.kind, key: self.key@ }
    }

    /// What the entry holds.
    pub open spec fn content(&self) -> SnapshotView {
        SnapshotView { payload: self.payload@, cached_at: self.cached_at as int }
    }
}

/// Whether one of `slots` is for `id`.
pub open spec fn holds_id(slots: Seq<CacheEntry>, id: CacheKey) -> bool {
    exists|i: int| 0 <= i < slots.len() && (#[trigger] slots[i]).id() == id
}

/// The place of a slot for `id`.
pub open spec fn place_of(slots: Seq<CacheEntry>, id: CacheKey) -> int {
    choose|i: int| 0 <= i < slots.len() && (#[trigger] slots[i]).id() == id
}

/// No two slots are for the same id.
pub open spec fn ids_distinct(slots: Seq<CacheEntry>) -> bool {
    forall|i: int, j: int|
        0 <= i < j < slots.len() ==> (#[trigger] slots[i]).id() != (#[trigger] slots[j]).id()
}

/// The snapshots that `slots` hold, by id.
pub open spec fn snapshots_of(slots: Seq<CacheEntry>) -> Map<CacheKey, SnapshotView> {
    Map::new(
        |id: CacheKey| holds_id(slots, id),
        |id: CacheKey| slots[place_of(slots, id)].content(),
    )
}

proof fn lemma_place(slots: Seq<CacheEntry>, i: int)
    requires
        ids_distinct(slots),
        0 <= i < slots.len(),
    ensures
        holds_id(slots, slots[i].id()),
        place_of(slots, slots[i].id()) == i,
        snapshots_of(slots).contains_key(slots[i].id()),
        snapshots_of(slots)[slots[i].id()] == slots[i].content(),
{
    let id = slots[i].id();
    assert(slots[i].id() == id);
    let j = place_of(slots, id);
    assert(0 <= j < slots.len() && slots[j].id() == id);
    if j != i {
        if j < i {
            assert(slots[j].id() != slots[i].id());
        } else {
            assert(slots[i].id() != slots[j].id());
        }
    }
}

/// The snapshots, one per identity, kind and key.
pub struct CacheStore {
    slots: Vec<CacheEntry>,
}

impl View for CacheStore {
    type V = Map<CacheKey, SnapshotView>;

    closed spec fn view(&self) -> Map<CacheKey, SnapshotView> {
        snapshots_of(self.slots@)
    }
}

impl CacheStore {
    /// The validity of a store: no id has two slots.
    pub closed spec fn inv(&self) -> bool {
        ids_distinct(self.slots@)
    }

    /// A store without snapshots.
    pub fn new() -> (store: CacheStore)
        ensures
            store.inv(),
            store@ == Map::<CacheKey, SnapshotView>::empty(),
    {
        let store = CacheStore { slots: Vec::new() };
        assert(store@ =~= Map::<CacheKey, SnapshotView>::empty());
        store
    }

    /// Takes stored snapshots back into a store. Two snapshots for one id are
    /// not accepted.
    pub fn restore(rows: Vec<CacheEntry>) -> (restored: Option<CacheStore>)
        ensures
            match restored {
                Some(store) => store.inv() && store@ == snapshots_of(rows@),
                None => !ids_distinct(rows@),
            },
    {
        let mut i: usize = 0;
        while i < rows.len()
            invariant
                i <= rows@.len(),
                forall|a: int, b: int|
                    0 <= a < b < i ==> (#[trigger] rows@[a]).id() != (#[trigger] rows@[b]).id(),
            decreases rows@.len() - i,
        {
            let mut j: usize = 0;
            while j < i
                invariant
                    j <= i < rows@.len(),
                    forall|a: int| 0 <= a < j ==> (#[trigger] rows@[a]).id() != rows@[i as int].id(),
                decreases i - j,
            {
                if rows[j].owner == rows[i].owner && rows[j].kind == rows[i].kind && rows[j].key
                    == rows[i].key {
                    return None;
                }
                j = j + 1;
            }
            i = i + 1;
        }
        Some(CacheStore { slots: rows })
    }

    fn find(&self, owner: &String, kind: ResourceKind, key: &String) -> (found: Option<usize>)
        requires
            self.inv(),
        ensures
            match found {
                Some(i) => i < self.slots@.len() && self.slots@[i as int].id() == (CacheKey {
                    owner: owner@,
                    kind,
                    key: key@,
                }),
                None => !holds_id(self.slots@, CacheKey { owner: owner@, kind, key: key@ }),
            },
    {
        let mut i: usize = 0;
        while i < self.slots.len()
            invariant
                i <= self.slots@.len(),
                forall|k: int|
                    0 <= k < i ==> (#[trigger] self.slots@[k]).id() != (CacheKey {
                        owner: owner@,
                        kind,
                        key: key@,
                    }),
            decreases self.slots@.len() - i,
        {
            let slot = &self.slots[i];
            if slot.owner == *owner && slot.kind == kind && slot.key == *key {
                return Some(i);
            }
            i = i + 1;
        }
        None
    }

    /// The snapshot under the given id, if there is one.
    pub fn lookup(&self, owner: &str, kind: ResourceKind, key: &str) -> (found: Option<&CacheEntry>)
        requires
            self.inv(),
        ensures
            match found {
                Some(entry) => {
                    &&& self@.contains_key(CacheKey { owner: owner@, kind, key: key@ })
                    &&& entry.id() == CacheKey { owner: owner@, kind, key: key@ }
                    &&& entry.content() == self@[CacheKey { owner: owner@, kind, key: key@ }]
                },
                None => !self@.contains_key(CacheKey { owner: owner@, kind, key: key@ }),
            },
    {
        let owner_text = owner.to_owned();
        let key_text = key.to_owned();
        match self.find(&owner_text, kind, &key_text) {
            Some(i) => {
                proof {
                    lemma_place(self.slots@, i as int);
                }
                Some(&self.slots[i])
            },
            None => None,
        }
    }

    /// Writes a snapshot under the given id, over whatever was there.
    pub fn upsert(&mut self, owner: &str, kind: ResourceKind, key: &str, payload: &str, now: i64)
        requires
            old(self).inv(),
        ensures
            final(self).inv(),
            final(self)@ == old(self)@.insert(
                CacheKey { owner: owner@, kind, key: key@ },
                SnapshotView { payload: payload@, cached_at: now as int },
            ),
    {
        let owner_text = owner.to_owned();
        let key_text = key.to_owned();
        let ghost before = self.slots@;
        let ghost id = CacheKey { owner: owner@, kind, key: key@ };
        let ghost value = SnapshotView { payload: payload@, cached_at: now as int };
        let found = self.find(&owner_text, kind, &key_text);
        let entry = CacheEntry {
            owner: owner_text,
            kind,
            key: key_text,
            payload: payload.to_owned(),
            cached_at: now,
        };
        assert(entry.id() == id && entry.content() == value);
        match found {
            Some(i) => {
                proof {
                    lemma_place(before, i as int);
                }
                self.slots.set(i, entry);
                proof {
                    let after = self.slots@;
                    assert(ids_distinct(after)) by {
                        assert forall|a: int, b: int| 0 <= a < b < after.len() implies (
                        #[trigger] after[a]).id() != (#[trigger] after[b]).id() by {
                            assert(before[a].id() != before[b].id());
                        }
                    }
                    assert forall|k: CacheKey| holds_id(after, k) == holds_id(before, k) by {
                        if holds_id(after, k) {
                            let a = place_of(after, k);
                            assert(before[a].id() == k);
                        }
                        if holds_id(before, k) {
                            let a = place_of(before, k);
                            assert(after[a].id() == k);
                        }
                    }
                    assert forall|k: CacheKey| holds_id(after, k) implies #[trigger] snapshots_of(
                        after,
                    )[k] == snapshots_of(before).insert(id, value)[k] by {
                        let a = place_of(after, k);
                        lemma_place(after, a);
                        lemma_place(before, a);
                    }
                    assert(snapshots_of(after) =~= snapshots_of(before).insert(id, value));
                }
            },
            None => {
                self.slots.push(entry);
                proof {
                    let after = self.slots@;
                    assert(ids_distinct(after)) by {
                        assert forall|a: int, b: int| 0 <= a < b < after.len() implies (
                        #[trigger] after[a]).id() != (#[trigger] after[b]).id() by {
                            if b == before.len() {
                                assert(before[a].id() != id);
                            } else {
                                assert(before[a].id() != before[b].id());
                            }
                        }
                    }
                    assert forall|k: CacheKey|
                        holds_id(after, k) == (holds_id(before, k) || k == id) by {
                        if holds_id(after, k) {
                            let a = place_of(after, k);
                            if a < before.len() {
                                assert(before[a].id() == k);
                            }
                        }
                        if holds_id(before, k) {
                            let a = place_of(before, k);
                            assert(after[a].id() == k);
                        }
                        if k == id {
                            assert(after[before.len() as int].id() == k);
                        }
                    }
                    assert forall|k: CacheKey| holds_id(after, k) implies #[trigger] snapshots_of(
                        after,
                    )[k] == snapshots_of(before).insert(id, value)[k] by {
                        let a = place_of(after, k);
                        lemma_place(after, a);
                        if a < before.len() {
                            lemma_place(before, a);
                        }
                    }
                    assert(snapshots_of(after) =~= snapshots_of(before).insert(id, value));
                }
            },
        }
    }
}

/// The key under which a selector is stored: the cursor or handle itself,
/// and the empty text for the root view.
pub open spec fn key_text(selector: Option<Seq<char>>) -> Seq<char> {
    match selector {
        Some(text) => text,
        None => Seq::<char>::empty(),
    }
}

/// The id of the snapshot that a read asks for.
pub open spec fn cache_id(owner: Seq<char>, kind: ResourceKind, selector: Option<Seq<char>>) -> CacheKey {
    CacheKey { owner, kind, key: key_text(selector) }
}

/// Whether snapshots of this kind are kept for this selector. The timeline
/// keeps its root view only; notifications keep every page, profiles every
/// handle.
pub open spec fn keeps(kind: ResourceKind, selector: Option<Seq<char>>) -> bool {
    match kind {
        ResourceKind::Timeline => selector is None,
        ResourceKind::Notifications => true,
        ResourceKind::Profile => true,
    }
}

/// Whether serving a kept snapshot sets off a refresh in the background:
/// for root views and for profiles, never for a page further on.
pub open spec fn refreshes(kind: ResourceKind, selector: Option<Seq<char>>) -> bool {
    match kind {
        ResourceKind::Timeline => selector is None,
        ResourceKind::Notifications => selector is None,
        ResourceKind::Profile => true,
    }
}

/// What a read is answered with at once, if anything: the kept snapshot.
pub open spec fn served(
    cache: Map<CacheKey, SnapshotView>,
    owner: Seq<char>,
    kind: ResourceKind,
    selector: Option<Seq<char>>,
) -> Option<Seq<char>> {
    if keeps(kind, selector) && cache.contains_key(cache_id(owner, kind, selector)) {
        Some(cache[cache_id(owner, kind, selector)].payload)
    } else {
        None
    }
}

/// The cache after the remote side has answered with `payload` at `now`.
pub open spec fn cache_after_success(
    cache: Map<CacheKey, SnapshotView>,
    owner: Seq<char>,
    kind: ResourceKind,
    selector: Option<Seq<char>>,
    payload: Seq<char>,
    now: int,
) -> Map<CacheKey, SnapshotView> {
    if keeps(kind, selector) {
        cache.insert(cache_id(owner, kind, selector), SnapshotView { payload, cached_at: now })
    } else {
        cache
    }
}

/// Whether a fetch that the caller waited for, and that failed, is answered
/// from the cache: it is when a snapshot for exactly this id is there.
pub open spec fn falls_back(
    cache: Map<CacheKey, SnapshotView>,
    owner: Seq<char>,
    kind: ResourceKind,
    selector: Option<Seq<char>>,
) -> bool {
    cache.contains_key(cache_id(owner, kind, selector))
}

/// Computes the key under which a cursor is stored.
pub fn cursor_key(cursor: Option<&str>) -> (key: String)
    ensures
        key@ == key_text(opt_str_text(cursor)),
{
    match cursor {
        Some(text) => text.to_owned(),
        None => String::new(),
    }
}

/// Brings a handle into the form under which profiles are stored: without
/// white space at the ends, in lower case.
pub fn normalize_handle(handle: &str) -> (normal: String)
    ensures
        normal@ == lowercased(trimmed(handle@)),
{
    to_lowercase(trim(handle))
}

/// Tells whether snapshots of this kind are kept for this selector.
pub fn is_kept(kind: ResourceKind, selector: Option<&str>) -> (kept: bool)
    ensures
        kept == keeps(kind, opt_str_text(selector)),
{
    match kind {
        ResourceKind::Timeline => selector.is_none(),
        ResourceKind::Notifications => true,
        ResourceKind::Profile => true,
    }
}

/// Tells whether serving a kept snapshot sets off a refresh.
pub fn is_refreshed(kind: ResourceKind, selector: Option<&str>) -> (refreshed: bool)
    ensures
        refreshed == refreshes(kind, opt_str_text(selector)),
{
    match kind {
        ResourceKind::Timeline => selector.is_none(),
        ResourceKind::Notifications => selector.is_none(),
        ResourceKind::Profile => true,
    }
}

/// How a read goes on.
#[derive(Debug)]
pub enum ReadPlan {
    /// Answer with `payload` at once. With `refresh`, fetch in the background
    /// and hand the outcome to [`settle_refresh`].
    Serve { payload: String, refresh: bool },
    /// Nothing to answer with: fetch, wait, and hand the outcome to
    /// [`settle_fetch`].
    Fetch,
}

/// A fresh snapshot to announce.
#[derive(Debug)]
pub struct ResourceUpdate {
    pub kind: ResourceKind,
    /// The key of the snapshot: for a profile, the handle.
    pub key: String,
    pub snapshot: String,
}

/// Decides how a read starts. Without an identity there is no read.
pub fn plan_read(
    store: &CacheStore,
    identity: Option<&str>,
    kind: ResourceKind,
    selector: Option<&str>,
) -> (plan: Result<ReadPlan, AppError>)
    requires
        store.inv(),
    ensures
        identity is None ==> plan matches Err(AppError::SessionNotFound),
        identity matches Some(owner) ==> match served(store@, owner@, kind, opt_str_text(selector)) {
            Some(snapshot) => {
                &&& plan matches Ok(ReadPlan::Serve { payload, refresh })
                &&& payload@ == snapshot
                &&& refresh == refreshes(kind, opt_str_text(selector))
            },
            None => plan matches Ok(ReadPlan::Fetch),
        },
{
    let owner = match identity {
        Some(owner) => owner,
        None => {
            return Err(AppError::SessionNotFound);
        },
    };
    if !is_kept(kind, selector) {
        return Ok(ReadPlan::Fetch);
    }
    let key = cursor_key(selector);
    match store.lookup(owner, kind, key.as_str()) {
        Some(entry) => Ok(
            ReadPlan::Serve { payload: entry.payload.clone(), refresh: is_refreshed(kind, selector) },
        ),
        None => Ok(ReadPlan::Fetch),
    }
}

/// Ends a read that waited for the remote side.
///
/// A snapshot that came is kept, where this kind keeps its selector, and
/// handed on. A failure is answered with the snapshot for exactly this id if
/// the store has one, and is handed on otherwise; the store stays as it was.
pub fn settle_fetch(
    store: &mut CacheStore,
    owner: &str,
    kind: ResourceKind,
    selector: Option<&str>,
    outcome: Result<String, AppError>,
    now: i64,
) -> (answer: Result<String, AppError>)
    requires
        old(store).inv(),
    ensures
        final(store).inv(),
        match outcome {
            Ok(fresh) => {
                &&& answer matches Ok(given)
                &&& given@ == fresh@
                &&& final(store)@ == cache_after_success(
                    old(store)@,
                    owner@,
                    kind,
                    opt_str_text(selector),
                    fresh@,
                    now as int,
                )
            },
            Err(error) => {
                &&& final(store)@ == old(store)@
                &&& if falls_back(old(store)@, owner@, kind, opt_str_text(selector)) {
                    &&& answer matches Ok(given)
                    &&& given@ == old(store)@[cache_id(owner@, kind, opt_str_text(selector))].payload
                } else {
                    answer == Err::<String, AppError>(error)
                }
            },
        },
{
    let key = cursor_key(selector);
    match outcome {
        Ok(fresh) => {
            if is_kept(kind, selector) {
                store.upsert(owner, kind, key.as_str(), fresh.as_str(), now);
            }
            Ok(fresh)
        },
        Err(error) => match store.lookup(owner, kind, key.as_str()) {
            Some(entry) => Ok(entry.payload.clone()),
            None => Err(error),
        },
    }
}

/// Ends a refresh that ran behind the caller's back.
///
/// A snapshot that came is kept, where this kind keeps its selector, and
/// returned for announcing. A failure changes nothing and announces nothing.
pub fn settle_refresh(
    store: &mut CacheStore,
    owner: &str,
    kind: ResourceKind,
    selector: Option<&str>,
    outcome: Result<String, AppError>,
    now: i64,
) -> (update: Option<ResourceUpdate>)
    requires
        old(store).inv(),
    ensures
        final(store).inv(),
        match outcome {
            Ok(fresh) => {
                &&& update matches Some(announced)
                &&& announced.kind == kind
                &&& announced.key@ == key_text(opt_str_text(selector))
                &&& announced.snapshot@ == fresh@
                &&& final(store)@ == cache_after_success(
                    old(store)@,
                    owner@,
                    kind,
                    opt_str_text(selector),
                    fresh@,
                    now as int,
                )
            },
            Err(_) => update is None && final(store)@ == old(store)@,
        },
{
    let key = cursor_key(selector);
    match outcome {
        Ok(fresh) => {
            if is_kept(kind, selector) {
                store.upsert(owner, kind, key.as_str(), fresh.as_str(), now);
            }
            Some(ResourceUpdate { kind, key, snapshot: fresh })
        },
        Err(_) => None,
    }
}

/// A read for which a snapshot is kept is answered with that snapshot, whole
/// and unchanged. A refresh that is under way has not touched the store; once
/// it ends, the read is answered with the fresh snapshot, whole. No read
/// sees anything else.
pub proof fn lemma_read_is_whole(
    cache: Map<CacheKey, SnapshotView>,
    owner: Seq<char>,
    kind: ResourceKind,
    selector: Option<Seq<char>>,
    fresh: Seq<char>,
    now: int,
)
    requires
        keeps(kind, selector),
        cache.contains_key(cache_id(owner, kind, selector)),
    ensures
        served(cache, owner, kind, selector) == Some(
            cache[cache_id(owner, kind, selector)].payload,
        ),
        served(
            cache_after_success(cache, owner, kind, selector, fresh, now),
            owner,
            kind,
            selector,
        ) == Some(fresh),
{
}

/// A refresh for one id leaves the snapshots of every other id as they were.
pub proof fn lemma_refresh_is_local(
    cache: Map<CacheKey, SnapshotView>,
    owner: Seq<char>,
    kind: ResourceKind,
    selector: Option<Seq<char>>,
    fresh: Seq<char>,
    now: int,
    other: CacheKey,
)
    requires
        other != cache_id(owner, kind, selector),
    ensures
        cache_after_success(cache, owner, kind, selector, fresh, now).contains_key(other)
            == cache.contains_key(other),
        cache.contains_key(other) ==> cache_after_success(
            cache,
            owner,
            kind,
            selector,
            fresh,
            now,
        )[other] == cache[other],
{
}

/// Of two snapshots written for one id the later stays, whole; and only
/// what is kept is ever refreshed.
pub proof fn lemma_last_writer_wins(
    cache: Map<CacheKey, SnapshotView>,
    owner: Seq<char>,
    kind: ResourceKind,
    selector: Option<Seq<char>>,
    first: Seq<char>,
    second: Seq<char>,
    earlier: int,
    later: int,
)
    ensures
        cache_after_success(
            cache_after_success(cache, owner, kind, selector, first, earlier),
            owner,
            kind,
            selector,
            second,
            later,
        ) == cache_after_success(cache, owner, kind, selector, second, later),
        refreshes(kind, selector) ==> keeps(kind, selector),
{
    let id = cache_id(owner, kind, selector);
    let a = SnapshotView { payload: first, cached_at: earlier };
    let b = SnapshotView { payload: second, cached_at: later };
    assert(cache.insert(id, a).insert(id, b) =~= cache.insert(id, b));
}

/// Without a snapshot for its id a read has nothing to fall back on, so a
/// failing fetch is handed on. After one fetch has succeeded for a selector
/// that its kind keeps, the same read is answered with what that fetch
/// brought: at once, without waiting for the remote side, and also in place
/// of a failure.
pub proof fn lemma_fallback_after_success(
    cache: Map<CacheKey, SnapshotView>,
    owner: Seq<char>,
    kind: ResourceKind,
    selector: Option<Seq<char>>,
    fresh: Seq<char>,
    now: int,
)
    ensures
        !cache.contains_key(cache_id(owner, kind, selector)) ==> {
            &&& served(cache, owner, kind, selector) is None
            &&& !falls_back(cache, owner, kind, selector)
        },
        keeps(kind, selector) ==> {
            let later = cache_after_success(cache, owner, kind, selector, fresh, now);
            &&& served(later, owner, kind, selector) == Some(fresh)
            &&& falls_back(later, owner, kind, selector)
            &&& later[cache_id(owner, kind, selector)].payload == fresh
        },
{
}

} // verus!

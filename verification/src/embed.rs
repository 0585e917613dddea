//! What a post embeds, read from its JSON form.
//!
//! Reading decides what is shown and which images are wanted; it fetches
//! nothing. Each image comes out as a request, to be answered from a cache or
//! from the network by whoever shows the post.

use vstd::prelude::*;
use vstd::string::*;
use crate::error::AppError;
use crate::json::Json;
use crate::media::{
    aspect_hint, embed_kind, embed_kind_of, hinted_ratio, record_kind, record_kind_of, AspectRatio,
    EmbedKind, ExternalView, RecordKind, RecordViewAuthor, RecordViewValue, VideoView,
};
use crate::text::opt_text;

verus! {

/// An image that an embed shows.
#[derive(Debug)]
pub struct ImageRequest {
    /// Where the image is found at full size.
    pub url: String,
    pub alt: Option<String>,
    pub aspect_hint: Option<AspectRatio>,
}

/// What an embedded record itself embeds, as far as it is shown.
#[derive(Debug)]
pub enum NestedPlan {
    Images { images: Vec<ImageRequest> },
    External { external: ExternalView },
}

/// An embedded record.
#[derive(Debug)]
pub enum RecordPlan {
    ViewRecord {
        uri: String,
        cid: String,
        author: RecordViewAuthor,
        value: RecordViewValue,
        indexed_at: String,
        embeds: Vec<NestedPlan>,
    },
    ViewNotFound { uri: String },
    ViewBlocked { uri: String },
}

/// The media beside an embedded record.
#[derive(Debug)]
pub enum MediaPlan {
    Images { images: Vec<ImageRequest> },
    External { external: ExternalView },
}

/// What a post embeds.
#[derive(Debug)]
pub enum EmbedPlan {
    Images { images: Vec<ImageRequest> },
    External { external: ExternalView },
    Video { video: VideoView },
    Record { record: RecordPlan },
    RecordWithMedia { record: RecordPlan, media: MediaPlan },
}

/// The value behind a reference, if there is one.
pub open spec fn pointee(json: Option<&Json>) -> Option<Json> {
    match json {
        Some(value) => Some(*value),
        None => None,
    }
}

/// The member named `key` of a value that may be missing.
pub open spec fn member(json: Option<Json>, key: Seq<char>) -> Option<Json> {
    match json {
        Some(value) => value.field(key),
        None => None,
    }
}

/// The text of the member named `key`, where there is such a member and it
/// is a text.
pub open spec fn member_text(json: Option<Json>, key: Seq<char>) -> Option<Seq<char>> {
    match member(json, key) {
        Some(value) => value.text(),
        None => None,
    }
}

/// The text of the member named `key`, or the empty text.
pub open spec fn member_text_or_empty(json: Option<Json>, key: Seq<char>) -> Seq<char> {
    match member_text(json, key) {
        Some(text) => text,
        None => Seq::empty(),
    }
}

/// The number of the member named `key`, where there is such a member and
/// it is a whole number without a sign.
pub open spec fn member_number(json: Option<Json>, key: Seq<char>) -> Option<u64> {
    match member(json, key) {
        Some(value) => value.number(),
        None => None,
    }
}

/// The items of the member named `key`, where there is such a member and it
/// is a list.
pub open spec fn member_items(json: Option<Json>, key: Seq<char>) -> Option<Seq<Json>> {
    match member(json, key) {
        Some(value) => value.items(),
        None => None,
    }
}

/// The name of the type of a value; empty where it gives none.
pub open spec fn tag_text(json: Json) -> Seq<char> {
    member_text_or_empty(Some(json), "$type"@)
}

/// The aspect ratio that a value hints at.
pub open spec fn hinted_by(json: Json) -> Option<AspectRatio> {
    hinted_ratio(
        member_number(json.field("aspectRatio"@), "width"@),
        member_number(json.field("aspectRatio"@), "height"@),
    )
}

/// Whether an item names an image, which it does by giving its address at
/// full size.
pub open spec fn names_image(item: Json) -> bool {
    member_text(Some(item), "fullsize"@) is Some
}

/// Whether `request` asks for the image that `item` names.
pub open spec fn asks_for(item: Json, request: ImageRequest) -> bool {
    &&& member_text(Some(item), "fullsize"@) == Some(request.url@)
    &&& opt_text(request.alt) == member_text(Some(item), "alt"@)
    &&& request.aspect_hint == hinted_by(item)
}

/// Whether `requests` ask for the images that `items` name: one request for
/// each item that names an image, in the order of the items.
pub open spec fn ask_for_all(items: Seq<Json>, requests: Seq<ImageRequest>) -> bool
    decreases items.len(),
{
    if items.len() == 0 {
        requests.len() == 0
    } else if names_image(items.last()) {
        &&& requests.len() > 0
        &&& asks_for(items.last(), requests.last())
        &&& ask_for_all(items.drop_last(), requests.drop_last())
    } else {
        ask_for_all(items.drop_last(), requests)
    }
}

/// Whether any of `items` names an image.
pub open spec fn names_any_image(items: Seq<Json>) -> bool {
    exists|i: int| 0 <= i < items.len() && names_image(#[trigger] items[i])
}

/// Whether `view` shows the link card that `external` describes: its texts,
/// empty where they are missing, and its thumbnail if it has one.
pub open spec fn shows_external(external: Option<Json>, view: ExternalView) -> bool {
    &&& view.uri@ == member_text_or_empty(external, "uri"@)
    &&& view.title@ == member_text_or_empty(external, "title"@)
    &&& view.description@ == member_text_or_empty(external, "description"@)
    &&& opt_text(view.thumb) == member_text(external, "thumb"@)
}

/// Whether `view` shows the video that `embed` describes.
pub open spec fn shows_video(embed: Json, view: VideoView) -> bool {
    &&& view.playlist@ == member_text_or_empty(Some(embed), "playlist"@)
    &&& opt_text(view.thumbnail) == member_text(Some(embed), "thumbnail"@)
    &&& opt_text(view.alt) == member_text(Some(embed), "alt"@)
    &&& view.aspect_ratio == hinted_by(embed)
}

/// Whether an embed inside a record is shown: images are if at least one is
/// named, a link card is if it is there, anything else is not.
pub open spec fn nested_shown(item: Json) -> bool {
    match embed_kind_of(tag_text(item)) {
        EmbedKind::Images => match member_items(Some(item), "images"@) {
            Some(images) => names_any_image(images),
            None => false,
        },
        EmbedKind::External => item.field("external"@) is Some,
        _ => false,
    }
}

/// Whether `plan` shows the embed `item` inside a record.
pub open spec fn shows_nested(item: Json, plan: NestedPlan) -> bool {
    match plan {
        NestedPlan::Images { images } => {
            &&& embed_kind_of(tag_text(item)) is Images
            &&& member_items(Some(item), "images"@) matches Some(items)
            &&& ask_for_all(items, images@)
        },
        NestedPlan::External { external } => {
            &&& embed_kind_of(tag_text(item)) is External
            &&& shows_external(item.field("external"@), external)
        },
    }
}

/// Whether `plans` show the embeds inside a record: one plan for each embed
/// that is shown, in the order of the embeds.
pub open spec fn show_all_nested(items: Seq<Json>, plans: Seq<NestedPlan>) -> bool
    decreases items.len(),
{
    if items.len() == 0 {
        plans.len() == 0
    } else if nested_shown(items.last()) {
        &&& plans.len() > 0
        &&& shows_nested(items.last(), plans.last())
        &&& show_all_nested(items.drop_last(), plans.drop_last())
    } else {
        show_all_nested(items.drop_last(), plans)
    }
}

/// The embeds inside a record; none where it lists none.
pub open spec fn nested_items(record: Json) -> Seq<Json> {
    match member_items(Some(record), "embeds"@) {
        Some(items) => items,
        None => Seq::empty(),
    }
}

/// Whether `plan` shows the embedded record `record`.
pub open spec fn shows_record(record: Json, plan: RecordPlan) -> bool {
    match plan {
        RecordPlan::ViewRecord { uri, cid, author, value, indexed_at, embeds } => {
            &&& record_kind_of(tag_text(record)) is Found
            &&& uri@ == member_text_or_empty(Some(record), "uri"@)
            &&& cid@ == member_text_or_empty(Some(record), "cid"@)
            &&& author.did@ == member_text_or_empty(record.field("author"@), "did"@)
            &&& author.handle@ == member_text_or_empty(record.field("author"@), "handle"@)
            &&& opt_text(author.display_name) == member_text(
                record.field("author"@),
                "displayName"@,
            )
            &&& opt_text(author.avatar) == member_text(record.field("author"@), "avatar"@)
            &&& value.text@ == member_text_or_empty(record.field("value"@), "text"@)
            &&& value.created_at@ == member_text_or_empty(record.field("value"@), "createdAt"@)
            &&& indexed_at@ == member_text_or_empty(Some(record), "indexedAt"@)
            &&& show_all_nested(nested_items(record), embeds@)
        },
        RecordPlan::ViewNotFound { uri } => {
            &&& record_kind_of(tag_text(record)) is NotFound
            &&& uri@ == member_text_or_empty(Some(record), "uri"@)
        },
        RecordPlan::ViewBlocked { uri } => {
            &&& record_kind_of(tag_text(record)) is Blocked
            &&& uri@ == member_text_or_empty(Some(record), "uri"@)
        },
    }
}

/// Whether `plan` shows the media `media` beside a record.
pub open spec fn shows_media(media: Json, plan: MediaPlan) -> bool {
    match plan {
        MediaPlan::Images { images } => {
            &&& embed_kind_of(tag_text(media)) is Images
            &&& member_items(Some(media), "images"@) matches Some(items)
            &&& ask_for_all(items, images@)
        },
        MediaPlan::External { external } => {
            &&& embed_kind_of(tag_text(media)) is External
            &&& shows_external(media.field("external"@), external)
        },
    }
}

/// The record inside an embed of a record beside media.
pub open spec fn inner_record(embed: Json) -> Option<Json> {
    member(embed.field("record"@), "record"@)
}

/// What an embed lacks, if it lacks something that its type must have.
pub open spec fn missing_part(embed: Json) -> Option<Seq<char>> {
    match embed_kind_of(tag_text(embed)) {
        EmbedKind::Images => if member_items(Some(embed), "images"@) is None {
            Some("images missing"@)
        } else {
            None
        },
        EmbedKind::External => if embed.field("external"@) is None {
            Some("external missing"@)
        } else {
            None
        },
        EmbedKind::Record => if embed.field("record"@) is None {
            Some("record missing"@)
        } else {
            None
        },
        EmbedKind::RecordWithMedia => match inner_record(embed) {
            None => Some("recordWithMedia record missing"@),
            Some(record) => if record_kind_of(tag_text(record)) is Other {
                None
            } else {
                match embed.field("media"@) {
                    None => Some("recordWithMedia media missing"@),
                    Some(media) => match embed_kind_of(tag_text(media)) {
                        EmbedKind::Images => if member_items(Some(media), "images"@) is None {
                            Some("media images missing"@)
                        } else {
                            None
                        },
                        EmbedKind::External => if media.field("external"@) is None {
                            Some("media external missing"@)
                        } else {
                            None
                        },
                        _ => None,
                    },
                }
            },
        },
        _ => None,
    }
}

/// Whether an embed that lacks nothing is shown at all: its type is known,
/// and so are the types of the record and of the media that it holds.
pub open spec fn is_shown(embed: Json) -> bool {
    match embed_kind_of(tag_text(embed)) {
        EmbedKind::Images => true,
        EmbedKind::External => true,
        EmbedKind::Video => true,
        EmbedKind::Record => match embed.field("record"@) {
            Some(record) => !(record_kind_of(tag_text(record)) is Other),
            None => false,
        },
        EmbedKind::RecordWithMedia => match (inner_record(embed), embed.field("media"@)) {
            (Some(record), Some(media)) => {
                &&& !(record_kind_of(tag_text(record)) is Other)
                &&& (embed_kind_of(tag_text(media)) is Images || embed_kind_of(tag_text(media))
                    is External)
            },
            _ => false,
        },
        EmbedKind::Other => false,
    }
}

/// Whether `plan` shows the embed `embed`.
pub open spec fn shows_embed(embed: Json, plan: EmbedPlan) -> bool {
    match plan {
        EmbedPlan::Images { images } => {
            &&& embed_kind_of(tag_text(embed)) is Images
            &&& member_items(Some(embed), "images"@) matches Some(items)
            &&& ask_for_all(items, images@)
        },
        EmbedPlan::External { external } => {
            &&& embed_kind_of(tag_text(embed)) is External
            &&& shows_external(embed.field("external"@), external)
        },
        EmbedPlan::Video { video } => {
            &&& embed_kind_of(tag_text(embed)) is Video
            &&& shows_video(embed, video)
        },
        EmbedPlan::Record { record } => {
            &&& embed_kind_of(tag_text(embed)) is Record
            &&& embed.field("record"@) matches Some(inner)
            &&& shows_record(inner, record)
        },
        EmbedPlan::RecordWithMedia { record, media } => {
            &&& embed_kind_of(tag_text(embed)) is RecordWithMedia
            &&& inner_record(embed) matches Some(inner)
            &&& shows_record(inner, record)
            &&& embed.field("media"@) matches Some(beside)
            &&& shows_media(beside, media)
        },
    }
}

/// Reads the text of the member named `key`.
pub fn text_at(json: Option<&Json>, key: &str) -> (text: Option<String>)
    ensures
        opt_text(text) == member_text(pointee(json), key@),
{
    match json {
        Some(value) => match value.get(key) {
            Some(found) => match found.as_str() {
                Some(text) => Some(text.to_owned()),
                None => None,
            },
            None => None,
        },
        None => None,
    }
}

/// Reads the text of the member named `key`; the empty text where there is
/// none.
pub fn text_or_empty(json: Option<&Json>, key: &str) -> (text: String)
    ensures
        text@ == member_text_or_empty(pointee(json), key@),
{
    match text_at(json, key) {
        Some(text) => text,
        None => String::new(),
    }
}

/// Reads the number of the member named `key`.
pub fn number_at(json: Option<&Json>, key: &str) -> (number: Option<u64>)
    ensures
        number == member_number(pointee(json), key@),
{
    match json {
        Some(value) => match value.get(key) {
            Some(found) => found.as_u64(),
            None => None,
        },
        None => None,
    }
}

/// Reads the name of the type of a value.
pub fn tag_of(json: &Json) -> (tag: String)
    ensures
        tag@ == tag_text(*json),
{
    text_or_empty(Some(json), "$type")
}

/// Reads the aspect ratio that a value hints at.
pub fn hint_of(json: &Json) -> (hint: Option<AspectRatio>)
    ensures
        hint == hinted_by(*json),
{
    let ratio = json.get("aspectRatio");
    aspect_hint(number_at(ratio, "width"), number_at(ratio, "height"))
}

proof fn lemma_requests_tell_images(items: Seq<Json>, requests: Seq<ImageRequest>)
    requires
        ask_for_all(items, requests),
    ensures
        requests.len() > 0 <==> names_any_image(items),
    decreases items.len(),
{
    if items.len() > 0 {
        let rest = items.drop_last();
        if names_image(items.last()) {
            assert(names_image(items[items.len() - 1]));
        } else {
            lemma_requests_tell_images(rest, requests);
            if names_any_image(rest) {
                let i = choose|i: int| 0 <= i < rest.len() && names_image(#[trigger] rest[i]);
                assert(names_image(items[i]));
            }
            if names_any_image(items) {
                let i = choose|i: int| 0 <= i < items.len() && names_image(#[trigger] items[i]);
                assert(names_image(rest[i]));
            }
        }
    }
}

/// Lists the images that `items` name.
pub fn image_requests(items: &Vec<Json>) -> (requests: Vec<ImageRequest>)
    ensures
        ask_for_all(items@, requests@),
        requests@.len() > 0 <==> names_any_image(items@),
{
    let mut requests: Vec<ImageRequest> = Vec::new();
    let mut i: usize = 0;
    assert(items@.subrange(0, 0) =~= Seq::<Json>::empty());
    while i < items.len()
        invariant
            i <= items@.len(),
            ask_for_all(items@.subrange(0, i as int), requests@),
        decreases items@.len() - i,
    {
        let item = &items[i];
        let ghost before = requests@;
        let ghost next = items@.subrange(0, i + 1);
        assert(next.last() == *item);
        assert(next.drop_last() =~= items@.subrange(0, i as int));
        match text_at(Some(item), "fullsize") {
            Some(url) => {
                let request = ImageRequest {
                    url,
                    alt: text_at(Some(item), "alt"),
                    aspect_hint: hint_of(item),
                };
                requests.push(request);
                assert(requests@.drop_last() =~= before);
            },
            None => {},
        }
        i = i + 1;
    }
    assert(items@.subrange(0, i as int) =~= items@);
    proof {
        lemma_requests_tell_images(items@, requests@);
    }
    requests
}

/// Reads a link card.
pub fn external_of(external: Option<&Json>) -> (view: ExternalView)
    ensures
        shows_external(pointee(external), view),
{
    ExternalView {
        uri: text_or_empty(external, "uri"),
        title: text_or_empty(external, "title"),
        description: text_or_empty(external, "description"),
        thumb: text_at(external, "thumb"),
    }
}

/// The items of a list that may be missing.
pub open spec fn items_or_none(items: Option<&Vec<Json>>) -> Seq<Json> {
    match items {
        Some(list) => list@,
        None => Seq::empty(),
    }
}

/// Reads the embeds inside a record, as far as they are shown.
pub fn nested_plans(items: Option<&Vec<Json>>) -> (plans: Vec<NestedPlan>)
    ensures
        show_all_nested(items_or_none(items), plans@),
{
    let mut plans: Vec<NestedPlan> = Vec::new();
    let list = match items {
        Some(list) => list,
        None => {
            return plans;
        },
    };
    let mut i: usize = 0;
    assert(list@.subrange(0, 0) =~= Seq::<Json>::empty());
    while i < list.len()
        invariant
            i <= list@.len(),
            show_all_nested(list@.subrange(0, i as int), plans@),
        decreases list@.len() - i,
    {
        let item = &list[i];
        let ghost before = plans@;
        let ghost next = list@.subrange(0, i + 1);
        assert(next.last() == *item);
        assert(next.drop_last() =~= list@.subrange(0, i as int));
        let tag = tag_of(item);
        match embed_kind(tag.as_str()) {
            EmbedKind::Images => {
                match item.get("images") {
                    Some(found) => match found.as_array() {
                        Some(images) => {
                            let requests = image_requests(images);
                            if requests.len() > 0 {
                                plans.push(NestedPlan::Images { images: requests });
                                assert(plans@.drop_last() =~= before);
                            }
                        },
                        None => {},
                    },
                    None => {},
                }
            },
            EmbedKind::External => {
                match item.get("external") {
                    Some(external) => {
                        plans.push(NestedPlan::External { external: external_of(Some(external)) });
                        assert(plans@.drop_last() =~= before);
                    },
                    None => {},
                }
            },
            _ => {},
        }
        i = i + 1;
    }
    assert(list@.subrange(0, i as int) =~= list@);
    plans
}

/// Reads an embedded record. A record of a type that is not known is not
/// shown.
pub fn record_plan(record: &Json) -> (plan: Option<RecordPlan>)
    ensures
        match plan {
            Some(shown) => shows_record(*record, shown),
            None => record_kind_of(tag_text(*record)) is Other,
        },
{
    let tag = tag_of(record);
    match record_kind(tag.as_str()) {
        RecordKind::Found => {
            let author = record.get("author");
            let value = record.get("value");
            let embeds = match record.get("embeds") {
                Some(found) => found.as_array(),
                None => None,
            };
            Some(
                RecordPlan::ViewRecord {
                    uri: text_or_empty(Some(record), "uri"),
                    cid: text_or_empty(Some(record), "cid"),
                    author: RecordViewAuthor {
                        did: text_or_empty(author, "did"),
                        handle: text_or_empty(author, "handle"),
                        display_name: text_at(author, "displayName"),
                        avatar: text_at(author, "avatar"),
                    },
                    value: RecordViewValue {
                        text: text_or_empty(value, "text"),
                        created_at: text_or_empty(value, "createdAt"),
                    },
                    indexed_at: text_or_empty(Some(record), "indexedAt"),
                    embeds: nested_plans(embeds),
                },
            )
        },
        RecordKind::NotFound => Some(
            RecordPlan::ViewNotFound { uri: text_or_empty(Some(record), "uri") },
        ),
        RecordKind::Blocked => Some(
            RecordPlan::ViewBlocked { uri: text_or_empty(Some(record), "uri") },
        ),
        RecordKind::Other => None,
    }
}

fn missing(what: &str) -> (error: AppError)
    ensures
        error matches AppError::InternalError(text) && text@ == what@,
{
    AppError::InternalError(what.to_owned())
}

/// Reads what a post embeds.
///
/// An embed that lacks what its type must have is an error. An embed of a
/// type that is not known, or that holds a record or media of such a type,
/// is not shown. Any other embed is shown as it stands. Of a record beside
/// media the record is read first: the media is looked at, and what it
/// lacks reported, only where the record is there and of a known type.
pub fn plan_embed(embed: &Json) -> (planned: Result<Option<EmbedPlan>, AppError>)
    ensures
        match missing_part(*embed) {
            Some(what) => planned matches Err(AppError::InternalError(text)) && text@ == what,
            None => if is_shown(*embed) {
                planned matches Ok(Some(plan)) && shows_embed(*embed, plan)
            } else {
                planned matches Ok(None)
            },
        },
{
    let tag = tag_of(embed);
    match embed_kind(tag.as_str()) {
        EmbedKind::Images => {
            let items = match embed.get("images") {
                Some(found) => found.as_array(),
                None => None,
            };
            match items {
                Some(items) => Ok(Some(EmbedPlan::Images { images: image_requests(items) })),
                None => Err(missing("images missing")),
            }
        },
        EmbedKind::External => match embed.get("external") {
            Some(external) => Ok(
                Some(EmbedPlan::External { external: external_of(Some(external)) }),
            ),
            None => Err(missing("external missing")),
        },
        EmbedKind::Video => Ok(
            Some(
                EmbedPlan::Video {
                    video: VideoView {
                        playlist: text_or_empty(Some(embed), "playlist"),
                        thumbnail: text_at(Some(embed), "thumbnail"),
                        alt: text_at(Some(embed), "alt"),
                        aspect_ratio: hint_of(embed),
                    },
                },
            ),
        ),
        EmbedKind::Record => match embed.get("record") {
            Some(inner) => match record_plan(inner) {
                Some(record) => Ok(Some(EmbedPlan::Record { record })),
                None => Ok(None),
            },
            None => Err(missing("record missing")),
        },
        EmbedKind::RecordWithMedia => {
            let inner = match embed.get("record") {
                Some(outer) => outer.get("record"),
                None => None,
            };
            let inner = match inner {
                Some(inner) => inner,
                None => {
                    return Err(missing("recordWithMedia record missing"));
                },
            };
            let record = match record_plan(inner) {
                Some(record) => record,
                None => {
                    return Ok(None);
                },
            };
            let beside = match embed.get("media") {
                Some(beside) => beside,
                None => {
                    return Err(missing("recordWithMedia media missing"));
                },
            };
            let beside_tag = tag_of(beside);
            let media = match embed_kind(beside_tag.as_str()) {
                EmbedKind::Images => {
                    let items = match beside.get("images") {
                        Some(found) => found.as_array(),
                        None => None,
                    };
                    match items {
                        Some(items) => MediaPlan::Images { images: image_requests(items) },
                        None => {
                            return Err(missing("media images missing"));
                        },
                    }
                },
                EmbedKind::External => match beside.get("external") {
                    Some(external) => MediaPlan::External {
                        external: external_of(Some(external)),
                    },
                    None => {
                        return Err(missing("media external missing"));
                    },
                },
                _ => {
                    return Ok(None);
                },
            };
            Ok(Some(EmbedPlan::RecordWithMedia { record, media }))
        },
        EmbedKind::Other => Ok(None),
    }
}

} // verus!

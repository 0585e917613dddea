//! Images and embeds as handed to a front end.

use vstd::prelude::*;
use vstd::string::*;
use crate::text::{opt_str_text, opt_text};

verus! {

/// Width and height of an image.
#[derive(Clone, Copy, Debug, PartialEq, Eq, Structural)]
pub struct AspectRatio {
    pub width: u32,
    pub height: u32,
}

/// An image: where its thumbnail and its full size are found, and what is
/// known of it.
#[derive(Clone, Debug)]
pub struct CachedImage {
    pub thumb: String,
    pub fullsize: String,
    pub alt: String,
    pub aspect_ratio: Option<AspectRatio>,
    pub original_mime: Option<String>,
    pub suggested_download: Vec<String>,
    pub source_url: Option<String>,
    /// Whether the image is still on its way, and the entry stands in for it.
    pub loading: bool,
    /// Whether the image is an animated GIF.
    pub is_gif: bool,
}

/// Published when an image has arrived.
#[derive(Clone, Debug)]
pub struct MediaReadyEvent {
    /// The remote address that the image was asked for under.
    pub source_url: String,
    pub thumb: String,
    pub fullsize: String,
}

/// A link card.
#[derive(Clone, Debug)]
pub struct ExternalView {
    pub uri: String,
    pub title: String,
    pub description: String,
    pub thumb: Option<String>,
}

/// A video.
#[derive(Clone, Debug)]
pub struct VideoView {
    pub playlist: String,
    pub thumbnail: Option<String>,
    pub alt: Option<String>,
    pub aspect_ratio: Option<AspectRatio>,
}

/// The author of an embedded record.
#[derive(Debug)]
pub struct RecordViewAuthor {
    pub did: String,
    pub handle: String,
    pub display_name: Option<String>,
    pub avatar: Option<String>,
}

/// The content of an embedded record.
#[derive(Debug)]
pub struct RecordViewValue {
    pub text: String,
    pub created_at: String,
}

/// What an embedded record may itself embed.
#[derive(Clone, Debug)]
pub enum NestedEmbed {
    Images { images: Vec<CachedImage> },
    External { external: ExternalView },
}

/// An embedded record.
#[derive(Debug)]
pub enum RecordView {
    ViewRecord {
        uri: String,
        cid: String,
        author: RecordViewAuthor,
        value: RecordViewValue,
        indexed_at: String,
        embeds: Vec<NestedEmbed>,
    },
    ViewNotFound { uri: String },
    ViewBlocked { uri: String },
}

/// The media beside an embedded record.
#[derive(Debug)]
pub enum MediaView {
    Images { images: Vec<CachedImage> },
    External { external: ExternalView },
}

/// What a post embeds.
#[derive(Debug)]
pub enum EmbedView {
    Images { images: Vec<CachedImage> },
    External { external: ExternalView },
    Video { video: VideoView },
    Record { record: RecordView },
    RecordWithMedia { record: RecordView, media: MediaView },
}

/// What an embed is, going by the name of its type.
#[derive(Clone, Copy, Debug, PartialEq, Eq, Structural)]
pub enum EmbedKind {
    Images,
    External,
    Video,
    Record,
    RecordWithMedia,
    /// A type that is not shown.
    Other,
}

/// The kind that the name of a type stands for.
pub open spec fn embed_kind_of(tag: Seq<char>) -> EmbedKind {
    if tag == "app.bsky.embed.images#view"@ {
        EmbedKind::Images
    } else if tag == "app.bsky.embed.external#view"@ {
        EmbedKind::External
    } else if tag == "app.bsky.embed.video#view"@ {
        EmbedKind::Video
    } else if tag == "app.bsky.embed.record#view"@ {
        EmbedKind::Record
    } else if tag == "app.bsky.embed.recordWithMedia#view"@ {
        EmbedKind::RecordWithMedia
    } else {
        EmbedKind::Other
    }
}

/// Tells what an embed is from the name of its type.
pub fn embed_kind(tag: &str) -> (kind: EmbedKind)
    ensures
        kind == embed_kind_of(tag@),
{
    let name = tag.to_owned();
    if name == String::from_str("app.bsky.embed.images#view") {
        EmbedKind::Images
    } else if name == String::from_str("app.bsky.embed.external#view") {
        EmbedKind::External
    } else if name == String::from_str("app.bsky.embed.video#view") {
        EmbedKind::Video
    } else if name == String::from_str("app.bsky.embed.record#view") {
        EmbedKind::Record
    } else if name == String::from_str("app.bsky.embed.recordWithMedia#view") {
        EmbedKind::RecordWithMedia
    } else {
        EmbedKind::Other
    }
}

/// What an embedded record is, going by the name of its type.
#[derive(Clone, Copy, Debug, PartialEq, Eq, Structural)]
pub enum RecordKind {
    /// The record itself.
    Found,
    /// The record is gone.
    NotFound,
    /// The record is kept from the viewer.
    Blocked,
    /// A type that is not shown.
    Other,
}

/// The kind of record that the name of a type stands for.
pub open spec fn record_kind_of(tag: Seq<char>) -> RecordKind {
    if tag == "app.bsky.embed.record#viewRecord"@ {
        RecordKind::Found
    } else if tag == "app.bsky.embed.record#viewNotFound"@ {
        RecordKind::NotFound
    } else if tag == "app.bsky.embed.record#viewBlocked"@ {
        RecordKind::Blocked
    } else {
        RecordKind::Other
    }
}

/// Tells what an embedded record is from the name of its type.
pub fn record_kind(tag: &str) -> (kind: RecordKind)
    ensures
        kind == record_kind_of(tag@),
{
    let name = tag.to_owned();
    if name == String::from_str("app.bsky.embed.record#viewRecord") {
        RecordKind::Found
    } else if name == String::from_str("app.bsky.embed.record#viewNotFound") {
        RecordKind::NotFound
    } else if name == String::from_str("app.bsky.embed.record#viewBlocked") {
        RecordKind::Blocked
    } else {
        RecordKind::Other
    }
}

/// The aspect ratio that an embed hints at: there is one only where both
/// width and height are given; each is cut to 32 bits.
pub open spec fn hinted_ratio(width: Option<u64>, height: Option<u64>) -> Option<AspectRatio> {
    match (width, height) {
        (Some(w), Some(h)) => Some(AspectRatio { width: w as u32, height: h as u32 }),
        _ => None,
    }
}

/// Reads the aspect ratio that an embed hints at.
pub fn aspect_hint(width: Option<u64>, height: Option<u64>) -> (hint: Option<AspectRatio>)
    ensures
        hint == hinted_ratio(width, height),
{
    match (width, height) {
        (Some(w), Some(h)) => Some(
            AspectRatio {
                width: #[verifier::truncate]
                (w as u32),
                height: #[verifier::truncate]
                (h as u32),
            },
        ),
        _ => None,
    }
}

/// The address of a local file as a `file://` URL.
pub fn as_file_url(path: &str) -> (url: String)
    ensures
        url@ == "file://"@ + path@,
{
    String::from_str("file://").concat(path)
}

/// The alternative text of an image that has none.
pub open spec fn alt_or_default(alt: Option<Seq<char>>) -> Seq<char> {
    match alt {
        Some(text) => text,
        None => "Image"@,
    }
}

/// Stands in for an image that is still on its way: thumbnail and full size
/// both point at the remote address, and the entry is marked as loading.
pub fn create_placeholder(url: &str, alt: Option<&str>, aspect_hint: Option<AspectRatio>) -> (image:
    CachedImage)
    ensures
        image.thumb@ == url@,
        image.fullsize@ == url@,
        image.alt@ == alt_or_default(opt_str_text(alt)),
        image.aspect_ratio == aspect_hint,
        image.original_mime is None,
        image.suggested_download@.len() == 1,
        image.suggested_download@[0]@ == "png"@,
        opt_text(image.source_url) == Some(url@),
        image.loading,
        !image.is_gif,
{
    let mut suggested_download: Vec<String> = Vec::new();
    suggested_download.push(String::from_str("png"));
    let alt_text = match alt {
        Some(text) => text.to_owned(),
        None => String::from_str("Image"),
    };
    CachedImage {
        thumb: url.to_owned(),
        fullsize: url.to_owned(),
        alt: alt_text,
        aspect_ratio: aspect_hint,
        original_mime: None,
        suggested_download,
        source_url: Some(url.to_owned()),
        loading: true,
        is_gif: false,
    }
}

/// No thumbnail is wider than this many pixels.
pub const THUMB_MAX_WIDTH: u32 = 512;

/// Tells whether an image of the given width is scaled down for its
/// thumbnail.
pub fn needs_downscale(width: u32) -> (scaled: bool)
    ensures
        scaled == (width > THUMB_MAX_WIDTH),
{
    width > THUMB_MAX_WIDTH
}

/// The formats in which an image is offered for download: an animated GIF as
/// it is, anything else as PNG or WebP.
pub fn suggested_formats(is_gif: bool) -> (formats: Vec<String>)
    ensures
        is_gif ==> formats@.len() == 1 && formats@[0]@ == "gif"@,
        !is_gif ==> formats@.len() == 2 && formats@[0]@ == "png"@ && formats@[1]@ == "webp"@,
{
    let mut formats: Vec<String> = Vec::new();
    if is_gif {
        formats.push(String::from_str("gif"));
    } else {
        formats.push(String::from_str("png"));
        formats.push(String::from_str("webp"));
    }
    formats
}

/// The first of two aspect ratios that is there.
pub open spec fn first_ratio(first: Option<AspectRatio>, second: Option<AspectRatio>) -> Option<
    AspectRatio,
> {
    match first {
        Some(ratio) => Some(ratio),
        None => second,
    }
}

/// Describes an image that has just been stored: local addresses, the given
/// alternative text or the default one, the hinted aspect ratio or else the
/// measured one, and nothing left to load.
pub fn describe_stored(
    url: &str,
    thumb: String,
    fullsize: String,
    alt: Option<&str>,
    aspect_hint: Option<AspectRatio>,
    measured: AspectRatio,
    original_mime: Option<String>,
    is_gif: bool,
) -> (image: CachedImage)
    ensures
        image.thumb@ == thumb@,
        image.fullsize@ == fullsize@,
        image.alt@ == alt_or_default(opt_str_text(alt)),
        image.aspect_ratio == first_ratio(aspect_hint, Some(measured)),
        opt_text(image.original_mime) == opt_text(original_mime),
        is_gif ==> image.suggested_download@.len() == 1 && image.suggested_download@[0]@ == "gif"@,
        !is_gif ==> image.suggested_download@.len() == 2 && image.suggested_download@[0]@
            == "png"@ && image.suggested_download@[1]@ == "webp"@,
        opt_text(image.source_url) == Some(url@),
        !image.loading,
        image.is_gif == is_gif,
{
    let alt_text = match alt {
        Some(text) => text.to_owned(),
        None => String::from_str("Image"),
    };
    let aspect_ratio = match aspect_hint {
        Some(hint) => Some(hint),
        None => Some(measured),
    };
    CachedImage {
        thumb,
        fullsize,
        alt: alt_text,
        aspect_ratio,
        original_mime,
        suggested_download: suggested_formats(is_gif),
        source_url: Some(url.to_owned()),
        loading: false,
        is_gif,
    }
}

/// Brings the stored description of an image up to date for handing out:
/// the local addresses are set, the stored aspect ratio stands unless there
/// is none and a hint is given, a given alternative text replaces the stored
/// one, and the image counts as loaded. Everything else stays.
pub fn reuse_stored(
    stored: CachedImage,
    thumb: String,
    fullsize: String,
    alt: Option<&str>,
    aspect_hint: Option<AspectRatio>,
) -> (image: CachedImage)
    ensures
        image.thumb@ == thumb@,
        image.fullsize@ == fullsize@,
        image.alt@ == match alt {
            Some(text) => text@,
            None => stored.alt@,
        },
        image.aspect_ratio == first_ratio(stored.aspect_ratio, aspect_hint),
        !image.loading,
        image.original_mime == stored.original_mime,
        image.suggested_download == stored.suggested_download,
        image.source_url == stored.source_url,
        image.is_gif == stored.is_gif,
{
    let alt_text = match alt {
        Some(text) => text.to_owned(),
        None => stored.alt,
    };
    let aspect_ratio = match stored.aspect_ratio {
        Some(ratio) => Some(ratio),
        None => aspect_hint,
    };
    CachedImage {
        thumb,
        fullsize,
        alt: alt_text,
        aspect_ratio,
        original_mime: stored.original_mime,
        suggested_download: stored.suggested_download,
        source_url: stored.source_url,
        loading: false,
        is_gif: stored.is_gif,
    }
}

/// An ASCII letter in lower case; any other byte as it is.
pub open spec fn ascii_lower(byte: u8) -> u8 {
    if 65 <= byte <= 90 {
        (byte + 32) as u8
    } else {
        byte
    }
}

/// Whether the bytes spell `gif`, in whatever case.
pub open spec fn spells_gif(bytes: Seq<u8>) -> bool {
    &&& bytes.len() == 3
    &&& ascii_lower(bytes[0]) == 103
    &&& ascii_lower(bytes[1]) == 105
    &&& ascii_lower(bytes[2]) == 102
}

/// Tells whether a file name extension is that of a GIF.
pub fn is_gif_extension(extension: &str) -> (gif: bool)
    ensures
        gif == spells_gif(extension.spec_bytes()),
{
    let bytes = extension.as_bytes();
    if bytes.len() != 3 {
        return false;
    }
    let g = bytes[0];
    let i = bytes[1];
    let f = bytes[2];
    (g == 103 || g == 71) && (i == 105 || i == 73) && (f == 102 || f == 70)
}

/// The character of a decimal digit.
pub open spec fn digit_char(digit: nat) -> char {
    (48 + digit) as char
}

/// A number written in decimal, without leading zeros.
pub open spec fn decimal_text(n: nat) -> Seq<char>
    decreases n,
{
    if n < 10 {
        seq![digit_char(n)]
    } else {
        decimal_text(n / 10).push(digit_char(n % 10))
    }
}

fn digit_str(digit: u64) -> (text: &'static str)
    requires
        digit < 10,
    ensures
        text@ == seq![digit_char(digit as nat)],
{
    proof {
        reveal_strlit("0");
        reveal_strlit("1");
        reveal_strlit("2");
        reveal_strlit("3");
        reveal_strlit("4");
        reveal_strlit("5");
        reveal_strlit("6");
        reveal_strlit("7");
        reveal_strlit("8");
        reveal_strlit("9");
    }
    let text = if digit == 0 {
        "0"
    } else if digit == 1 {
        "1"
    } else if digit == 2 {
        "2"
    } else if digit == 3 {
        "3"
    } else if digit == 4 {
        "4"
    } else if digit == 5 {
        "5"
    } else if digit == 6 {
        "6"
    } else if digit == 7 {
        "7"
    } else if digit == 8 {
        "8"
    } else {
        "9"
    };
    assert(text@ =~= seq![digit_char(digit as nat)]);
    text
}

/// Writes a number in decimal.
pub fn decimal(n: u64) -> (text: String)
    ensures
        text@ == decimal_text(n as nat),
    decreases n,
{
    if n < 10 {
        String::from_str(digit_str(n))
    } else {
        let text = decimal(n / 10).concat(digit_str(n % 10));
        assert(text@ =~= decimal_text(n as nat));
        text
    }
}

/// The name of the file that holds the thumbnail of the image with the given
/// key: always a still WebP.
pub open spec fn thumb_name_text(key: nat) -> Seq<char> {
    decimal_text(key) + "_thumb.webp"@
}

/// The name of the file that holds the image at full size: a GIF keeps its
/// format, anything else is kept as WebP.
pub open spec fn full_name_text(key: nat, is_gif: bool) -> Seq<char> {
    decimal_text(key) + "_full."@ + if is_gif {
        "gif"@
    } else {
        "webp"@
    }
}

/// The name of the file that holds the description of the image.
pub open spec fn meta_name_text(key: nat) -> Seq<char> {
    decimal_text(key) + "_meta.json"@
}

/// Names the files of the thumbnail and of the full size of an image.
pub fn image_file_names(key: u64, is_gif: bool) -> (names: (String, String))
    ensures
        names.0@ == thumb_name_text(key as nat),
        names.1@ == full_name_text(key as nat, is_gif),
{
    let thumb = decimal(key).concat("_thumb.webp");
    let full = decimal(key).concat("_full.").concat(
        if is_gif {
            "gif"
        } else {
            "webp"
        },
    );
    (thumb, full)
}

/// Names the file of the description of an image.
pub fn meta_file_name(key: u64) -> (name: String)
    ensures
        name@ == meta_name_text(key as nat),
{
    decimal(key).concat("_meta.json")
}

} // verus!

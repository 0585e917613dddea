use blue_horizon::compose::{embed_shape, quote_target, reply_refs, EmbedShape, StrongRef};
use blue_horizon::media::{
    aspect_hint, decimal, describe_stored, embed_kind, image_file_names, meta_file_name,
    needs_downscale, record_kind, reuse_stored, suggested_formats, AspectRatio, CachedImage,
    EmbedKind, RecordKind,
};
use blue_horizon::timeline::retry_names;

fn strong(uri: &str, cid: &str) -> StrongRef {
    StrongRef { uri: uri.to_string(), cid: cid.to_string() }
}

#[test]
fn the_embed_goes_by_what_the_post_carries() {
    assert_eq!(embed_shape(0, false), EmbedShape::Plain);
    assert_eq!(embed_shape(1, false), EmbedShape::Images);
    assert_eq!(embed_shape(4, false), EmbedShape::Images);
    assert_eq!(embed_shape(0, true), EmbedShape::Record);
    assert_eq!(embed_shape(2, true), EmbedShape::RecordWithMedia);
}

#[test]
fn a_quote_needs_address_and_content_id() {
    let quoted = quote_target(Some("at://b/post/2"), Some("bafy2")).unwrap();
    assert_eq!(quoted.uri, "at://b/post/2");
    assert_eq!(quoted.cid, "bafy2");
    assert!(quote_target(Some("at://b/post/2"), None).is_none());
    assert!(quote_target(None, Some("bafy2")).is_none());
    assert!(quote_target(None, None).is_none());
}

#[test]
fn a_reply_to_a_reply_keeps_the_root_of_the_thread() {
    let refs = reply_refs(strong("at://a/post/2", "c2"), Some(strong("at://a/post/1", "c1")));
    assert_eq!(refs.parent.uri, "at://a/post/2");
    assert_eq!(refs.parent.cid, "c2");
    assert_eq!(refs.root.uri, "at://a/post/1");
    assert_eq!(refs.root.cid, "c1");
}

#[test]
fn a_reply_to_a_first_post_makes_it_the_root() {
    let refs = reply_refs(strong("at://a/post/1", "c1"), None);
    assert_eq!(refs.parent.uri, "at://a/post/1");
    assert_eq!(refs.root.uri, "at://a/post/1");
    assert_eq!(refs.root.cid, "c1");
}

#[test]
fn thumbnails_are_at_most_512_wide() {
    assert!(!needs_downscale(0));
    assert!(!needs_downscale(512));
    assert!(needs_downscale(513));
    assert!(needs_downscale(u32::MAX));
}

#[test]
fn a_gif_is_offered_as_it_is() {
    assert_eq!(suggested_formats(true), vec!["gif".to_string()]);
    assert_eq!(suggested_formats(false), vec!["png".to_string(), "webp".to_string()]);
}

#[test]
fn a_stored_image_is_described() {
    let measured = AspectRatio { width: 800, height: 600 };
    let hint = AspectRatio { width: 4, height: 3 };
    let image = describe_stored(
        "https://cdn.test/a.gif",
        "file:///c/1_thumb.webp".to_string(),
        "file:///c/1_full.gif".to_string(),
        None,
        None,
        measured,
        Some("image/gif".to_string()),
        true,
    );
    assert_eq!(image.thumb, "file:///c/1_thumb.webp");
    assert_eq!(image.fullsize, "file:///c/1_full.gif");
    assert_eq!(image.alt, "Image");
    assert_eq!(image.aspect_ratio, Some(measured));
    assert_eq!(image.original_mime.as_deref(), Some("image/gif"));
    assert_eq!(image.suggested_download, vec!["gif".to_string()]);
    assert_eq!(image.source_url.as_deref(), Some("https://cdn.test/a.gif"));
    assert!(!image.loading);
    assert!(image.is_gif);
    let image = describe_stored("u", "t".to_string(), "f".to_string(), Some("cat"), Some(hint), measured, None, false);
    assert_eq!(image.alt, "cat");
    assert_eq!(image.aspect_ratio, Some(hint));
    assert_eq!(image.suggested_download.len(), 2);
    assert!(!image.is_gif);
}

fn stored(aspect_ratio: Option<AspectRatio>) -> CachedImage {
    CachedImage {
        thumb: "old-thumb".to_string(),
        fullsize: "old-full".to_string(),
        alt: "old alt".to_string(),
        aspect_ratio,
        original_mime: Some("image/png".to_string()),
        suggested_download: vec!["png".to_string(), "webp".to_string()],
        source_url: Some("https://cdn.test/a.png".to_string()),
        loading: true,
        is_gif: false,
    }
}

#[test]
fn a_stored_description_is_brought_up_to_date() {
    let kept = AspectRatio { width: 16, height: 9 };
    let hint = AspectRatio { width: 4, height: 3 };
    let image = reuse_stored(stored(Some(kept)), "t".to_string(), "f".to_string(), Some("new alt"), Some(hint));
    assert_eq!(image.thumb, "t");
    assert_eq!(image.fullsize, "f");
    assert_eq!(image.alt, "new alt");
    assert_eq!(image.aspect_ratio, Some(kept));
    assert!(!image.loading);
    assert_eq!(image.original_mime.as_deref(), Some("image/png"));
    assert_eq!(image.suggested_download.len(), 2);
    assert_eq!(image.source_url.as_deref(), Some("https://cdn.test/a.png"));
    let image = reuse_stored(stored(None), "t".to_string(), "f".to_string(), None, Some(hint));
    assert_eq!(image.alt, "old alt");
    assert_eq!(image.aspect_ratio, Some(hint));
    let image = reuse_stored(stored(None), "t".to_string(), "f".to_string(), None, None);
    assert_eq!(image.aspect_ratio, None);
}

#[test]
fn numbers_are_written_in_decimal() {
    for n in [0u64, 1, 9, 10, 11, 99, 100, 101, 1_000_000, 9_007_199_254_740_993, u64::MAX - 1, u64::MAX] {
        assert_eq!(decimal(n), n.to_string());
    }
}

#[test]
fn the_files_of_an_image_are_named_by_its_key() {
    assert_eq!(
        image_file_names(1234, false),
        ("1234_thumb.webp".to_string(), "1234_full.webp".to_string())
    );
    assert_eq!(
        image_file_names(u64::MAX, true),
        ("18446744073709551615_thumb.webp".to_string(), "18446744073709551615_full.gif".to_string())
    );
    assert_eq!(meta_file_name(0), "0_meta.json");
    assert_eq!(meta_file_name(42), "42_meta.json");
}

#[test]
fn embeds_are_told_apart_by_the_name_of_their_type() {
    assert_eq!(embed_kind("app.bsky.embed.images#view"), EmbedKind::Images);
    assert_eq!(embed_kind("app.bsky.embed.external#view"), EmbedKind::External);
    assert_eq!(embed_kind("app.bsky.embed.video#view"), EmbedKind::Video);
    assert_eq!(embed_kind("app.bsky.embed.record#view"), EmbedKind::Record);
    assert_eq!(embed_kind("app.bsky.embed.recordWithMedia#view"), EmbedKind::RecordWithMedia);
    assert_eq!(embed_kind("app.bsky.embed.images"), EmbedKind::Other);
    assert_eq!(embed_kind(""), EmbedKind::Other);
    assert_eq!(record_kind("app.bsky.embed.record#viewRecord"), RecordKind::Found);
    assert_eq!(record_kind("app.bsky.embed.record#viewNotFound"), RecordKind::NotFound);
    assert_eq!(record_kind("app.bsky.embed.record#viewBlocked"), RecordKind::Blocked);
    assert_eq!(record_kind("app.bsky.embed.record#viewDetached"), RecordKind::Other);
}

#[test]
fn an_aspect_ratio_needs_width_and_height() {
    assert_eq!(aspect_hint(Some(4), Some(3)), Some(AspectRatio { width: 4, height: 3 }));
    assert_eq!(aspect_hint(Some(4), None), None);
    assert_eq!(aspect_hint(None, Some(3)), None);
    assert_eq!(aspect_hint(None, None), None);
    assert_eq!(aspect_hint(Some(4_294_967_296 + 16), Some(9)), Some(AspectRatio { width: 16, height: 9 }));
}

#[test]
fn likes_are_asked_for_again_under_the_other_names() {
    assert_eq!(retry_names("alice.test", "alice.test", "did:plc:a"), vec!["did:plc:a".to_string()]);
    assert_eq!(retry_names("did:plc:a", "alice.test", "did:plc:a"), vec!["alice.test".to_string()]);
    assert_eq!(
        retry_names("Alice.Test", "alice.test", "did:plc:a"),
        vec!["alice.test".to_string(), "did:plc:a".to_string()]
    );
    assert!(retry_names("x", "x", "x").is_empty());
}

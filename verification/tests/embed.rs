use blue_horizon::embed::{
    hint_of, image_requests, nested_plans, plan_embed, record_plan, tag_of, text_at, text_or_empty,
    EmbedPlan, MediaPlan, NestedPlan, RecordPlan,
};
use blue_horizon::error::AppError;
use blue_horizon::json::Json;
use blue_horizon::media::AspectRatio;

fn text(s: &str) -> Json {
    Json::Text(s.to_string())
}

fn number(n: u64) -> Json {
    Json::Number(Some(n))
}

fn object(members: Vec<(&str, Json)>) -> Json {
    Json::Object(members.into_iter().map(|(k, v)| (k.to_string(), v)).collect())
}

fn image(url: &str, alt: &str, ratio: Option<(u64, u64)>) -> Json {
    let mut members = vec![("thumb", text("thumb-url")), ("fullsize", text(url)), ("alt", text(alt))];
    if let Some((w, h)) = ratio {
        members.push(("aspectRatio", object(vec![("width", number(w)), ("height", number(h))])));
    }
    object(members)
}

fn images_embed(items: Vec<Json>) -> Json {
    object(vec![("$type", text("app.bsky.embed.images#view")), ("images", Json::List(items))])
}

fn external_embed() -> Json {
    object(vec![
        ("$type", text("app.bsky.embed.external#view")),
        (
            "external",
            object(vec![("uri", text("https://news.test/a")), ("title", text("A")), ("thumb", text("t.jpg"))]),
        ),
    ])
}

fn view_record(embeds: Option<Json>) -> Json {
    let mut members = vec![
        ("$type", text("app.bsky.embed.record#viewRecord")),
        ("uri", text("at://b/post/2")),
        ("cid", text("bafy2")),
        ("author", object(vec![("did", text("did:plc:b")), ("handle", text("b.test")), ("avatar", text("b.png"))])),
        ("value", object(vec![("text", text("quoted")), ("createdAt", text("2024-01-01T00:00:00Z"))])),
        ("indexedAt", text("2024-01-01T00:00:01Z")),
    ];
    if let Some(embeds) = embeds {
        members.push(("embeds", embeds));
    }
    object(members)
}

fn error_of(planned: Result<Option<EmbedPlan>, AppError>) -> String {
    match planned {
        Err(AppError::InternalError(message)) => message,
        _ => panic!("no internal error"),
    }
}

#[test]
fn members_are_found_by_name() {
    let value = object(vec![("a", text("one")), ("b", number(2)), ("a", text("two"))]);
    assert_eq!(value.get("a").unwrap().as_str(), Some("one"));
    assert_eq!(value.get("b").unwrap().as_u64(), Some(2));
    assert!(value.get("c").is_none());
    assert!(value.get("").is_none());
    assert!(text("a").get("a").is_none());
    assert!(Json::List(vec![text("a")]).get("a").is_none());
    assert_eq!(Json::List(vec![text("a")]).as_array().unwrap().len(), 1);
    assert!(text("a").as_array().is_none());
    assert_eq!(Json::Number(None).as_u64(), None);
    assert_eq!(text("7").as_u64(), None);
    assert_eq!(Json::Null.as_str(), None);
    assert_eq!(Json::Bool(true).as_str(), None);
}

#[test]
fn texts_are_read_with_and_without_default() {
    let value = object(vec![("text", text("hi")), ("count", number(3))]);
    assert_eq!(text_at(Some(&value), "text"), Some("hi".to_string()));
    assert_eq!(text_at(Some(&value), "count"), None);
    assert_eq!(text_at(Some(&value), "gone"), None);
    assert_eq!(text_at(None, "text"), None);
    assert_eq!(text_or_empty(Some(&value), "text"), "hi");
    assert_eq!(text_or_empty(Some(&value), "count"), "");
    assert_eq!(text_or_empty(None, "text"), "");
    assert_eq!(tag_of(&value), "");
    assert_eq!(tag_of(&images_embed(vec![])), "app.bsky.embed.images#view");
}

#[test]
fn an_aspect_ratio_is_read_from_width_and_height() {
    assert_eq!(hint_of(&image("u", "", Some((4, 3)))), Some(AspectRatio { width: 4, height: 3 }));
    assert_eq!(hint_of(&image("u", "", None)), None);
    let half = object(vec![("aspectRatio", object(vec![("width", number(4))]))]);
    assert_eq!(hint_of(&half), None);
    let fraction = object(vec![("aspectRatio", object(vec![("width", Json::Number(None)), ("height", number(3))]))]);
    assert_eq!(hint_of(&fraction), None);
}

#[test]
fn images_are_asked_for_in_order() {
    let items = vec![
        image("https://cdn.test/1.jpg", "one", Some((16, 9))),
        object(vec![("alt", text("no address"))]),
        image("https://cdn.test/2.jpg", "", None),
        object(vec![("fullsize", number(3))]),
    ];
    let requests = image_requests(&items);
    assert_eq!(requests.len(), 2);
    assert_eq!(requests[0].url, "https://cdn.test/1.jpg");
    assert_eq!(requests[0].alt.as_deref(), Some("one"));
    assert_eq!(requests[0].aspect_hint, Some(AspectRatio { width: 16, height: 9 }));
    assert_eq!(requests[1].url, "https://cdn.test/2.jpg");
    assert_eq!(requests[1].alt.as_deref(), Some(""));
    assert_eq!(requests[1].aspect_hint, None);
    assert!(image_requests(&Vec::new()).is_empty());
}

#[test]
fn an_embed_of_images_is_shown() {
    match plan_embed(&images_embed(vec![image("u1", "a", None), image("u2", "b", None)])).unwrap().unwrap() {
        EmbedPlan::Images { images } => {
            assert_eq!(images.len(), 2);
            assert_eq!(images[1].url, "u2");
        }
        other => panic!("{other:?}"),
    }
    // Without any image it is shown all the same, empty.
    assert!(matches!(
        plan_embed(&images_embed(vec![])).unwrap().unwrap(),
        EmbedPlan::Images { images } if images.is_empty()
    ));
}

#[test]
fn a_link_card_is_shown_with_what_it_has() {
    match plan_embed(&external_embed()).unwrap().unwrap() {
        EmbedPlan::External { external } => {
            assert_eq!(external.uri, "https://news.test/a");
            assert_eq!(external.title, "A");
            assert_eq!(external.description, "");
            assert_eq!(external.thumb.as_deref(), Some("t.jpg"));
        }
        other => panic!("{other:?}"),
    }
}

#[test]
fn a_video_is_shown() {
    let embed = object(vec![
        ("$type", text("app.bsky.embed.video#view")),
        ("playlist", text("https://v.test/p.m3u8")),
        ("aspectRatio", object(vec![("width", number(9)), ("height", number(16))])),
    ]);
    match plan_embed(&embed).unwrap().unwrap() {
        EmbedPlan::Video { video } => {
            assert_eq!(video.playlist, "https://v.test/p.m3u8");
            assert_eq!(video.thumbnail, None);
            assert_eq!(video.alt, None);
            assert_eq!(video.aspect_ratio, Some(AspectRatio { width: 9, height: 16 }));
        }
        other => panic!("{other:?}"),
    }
}

#[test]
fn a_quoted_record_is_shown_with_what_it_embeds() {
    let nested = Json::List(vec![
        images_embed(vec![image("n1", "", None)]),
        images_embed(vec![object(vec![("alt", text("nameless"))])]),
        object(vec![("$type", text("app.bsky.embed.video#view"))]),
        external_embed(),
        object(vec![("$type", text("app.bsky.embed.external#view"))]),
    ]);
    let embed = object(vec![("$type", text("app.bsky.embed.record#view")), ("record", view_record(Some(nested)))]);
    match plan_embed(&embed).unwrap().unwrap() {
        EmbedPlan::Record { record: RecordPlan::ViewRecord { uri, cid, author, value, indexed_at, embeds } } => {
            assert_eq!(uri, "at://b/post/2");
            assert_eq!(cid, "bafy2");
            assert_eq!(author.did, "did:plc:b");
            assert_eq!(author.handle, "b.test");
            assert_eq!(author.display_name, None);
            assert_eq!(author.avatar.as_deref(), Some("b.png"));
            assert_eq!(value.text, "quoted");
            assert_eq!(value.created_at, "2024-01-01T00:00:00Z");
            assert_eq!(indexed_at, "2024-01-01T00:00:01Z");
            assert_eq!(embeds.len(), 2);
            assert!(matches!(&embeds[0], NestedPlan::Images { images } if images.len() == 1 && images[0].url == "n1"));
            assert!(matches!(&embeds[1], NestedPlan::External { external } if external.title == "A"));
        }
        other => panic!("{other:?}"),
    }
}

#[test]
fn a_record_that_is_gone_or_blocked_is_shown_as_such() {
    for (tag, blocked) in [("app.bsky.embed.record#viewNotFound", false), ("app.bsky.embed.record#viewBlocked", true)] {
        let record = object(vec![("$type", text(tag)), ("uri", text("at://gone"))]);
        match record_plan(&record).unwrap() {
            RecordPlan::ViewNotFound { uri } => assert!(!blocked && uri == "at://gone"),
            RecordPlan::ViewBlocked { uri } => assert!(blocked && uri == "at://gone"),
            other => panic!("{other:?}"),
        }
    }
    assert!(record_plan(&object(vec![("$type", text("app.bsky.embed.record#viewDetached"))])).is_none());
    assert!(record_plan(&Json::Null).is_none());
    assert!(nested_plans(None).is_empty());
}

#[test]
fn a_record_beside_media_is_shown_with_both() {
    let embed = |media: Json| {
        object(vec![
            ("$type", text("app.bsky.embed.recordWithMedia#view")),
            ("record", object(vec![("record", view_record(None))])),
            ("media", media),
        ])
    };
    match plan_embed(&embed(images_embed(vec![image("m1", "", None)]))).unwrap().unwrap() {
        EmbedPlan::RecordWithMedia { record: RecordPlan::ViewRecord { embeds, .. }, media: MediaPlan::Images { images } } => {
            assert!(embeds.is_empty());
            assert_eq!(images.len(), 1);
        }
        other => panic!("{other:?}"),
    }
    assert!(matches!(
        plan_embed(&embed(external_embed())).unwrap().unwrap(),
        EmbedPlan::RecordWithMedia { media: MediaPlan::External { .. }, .. }
    ));
    // Media of a type that is not known hides the whole embed.
    assert!(plan_embed(&embed(object(vec![("$type", text("app.bsky.embed.video#view"))]))).unwrap().is_none());
}

#[test]
fn what_is_not_known_is_not_shown() {
    assert!(plan_embed(&Json::Null).unwrap().is_none());
    assert!(plan_embed(&object(vec![])).unwrap().is_none());
    assert!(plan_embed(&object(vec![("$type", text("app.bsky.embed.images"))])).unwrap().is_none());
    assert!(plan_embed(&object(vec![("$type", number(1))])).unwrap().is_none());
    let unknown_record = object(vec![
        ("$type", text("app.bsky.embed.record#view")),
        ("record", object(vec![("$type", text("app.bsky.feed.defs#generatorView"))])),
    ]);
    assert!(plan_embed(&unknown_record).unwrap().is_none());
    // A record of a type that is not known hides the embed before the media is looked at.
    let beside_nothing = object(vec![
        ("$type", text("app.bsky.embed.recordWithMedia#view")),
        ("record", object(vec![("record", object(vec![]))])),
    ]);
    assert!(plan_embed(&beside_nothing).unwrap().is_none());
}

#[test]
fn what_an_embed_lacks_is_an_error() {
    let tagged = |tag: &str, members: Vec<(&str, Json)>| {
        let mut all = vec![("$type", text(tag))];
        all.extend(members);
        object(all)
    };
    assert_eq!(error_of(plan_embed(&tagged("app.bsky.embed.images#view", vec![]))), "images missing");
    assert_eq!(
        error_of(plan_embed(&tagged("app.bsky.embed.images#view", vec![("images", text("none"))]))),
        "images missing"
    );
    assert_eq!(error_of(plan_embed(&tagged("app.bsky.embed.external#view", vec![]))), "external missing");
    assert_eq!(error_of(plan_embed(&tagged("app.bsky.embed.record#view", vec![]))), "record missing");
    let with_media = "app.bsky.embed.recordWithMedia#view";
    assert_eq!(error_of(plan_embed(&tagged(with_media, vec![]))), "recordWithMedia record missing");
    assert_eq!(
        error_of(plan_embed(&tagged(with_media, vec![("record", view_record(None))]))),
        "recordWithMedia record missing"
    );
    let record = || ("record", object(vec![("record", view_record(None))]));
    assert_eq!(error_of(plan_embed(&tagged(with_media, vec![record()]))), "recordWithMedia media missing");
    assert_eq!(
        error_of(plan_embed(&tagged(
            with_media,
            vec![record(), ("media", tagged("app.bsky.embed.images#view", vec![]))]
        ))),
        "media images missing"
    );
    assert_eq!(
        error_of(plan_embed(&tagged(
            with_media,
            vec![record(), ("media", tagged("app.bsky.embed.external#view", vec![]))]
        ))),
        "media external missing"
    );
}

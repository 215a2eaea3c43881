use reddit_front::field::{FieldPath, Step};
use reddit_front::json::{parse, Json, JsonNumber, Member};
use reddit_front::reddit::decode::{
    decode, decode_gallery_in, decode_gallery_source_set, decode_listing, decode_parsed,
    decode_post, decode_preview, decode_preview_source_set, decode_source, decode_source_set,
    decode_thing, DecodeError,
};
use reddit_front::reddit::types::{
    Gallery, GalleryContentType, GalleryData, GalleryItem, GallerySourceSet, ImageVariants,
    Listing, MediaEntry, Post, Preview, PreviewSourceSet, RedditVideoPreview, Source, SourceSet,
    Thing,
};

fn tree(text: &str) -> Json {
    parse(text.as_bytes()).unwrap()
}

fn path(steps: &[&str]) -> FieldPath {
    FieldPath {
        steps: steps
            .iter()
            .map(|s| match s.parse::<usize>() {
                Ok(i) => Step::Index(i),
                Err(_) => Step::Key(s.to_string()),
            })
            .collect(),
    }
}

fn post_text(id: &str, extra: &str) -> String {
    format!(
        r#"{{"id": "{id}", "name": "t3_{id}", "title": "Title {id}", "subreddit": "rust",
            "subreddit_name_prefixed": "r/rust", "subreddit_subscribers": 300000,
            "author": "ferris", "url": "https://example.com/{id}",
            "num_comments": 7, "num_crossposts": 1, "downs": 2, "ups": 44, "score": 42,
            "upvote_ratio": 0.96, "likes": null, "saved": false, "hidden": false,
            "spoiler": false, "pinned": true, "over_18": false{extra}}}"#
    )
}

fn plain_post(id: &str) -> Post {
    Post {
        id: id.to_string(),
        name: format!("t3_{id}"),
        title: format!("Title {id}"),
        subreddit: "rust".to_string(),
        subreddit_name_prefixed: "r/rust".to_string(),
        subreddit_subscribers: Some(300000),
        author: Some("ferris".to_string()),
        url: format!("https://example.com/{id}"),
        url_overridden_by_dest: None,
        selftext: None,
        domain: None,
        thumbnail: None,
        preview: None,
        gallery: None,
        num_comments: 7,
        num_crossposts: 1,
        downs: 2,
        ups: 44,
        score: 42,
        upvote_ratio: JsonNumber::Real("0.96".to_string()),
        likes: None,
        saved: false,
        hidden: false,
        spoiler: false,
        pinned: true,
        over_18: false,
    }
}

fn thing_text(kind: &str, data: &str) -> String {
    format!(r#"{{"kind": "{kind}", "data": {data}}}"#)
}

fn listing_text(children: &[String]) -> String {
    format!(
        r#"{{"kind": "Listing", "data": {{"after": "t3_next", "before": null, "dist": {},
            "children": [{}]}}}}"#,
        children.len(),
        children.join(", ")
    )
}

#[test]
fn source_decodes_under_long_keys() {
    let source = decode_source(&tree(r#"{"url": "https://i/1.jpg", "width": 640, "height": 480}"#));
    assert_eq!(source, Ok(Source { url: "https://i/1.jpg".to_string(), width: 640, height: 480 }));
}

#[test]
fn source_decodes_alike_under_short_and_long_keys() {
    let short = decode_source(&tree(r#"{"u": "https://i/1.jpg", "x": 640, "y": 480}"#));
    let long = decode_source(&tree(r#"{"url": "https://i/1.jpg", "width": 640, "height": 480}"#));
    assert_eq!(short, long);
    assert_eq!(short, Ok(Source { url: "https://i/1.jpg".to_string(), width: 640, height: 480 }));
}

#[test]
fn source_decodes_alike_with_keys_mixed_and_in_any_order() {
    let mixed = decode_source(&tree(r#"{"y": 480, "url": "https://i/1.jpg", "x": 640, "z": 1}"#));
    assert_eq!(mixed, Ok(Source { url: "https://i/1.jpg".to_string(), width: 640, height: 480 }));
}

#[test]
fn source_faults_agree_under_short_and_long_keys() {
    let short = decode_source(&tree(r#"{"u": "https://i/1.jpg", "x": "wide", "y": 480}"#));
    let long = decode_source(&tree(r#"{"url": "https://i/1.jpg", "width": "wide", "height": 480}"#));
    assert_eq!(short, long);
    assert_eq!(short, Err(path(&["width"])));
}

#[test]
fn source_with_a_key_and_its_alias_is_at_fault() {
    let both = decode_source(&tree(r#"{"u": "a", "url": "b", "x": 1, "y": 2}"#));
    assert_eq!(both, Err(path(&["url"])));
}

#[test]
fn source_reports_the_first_field_at_fault() {
    assert_eq!(decode_source(&tree(r#"{"x": 1}"#)), Err(path(&["url"])));
    assert_eq!(decode_source(&tree(r#"{"u": "a", "y": 1}"#)), Err(path(&["width"])));
    assert_eq!(decode_source(&tree(r#"{"u": "a", "x": 1, "y": 1.5}"#)), Err(path(&["height"])));
    assert_eq!(decode_source(&tree(r#"[1, 2]"#)), Err(path(&[])));
    assert_eq!(decode_source(&tree(r#"null"#)), Err(path(&[])));
}

#[test]
fn source_set_decodes_under_both_kinds_of_keys() {
    let short = decode_source_set(&tree(
        r#"{"s": {"u": "main", "x": 4, "y": 3}, "p": [{"u": "small", "x": 2, "y": 1}]}"#,
    ));
    let long = decode_source_set(&tree(
        r#"{"source": {"url": "main", "width": 4, "height": 3},
            "resolutions": [{"url": "small", "width": 2, "height": 1}]}"#,
    ));
    let expected = SourceSet {
        source: Source { url: "main".to_string(), width: 4, height: 3 },
        resolutions: vec![Source { url: "small".to_string(), width: 2, height: 1 }],
    };
    assert_eq!(short, long);
    assert_eq!(long, Ok(expected));
}

#[test]
fn source_set_keeps_the_order_of_resolutions() {
    let set = decode_source_set(&tree(
        r#"{"s": {"u": "m", "x": 9, "y": 9},
            "p": [{"u": "a", "x": 1, "y": 1}, {"u": "b", "x": 2, "y": 2}, {"u": "c", "x": 3, "y": 3}]}"#,
    ))
    .unwrap();
    let urls: Vec<&str> = set.resolutions.iter().map(|s| s.url.as_str()).collect();
    assert_eq!(urls, vec!["a", "b", "c"]);
}

#[test]
fn source_set_reports_where_a_resolution_is_at_fault() {
    let set = decode_source_set(&tree(
        r#"{"s": {"u": "m", "x": 9, "y": 9},
            "p": [{"u": "a", "x": 1, "y": 1}, {"u": "b", "x": 2}, {"u": 3}]}"#,
    ));
    assert_eq!(set, Err(path(&["resolutions", "1", "height"])));
}

#[test]
fn source_set_requires_its_source_and_resolutions() {
    assert_eq!(decode_source_set(&tree(r#"{"p": []}"#)), Err(path(&["source"])));
    assert_eq!(decode_source_set(&tree(r#"{"s": null, "p": []}"#)), Err(path(&["source"])));
    assert_eq!(
        decode_source_set(&tree(r#"{"s": {"u": "m", "x": 1}, "p": []}"#)),
        Err(path(&["source", "height"]))
    );
    assert_eq!(
        decode_source_set(&tree(r#"{"s": {"u": "m", "x": 1, "y": 1}}"#)),
        Err(path(&["resolutions"]))
    );
    assert_eq!(
        decode_source_set(&tree(r#"{"s": {"u": "m", "x": 1, "y": 1}, "p": {}}"#)),
        Err(path(&["resolutions"]))
    );
}

#[test]
fn preview_image_holds_its_set_beside_its_id() {
    let image = decode_preview_source_set(&tree(
        r#"{"id": "img", "source": {"url": "m", "width": 4, "height": 3}, "resolutions": [],
            "variants": {"gif": {"source": {"url": "g", "width": 4, "height": 3}, "resolutions": []}}}"#,
    ));
    let expected = PreviewSourceSet {
        id: "img".to_string(),
        default: SourceSet {
            source: Source { url: "m".to_string(), width: 4, height: 3 },
            resolutions: vec![],
        },
        variants: Some(ImageVariants {
            gif: Some(SourceSet {
                source: Source { url: "g".to_string(), width: 4, height: 3 },
                resolutions: vec![],
            }),
            mp4: None,
        }),
    };
    assert_eq!(image, Ok(expected));
}

#[test]
fn preview_image_takes_empty_and_null_variants() {
    let base = r#""id": "img", "source": {"url": "m", "width": 4, "height": 3}, "resolutions": []"#;
    let with_empty = decode_preview_source_set(&tree(&format!("{{{base}, \"variants\": {{}}}}")));
    let with_null = decode_preview_source_set(&tree(&format!("{{{base}, \"variants\": null}}")));
    let without = decode_preview_source_set(&tree(&format!("{{{base}}}")));
    assert_eq!(with_empty.unwrap().variants, Some(ImageVariants { gif: None, mp4: None }));
    assert_eq!(with_null.unwrap().variants, None);
    assert_eq!(without.unwrap().variants, None);
}

#[test]
fn preview_image_reports_a_variant_at_fault() {
    let image = decode_preview_source_set(&tree(
        r#"{"id": "img", "source": {"url": "m", "width": 4, "height": 3}, "resolutions": [],
            "variants": {"mp4": {"source": {"url": "g", "width": 4}, "resolutions": []}}}"#,
    ));
    assert_eq!(image, Err(path(&["variants", "mp4", "source", "height"])));
}

#[test]
fn preview_decodes_with_a_hosted_video() {
    let preview = decode_preview(&tree(
        r#"{"images": [], "enabled": true,
            "reddit_video_preview": {"fallback_url": "f.mp4", "height": 480, "width": 640,
                "dash_url": "d.mpd", "duration": 12, "is_gif": false, "bitrate_kbps": 800}}"#,
    ));
    let expected = Preview {
        images: vec![],
        reddit_video_preview: Some(RedditVideoPreview {
            fallback_url: "f.mp4".to_string(),
            height: 480,
            width: 640,
            dash_url: "d.mpd".to_string(),
            duration: 12,
            is_gif: false,
        }),
        enabled: true,
    };
    assert_eq!(preview, Ok(expected));
}

#[test]
fn preview_reports_its_faults() {
    assert_eq!(decode_preview(&tree(r#"{"enabled": true}"#)), Err(path(&["images"])));
    assert_eq!(decode_preview(&tree(r#"{"images": []}"#)), Err(path(&["enabled"])));
    assert_eq!(
        decode_preview(&tree(r#"{"images": [{"id": 1}], "enabled": true}"#)),
        Err(path(&["images", "0", "id"]))
    );
    assert_eq!(
        decode_preview(&tree(
            r#"{"images": [], "enabled": true, "reddit_video_preview": {"fallback_url": "f"}}"#
        )),
        Err(path(&["reddit_video_preview", "height"]))
    );
}

#[test]
fn gallery_medium_decodes_under_short_keys() {
    let medium = decode_gallery_source_set(&tree(
        r#"{"status": "valid", "e": "Image", "m": "image/jpg",
            "s": {"u": "main", "x": 4, "y": 3}, "p": [], "id": "abc"}"#,
    ));
    let expected = GallerySourceSet {
        source: SourceSet { source: Source { url: "main".to_string(), width: 4, height: 3 }, resolutions: vec![] },
        content_type: GalleryContentType::Image,
        mime: Some("image/jpg".to_string()),
    };
    assert_eq!(medium, Ok(expected));
}

#[test]
fn gallery_medium_knows_two_kinds_of_content() {
    let video = decode_gallery_source_set(&tree(
        r#"{"content_type": "Video", "s": {"u": "main", "x": 4, "y": 3}, "p": []}"#,
    ))
    .unwrap();
    assert_eq!(video.content_type, GalleryContentType::Video);
    assert_eq!(video.mime, None);
    let other = decode_gallery_source_set(&tree(
        r#"{"e": "AnimatedImage", "s": {"u": "main", "x": 4, "y": 3}, "p": []}"#,
    ));
    assert_eq!(other, Err(path(&["content_type"])));
    let none = decode_gallery_source_set(&tree(r#"{"s": {"u": "main", "x": 4, "y": 3}, "p": []}"#));
    assert_eq!(none, Err(path(&["content_type"])));
}

fn gallery_members(text: &str) -> Vec<Member> {
    match tree(text) {
        Json::Object(members) => members,
        other => panic!("not an object: {:?}", other),
    }
}

#[test]
fn gallery_decodes_items_and_media() {
    let gallery = decode_gallery_in(&gallery_members(
        r#"{"gallery_data": {"items": [{"id": 2, "media_id": "b", "caption": "second"},
                                        {"id": 1, "media_id": "a"}]},
            "media_metadata": {"a": {"e": "Image", "s": {"u": "A", "x": 1, "y": 1}, "p": []}}}"#,
    ));
    let expected = Gallery {
        gallery_data: GalleryData {
            items: vec![
                GalleryItem { id: 2, media_id: "b".to_string(), caption: Some("second".to_string()) },
                GalleryItem { id: 1, media_id: "a".to_string(), caption: None },
            ],
        },
        media_metadata: vec![MediaEntry {
            media_id: "a".to_string(),
            media: GallerySourceSet {
                source: SourceSet {
                    source: Source { url: "A".to_string(), width: 1, height: 1 },
                    resolutions: vec![],
                },
                content_type: GalleryContentType::Image,
                mime: None,
            },
        }],
    };
    assert_eq!(gallery, Ok(expected));
}

#[test]
fn gallery_reports_its_faults() {
    assert_eq!(
        decode_gallery_in(&gallery_members(r#"{"media_metadata": {}}"#)),
        Err(path(&["gallery_data"]))
    );
    assert_eq!(
        decode_gallery_in(&gallery_members(r#"{"gallery_data": {"items": [{"id": 1}]}, "media_metadata": {}}"#)),
        Err(path(&["gallery_data", "items", "0", "media_id"]))
    );
    assert_eq!(
        decode_gallery_in(&gallery_members(r#"{"gallery_data": {"items": []}}"#)),
        Err(path(&["media_metadata"]))
    );
    assert_eq!(
        decode_gallery_in(&gallery_members(r#"{"gallery_data": {"items": []}, "media_metadata": []}"#)),
        Err(path(&["media_metadata"]))
    );
    assert_eq!(
        decode_gallery_in(&gallery_members(
            r#"{"gallery_data": {"items": []}, "media_metadata": {"k": {"e": "Image"}}}"#
        )),
        Err(path(&["media_metadata", "k", "source"]))
    );
}

#[test]
fn post_decodes_its_fields() {
    let post = decode_post(&tree(&post_text("abc", "")));
    assert_eq!(post, Ok(plain_post("abc")));
}

#[test]
fn post_with_null_author_has_none() {
    let text = post_text("abc", "").replace(r#""author": "ferris""#, r#""author": null"#);
    let post = decode_post(&tree(&text)).unwrap();
    assert_eq!(post.author, None);
}

#[test]
fn post_without_author_has_none() {
    let text = post_text("abc", "").replace(r#""author": "ferris","#, "");
    let post = decode_post(&tree(&text)).unwrap();
    assert_eq!(post.author, None);
}

#[test]
fn post_takes_optional_content() {
    let post = decode_post(&tree(&post_text(
        "abc",
        r#", "selftext": "hello", "domain": "self.rust", "thumbnail": "self",
            "url_overridden_by_dest": "https://dest", "likes": true,
            "preview": {"images": [], "enabled": false}"#,
    )))
    .unwrap();
    assert_eq!(post.selftext, Some("hello".to_string()));
    assert_eq!(post.domain, Some("self.rust".to_string()));
    assert_eq!(post.thumbnail, Some("self".to_string()));
    assert_eq!(post.url_overridden_by_dest, Some("https://dest".to_string()));
    assert_eq!(post.preview, Some(Preview { images: vec![], reddit_video_preview: None, enabled: false }));
    assert_eq!(post.gallery, None);
}

#[test]
fn post_takes_the_last_of_repeated_keys_as_the_parser_does() {
    let post = decode_post(&tree(&post_text("abc", r#", "likes": false, "likes": true"#))).unwrap();
    assert_eq!(post.likes, Some(true));
}

#[test]
fn post_holds_a_gallery_that_stands_among_its_fields() {
    let post = decode_post(&tree(&post_text(
        "abc",
        r#", "gallery_data": {"items": [{"id": 1, "media_id": "a"}]},
            "media_metadata": {"a": {"e": "Image", "s": {"u": "A", "x": 1, "y": 1}, "p": []}}"#,
    )))
    .unwrap();
    let gallery = post.gallery.unwrap();
    assert_eq!(gallery.gallery_data.items.len(), 1);
    assert_eq!(gallery.media_metadata.len(), 1);
    assert_eq!(gallery.media_metadata[0].media_id, "a");
}

#[test]
fn post_drops_a_gallery_that_cannot_be_read() {
    let post = decode_post(&tree(&post_text(
        "abc",
        r#", "gallery_data": {"items": [{"id": 1, "media_id": "a"}]},
            "media_metadata": {"a": {"e": "AnimatedImage", "s": {"u": "A", "x": 1, "y": 1}, "p": []}}"#,
    )))
    .unwrap();
    assert_eq!(post.gallery, None);
    assert_eq!(post.id, "abc");
}

#[test]
fn post_reports_the_first_field_at_fault() {
    let no_title = post_text("abc", "").replace(r#""title": "Title abc","#, "");
    assert_eq!(decode_post(&tree(&no_title)), Err(path(&["title"])));
    let bad_ups = post_text("abc", "").replace(r#""ups": 44"#, r#""ups": "many""#);
    assert_eq!(decode_post(&tree(&bad_ups)), Err(path(&["ups"])));
    let two = post_text("abc", "")
        .replace(r#""saved": false"#, r#""saved": 0"#)
        .replace(r#""name": "t3_abc","#, "");
    assert_eq!(decode_post(&tree(&two)), Err(path(&["name"])));
    let bad_preview = post_text("abc", r#", "preview": {"images": 3, "enabled": true}"#);
    assert_eq!(decode_post(&tree(&bad_preview)), Err(path(&["preview", "images"])));
    let bad_ratio = post_text("abc", "").replace(r#""upvote_ratio": 0.96"#, r#""upvote_ratio": "high""#);
    assert_eq!(decode_post(&tree(&bad_ratio)), Err(path(&["upvote_ratio"])));
    assert_eq!(decode_post(&tree("7")), Err(path(&[])));
}

#[test]
fn post_keeps_a_ratio_of_any_form() {
    let whole = post_text("abc", "").replace(r#""upvote_ratio": 0.96"#, r#""upvote_ratio": 1"#);
    assert_eq!(decode_post(&tree(&whole)).unwrap().upvote_ratio, JsonNumber::PosInt(1));
}

#[test]
fn thing_decodes_a_post() {
    let thing = decode_thing(&tree(&thing_text("t3", &post_text("abc", ""))));
    assert_eq!(thing, Ok(Thing::Post(plain_post("abc"))));
}

#[test]
fn thing_of_unknown_kind_keeps_its_kind_only() {
    let thing = decode_thing(&tree(r#"{"kind": "t1", "data": {"body": "a comment"}}"#));
    assert_eq!(thing, Ok(Thing::Unknown("t1".to_string())));
    let bare = decode_thing(&tree(r#"{"kind": "more"}"#));
    assert_eq!(bare, Ok(Thing::Unknown("more".to_string())));
}

#[test]
fn thing_reports_its_faults() {
    assert_eq!(decode_thing(&tree(r#"{"data": {}}"#)), Err(path(&["kind"])));
    assert_eq!(decode_thing(&tree(r#"{"kind": 3, "data": {}}"#)), Err(path(&["kind"])));
    assert_eq!(decode_thing(&tree(r#"{"kind": "t3"}"#)), Err(path(&["data"])));
    assert_eq!(decode_thing(&tree(r#"{"kind": "Listing"}"#)), Err(path(&["data"])));
    assert_eq!(decode_thing(&tree(r#"{"kind": "t3", "data": null}"#)), Err(path(&["data"])));
    assert_eq!(decode_thing(&tree(r#"{"kind": "t3", "data": {}}"#)), Err(path(&["data", "id"])));
    assert_eq!(
        decode_thing(&tree(r#"{"kind": "Listing", "data": {"dist": 0}}"#)),
        Err(path(&["data", "children"]))
    );
    assert_eq!(decode_thing(&tree(r#"[]"#)), Err(path(&[])));
}

#[test]
fn listing_keeps_the_count_and_order_of_its_children() {
    let ids = ["e", "a", "d", "b", "c"];
    let children: Vec<String> = ids.iter().map(|id| thing_text("t3", &post_text(id, ""))).collect();
    let thing = decode_thing(&tree(&listing_text(&children))).unwrap();
    let listing = match thing {
        Thing::Listing(listing) => listing,
        other => panic!("not a listing: {:?}", other),
    };
    assert_eq!(listing.after, Some("t3_next".to_string()));
    assert_eq!(listing.before, None);
    assert_eq!(listing.dist, 5);
    assert_eq!(listing.children.len(), 5);
    let expected: Vec<Thing> = ids.iter().map(|id| Thing::Post(plain_post(id))).collect();
    assert_eq!(listing.children, expected);
}

#[test]
fn listing_without_children_is_empty() {
    let listing = decode_listing(&tree(r#"{"dist": 0, "children": []}"#));
    assert_eq!(listing, Ok(Listing { after: None, before: None, dist: 0, children: vec![] }));
}

#[test]
fn listing_keeps_going_past_a_child_of_unknown_kind() {
    let children = vec![
        thing_text("t3", &post_text("a", "")),
        thing_text("t1", r#"{"body": "a comment"}"#),
        thing_text("t3", &post_text("b", "")),
    ];
    let thing = decode_thing(&tree(&listing_text(&children))).unwrap();
    let expected = Thing::Listing(Listing {
        after: Some("t3_next".to_string()),
        before: None,
        dist: 3,
        children: vec![
            Thing::Post(plain_post("a")),
            Thing::Unknown("t1".to_string()),
            Thing::Post(plain_post("b")),
        ],
    });
    assert_eq!(thing, expected);
}

#[test]
fn listing_holds_listings() {
    let inner = listing_text(&[thing_text("t3", &post_text("a", ""))]);
    let thing = decode_thing(&tree(&listing_text(&[inner]))).unwrap();
    match thing {
        Thing::Listing(outer) => match &outer.children[0] {
            Thing::Listing(inner) => assert_eq!(inner.children, vec![Thing::Post(plain_post("a"))]),
            other => panic!("not a listing: {:?}", other),
        },
        other => panic!("not a listing: {:?}", other),
    }
}

#[test]
fn listing_reports_the_first_child_at_fault() {
    let children = vec![
        thing_text("t3", &post_text("a", "")),
        thing_text("t3", &post_text("b", "").replace(r#""score": 42"#, r#""score": null"#)),
        thing_text("t3", "{}"),
    ];
    let thing = decode_thing(&tree(&listing_text(&children)));
    assert_eq!(thing, Err(path(&["data", "children", "1", "data", "score"])));
}

#[test]
fn listing_requires_its_count() {
    assert_eq!(decode_listing(&tree(r#"{"children": []}"#)), Err(path(&["dist"])));
    assert_eq!(decode_listing(&tree(r#"{"dist": null, "children": []}"#)), Err(path(&["dist"])));
    assert_eq!(decode_listing(&tree(r#"{"after": 1, "dist": 0, "children": []}"#)), Err(path(&["after"])));
}

#[test]
fn decode_reads_a_payload() {
    let payload = listing_text(&[thing_text("t3", &post_text("a", ""))]);
    let thing = decode(payload.as_bytes()).unwrap();
    match thing {
        Thing::Listing(listing) => assert_eq!(listing.children, vec![Thing::Post(plain_post("a"))]),
        other => panic!("not a listing: {:?}", other),
    }
}

#[test]
fn decode_tells_syntax_from_schema() {
    assert!(matches!(decode(b"{\"kind\": "), Err(DecodeError::Syntax(_))));
    assert!(matches!(decode(b"not json"), Err(DecodeError::Syntax(_))));
    assert_eq!(decode(b"{\"kind\": \"t3\"}"), Err(DecodeError::Schema(path(&["data"]))));
    assert_eq!(decode(b"42"), Err(DecodeError::Schema(path(&[]))));
}

#[test]
fn decode_parsed_passes_the_complaint_on() {
    assert_eq!(
        decode_parsed(Err("expected value at line 1 column 1".to_string())),
        Err(DecodeError::Syntax("expected value at line 1 column 1".to_string()))
    );
    assert_eq!(
        decode_parsed(Ok(Json::Object(vec![Member {
            key: "kind".to_string(),
            value: Json::Text("t9".to_string()),
        }]))),
        Ok(Thing::Unknown("t9".to_string()))
    );
    assert_eq!(decode_parsed(Ok(Json::Null)), Err(DecodeError::Schema(path(&[]))));
}

use reddit_front::json::JsonNumber;
use reddit_front::reddit::html::{Byline, Card, Clip, Content, Image, Media, Slide, Stream};
use reddit_front::reddit::render_listing;
use reddit_front::reddit::types::{
    Gallery, GalleryContentType, GalleryData, GalleryItem, GallerySourceSet, ImageVariants,
    Listing, MediaEntry, Post, Preview, PreviewSourceSet, RedditVideoPreview, Source, SourceSet,
    Thing,
};

fn source(url: &str, width: i64, height: i64) -> Source {
    Source { url: url.to_string(), width, height }
}

fn set(url: &str) -> SourceSet {
    SourceSet {
        source: source(url, 640, 480),
        resolutions: vec![source(&format!("{url}-small"), 320, 240), source(&format!("{url}-tiny"), 160, 120)],
    }
}

fn image_of(url: &str) -> Image {
    Image { src: url.to_string(), width: 640, height: 480 }
}

fn clip_of(url: &str, poster: Option<&str>) -> Clip {
    Clip {
        src: url.to_string(),
        width: 640,
        height: 480,
        poster: poster.map(|p| p.to_string()),
        alternatives: vec![source(&format!("{url}-small"), 320, 240), source(&format!("{url}-tiny"), 160, 120)],
    }
}

fn preview_with(variants: Option<ImageVariants>) -> Preview {
    Preview {
        images: vec![
            PreviewSourceSet { id: "first".to_string(), default: set("default"), variants },
            PreviewSourceSet { id: "second".to_string(), default: set("other"), variants: None },
        ],
        reddit_video_preview: None,
        enabled: true,
    }
}

fn post(id: &str) -> Post {
    Post {
        id: id.to_string(),
        name: format!("t3_{id}"),
        title: format!("Title {id}"),
        subreddit: "rust".to_string(),
        subreddit_name_prefixed: "r/rust".to_string(),
        subreddit_subscribers: None,
        author: Some("ferris".to_string()),
        url: format!("https://example.com/{id}"),
        url_overridden_by_dest: None,
        selftext: None,
        domain: None,
        thumbnail: Some("thumb.jpg".to_string()),
        preview: None,
        gallery: None,
        num_comments: 0,
        num_crossposts: 0,
        downs: 0,
        ups: 1,
        score: 1,
        upvote_ratio: JsonNumber::PosInt(1),
        likes: None,
        saved: false,
        hidden: false,
        spoiler: false,
        pinned: false,
        over_18: false,
    }
}

fn medium(url: &str, content_type: GalleryContentType) -> GallerySourceSet {
    GallerySourceSet { source: set(url), content_type, mime: None }
}

fn gallery() -> Gallery {
    Gallery {
        gallery_data: GalleryData {
            items: vec![
                GalleryItem { id: 1, media_id: "b".to_string(), caption: None },
                GalleryItem { id: 2, media_id: "gone".to_string(), caption: None },
                GalleryItem { id: 3, media_id: "a".to_string(), caption: Some("last".to_string()) },
            ],
        },
        media_metadata: vec![
            MediaEntry { media_id: "a".to_string(), media: medium("A", GalleryContentType::Image) },
            MediaEntry { media_id: "b".to_string(), media: medium("B", GalleryContentType::Video) },
        ],
    }
}

#[test]
fn source_set_renders_its_main_source_as_image() {
    assert_eq!(set("pic").render_img(), image_of("pic"));
}

#[test]
fn source_set_renders_a_video_with_its_resolutions_in_order() {
    assert_eq!(set("vid").render_video(&Some("poster.jpg".to_string())), clip_of("vid", Some("poster.jpg")));
    assert_eq!(set("vid").render_video(&None), clip_of("vid", None));
}

#[test]
fn preview_with_gif_and_mp4_shows_the_gif() {
    let preview = preview_with(Some(ImageVariants { gif: Some(set("gif")), mp4: Some(set("mp4")) }));
    assert_eq!(preview.render(&Some("thumb.jpg".to_string())), Media::Image(image_of("gif")));
}

#[test]
fn preview_with_mp4_only_shows_the_video_with_the_thumbnail_as_poster() {
    let preview = preview_with(Some(ImageVariants { gif: None, mp4: Some(set("mp4")) }));
    assert_eq!(
        preview.render(&Some("thumb.jpg".to_string())),
        Media::Clip(clip_of("mp4", Some("thumb.jpg")))
    );
}

#[test]
fn preview_without_variants_shows_the_first_image() {
    assert_eq!(preview_with(None).render(&None), Media::Image(image_of("default")));
    let empty = preview_with(Some(ImageVariants { gif: None, mp4: None }));
    assert_eq!(empty.render(&None), Media::Image(image_of("default")));
}

#[test]
fn preview_shows_a_hosted_video_before_any_image() {
    let mut preview = preview_with(Some(ImageVariants { gif: Some(set("gif")), mp4: Some(set("mp4")) }));
    preview.reddit_video_preview = Some(RedditVideoPreview {
        fallback_url: "f.mp4".to_string(),
        height: 720,
        width: 1280,
        dash_url: "d.mpd".to_string(),
        duration: 9,
        is_gif: false,
    });
    assert_eq!(
        preview.render(&Some("thumb.jpg".to_string())),
        Media::Stream(Stream {
            fallback_url: "f.mp4".to_string(),
            dash_url: "d.mpd".to_string(),
            width: 1280,
            height: 720,
            poster: Some("thumb.jpg".to_string()),
        })
    );
}

#[test]
fn preview_without_video_or_image_shows_nothing() {
    let preview = Preview { images: vec![], reddit_video_preview: None, enabled: true };
    assert_eq!(preview.render(&Some("thumb.jpg".to_string())), Media::Nothing);
}

#[test]
fn gallery_shows_a_placeholder_for_the_missing_item_only() {
    let slides = gallery().render();
    assert_eq!(
        slides,
        vec![Slide::Clip(clip_of("B", None)), Slide::Missing, Slide::Image(image_of("A"))]
    );
}

#[test]
fn gallery_without_media_shows_placeholders_throughout() {
    let mut empty = gallery();
    empty.media_metadata = vec![];
    assert_eq!(empty.render(), vec![Slide::Missing, Slide::Missing, Slide::Missing]);
}

#[test]
fn gallery_without_items_shows_no_slide() {
    let mut empty = gallery();
    empty.gallery_data.items = vec![];
    assert_eq!(empty.render(), Vec::<Slide>::new());
}

#[test]
fn gallery_looks_media_up_from_the_front() {
    let mut twice = gallery();
    twice.media_metadata.push(MediaEntry {
        media_id: "a".to_string(),
        media: medium("later", GalleryContentType::Video),
    });
    assert_eq!(twice.media("a"), Some(&medium("A", GalleryContentType::Image)));
    assert_eq!(twice.media("gone"), None);
}

#[test]
fn post_without_author_is_shown_as_removed() {
    let mut removed = post("a");
    removed.author = None;
    assert_eq!(removed.byline(), Byline::Removed);
    assert_eq!(removed.render_feed().byline, Byline::Removed);
    assert_eq!(post("a").byline(), Byline::Author("ferris".to_string()));
}

#[test]
fn post_without_content_says_so() {
    let card = post("a").render_feed();
    assert_eq!(
        card,
        Card {
            href: "https://example.com/a".to_string(),
            title: "Title a".to_string(),
            byline: Byline::Author("ferris".to_string()),
            subreddit_href: "/r/rust".to_string(),
            subreddit: "rust".to_string(),
            content: Content::Missing,
        }
    );
}

#[test]
fn post_shows_its_preview_before_gallery_and_text() {
    let mut full = post("a");
    full.preview = Some(preview_with(Some(ImageVariants { gif: None, mp4: Some(set("mp4")) })));
    full.gallery = Some(gallery());
    full.selftext = Some("text".to_string());
    assert_eq!(full.content(), Content::Preview(Media::Clip(clip_of("mp4", Some("thumb.jpg")))));
}

#[test]
fn post_shows_its_gallery_before_its_text() {
    let mut both = post("a");
    both.gallery = Some(gallery());
    both.selftext = Some("text".to_string());
    assert_eq!(
        both.content(),
        Content::Gallery(vec![Slide::Clip(clip_of("B", None)), Slide::Missing, Slide::Image(image_of("A"))])
    );
}

#[test]
fn post_shows_its_text_when_it_has_nothing_else() {
    let mut text = post("a");
    text.selftext = Some("text".to_string());
    assert_eq!(text.content(), Content::Text("text".to_string()));
}

#[test]
fn feed_holds_the_posts_in_order_and_nothing_else() {
    let listing = Listing {
        after: None,
        before: None,
        dist: 4,
        children: vec![
            Thing::Post(post("b")),
            Thing::Unknown("t1".to_string()),
            Thing::Listing(Listing { after: None, before: None, dist: 1, children: vec![Thing::Post(post("x"))] }),
            Thing::Post(post("a")),
        ],
    };
    let titles: Vec<String> = render_listing(&listing).into_iter().map(|card| card.title).collect();
    assert_eq!(titles, vec!["Title b".to_string(), "Title a".to_string()]);
}

#[test]
fn feed_of_an_empty_listing_is_empty() {
    let listing = Listing { after: None, before: None, dist: 0, children: vec![] };
    assert_eq!(render_listing(&listing), Vec::<Card>::new());
}

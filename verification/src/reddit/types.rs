//! The data model of the upstream service, with the mathematical value of
//! each type.

use crate::json::{JsonNumber, NumberValue};
use vstd::prelude::*;

verus! {

/// An envelope of the upstream service: a tag and what the tag announces.
#[derive(Debug, PartialEq, Eq)]
pub enum Thing {
    /// A post (tag `t3`).
    Post(Post),
    /// A page of things (tag `Listing`).
    Listing(Listing),
    /// A thing of a kind that this model does not know, with its tag. What
    /// it held is dropped.
    Unknown(String),
}

/// A page of things, in the order in which the upstream service gave them.
#[derive(Debug, PartialEq, Eq)]
pub struct Listing {
    pub after: Option<String>,
    pub before: Option<String>,
    pub dist: u64,
    pub children: Vec<Thing>,
}

#[derive(Debug, PartialEq, Eq)]
pub struct Post {
    pub id: String,
    /// `id` with the prefix that the upstream service gives to posts.
    pub name: String,
    pub title: String,
    pub subreddit: String,
    pub subreddit_name_prefixed: String,
    pub subreddit_subscribers: Option<u64>,
    /// `None` where the author was deleted or removed.
    pub author: Option<String>,
    pub url: String,
    pub url_overridden_by_dest: Option<String>,
    pub selftext: Option<String>,
    pub domain: Option<String>,
    pub thumbnail: Option<String>,
    pub preview: Option<Preview>,
    pub gallery: Option<Gallery>,
    pub num_comments: u64,
    pub num_crossposts: u64,
    pub downs: i64,
    pub ups: i64,
    /// `ups` less `downs`, as the upstream service gave it.
    pub score: i64,
    /// The share of `ups` among all votes, as the upstream service gave it.
    pub upvote_ratio: JsonNumber,
    /// `None`: no vote; `Some(true)`: an upvote; `Some(false)`: a downvote.
    pub likes: Option<bool>,
    pub saved: bool,
    pub hidden: bool,
    pub spoiler: bool,
    pub pinned: bool,
    pub over_18: bool,
}

#[derive(Debug, PartialEq, Eq)]
pub struct Preview {
    /// The first image is the one that counts.
    pub images: Vec<PreviewSourceSet>,
    pub reddit_video_preview: Option<RedditVideoPreview>,
    pub enabled: bool,
}

#[derive(Debug, PartialEq, Eq)]
pub struct Gallery {
    pub gallery_data: GalleryData,
    /// The media of the gallery, each under its media id. A gallery that was
    /// decoded holds no id twice: see [`GalleryValue::well_formed`]. An id
    /// is looked up from the front: see [`media_of`].
    pub media_metadata: Vec<MediaEntry>,
}

#[derive(Debug, PartialEq, Eq)]
pub struct GalleryData {
    pub items: Vec<GalleryItem>,
}

#[derive(Debug, PartialEq, Eq)]
pub struct GalleryItem {
    pub id: u64,
    pub media_id: String,
    pub caption: Option<String>,
}

/// One entry of a gallery's media: a media id and what stands under it.
#[derive(Debug, PartialEq, Eq)]
pub struct MediaEntry {
    pub media_id: String,
    pub media: GallerySourceSet,
}

#[derive(Debug, PartialEq, Eq)]
pub struct GallerySourceSet {
    pub source: SourceSet,
    pub content_type: GalleryContentType,
    pub mime: Option<String>,
}

#[derive(Clone, Copy, Debug, PartialEq, Eq, Structural)]
pub enum GalleryContentType {
    Image,
    Video,
}

#[derive(Debug, PartialEq, Eq)]
pub struct PreviewSourceSet {
    pub id: String,
    pub default: SourceSet,
    pub variants: Option<ImageVariants>,
}

/// One medium in its main resolution and in others.
#[derive(Debug, PartialEq, Eq)]
pub struct SourceSet {
    pub source: Source,
    pub resolutions: Vec<Source>,
}

#[derive(Debug, PartialEq, Eq)]
pub struct ImageVariants {
    pub gif: Option<SourceSet>,
    pub mp4: Option<SourceSet>,
}

#[derive(Debug, PartialEq, Eq)]
pub struct Source {
    pub url: String,
    pub width: i64,
    pub height: i64,
}

#[derive(Debug, PartialEq, Eq)]
pub struct RedditVideoPreview {
    /// Usually the URL of an mp4 file.
    pub fallback_url: String,
    pub height: u64,
    pub width: u64,
    pub dash_url: String,
    pub duration: u64,
    pub is_gif: bool,
}

/// The mathematical value of a [`Thing`].
pub enum ThingValue {
    Post(PostValue),
    Listing(ListingValue),
    Unknown(Seq<char>),
}

/// The mathematical value of a [`Listing`].
pub struct ListingValue {
    pub after: Option<Seq<char>>,
    pub before: Option<Seq<char>>,
    pub dist: u64,
    pub children: Seq<ThingValue>,
}

/// The mathematical value of a [`Post`].
pub struct PostValue {
    pub id: Seq<char>,
    pub name: Seq<char>,
    pub title: Seq<char>,
    pub subreddit: Seq<char>,
    pub subreddit_name_prefixed: Seq<char>,
    pub subreddit_subscribers: Option<u64>,
    pub author: Option<Seq<char>>,
    pub url: Seq<char>,
    pub url_overridden_by_dest: Option<Seq<char>>,
    pub selftext: Option<Seq<char>>,
    pub domain: Option<Seq<char>>,
    pub thumbnail: Option<Seq<char>>,
    pub preview: Option<PreviewValue>,
    pub gallery: Option<GalleryValue>,
    pub num_comments: u64,
    pub num_crossposts: u64,
    pub downs: i64,
    pub ups: i64,
    pub score: i64,
    pub upvote_ratio: NumberValue,
    pub likes: Option<bool>,
    pub saved: bool,
    pub hidden: bool,
    pub spoiler: bool,
    pub pinned: bool,
    pub over_18: bool,
}

/// The mathematical value of a [`Preview`].
pub struct PreviewValue {
    pub images: Seq<PreviewSourceSetValue>,
    pub reddit_video_preview: Option<RedditVideoPreviewValue>,
    pub enabled: bool,
}

/// The mathematical value of a [`Gallery`].
pub struct GalleryValue {
    pub gallery_data: GalleryDataValue,
    pub media_metadata: Seq<(Seq<char>, GallerySourceSetValue)>,
}

/// The mathematical value of a [`GalleryData`].
pub struct GalleryDataValue {
    pub items: Seq<GalleryItemValue>,
}

/// The mathematical value of a [`GalleryItem`].
pub struct GalleryItemValue {
    pub id: u64,
    pub media_id: Seq<char>,
    pub caption: Option<Seq<char>>,
}

/// The mathematical value of a [`GallerySourceSet`].
pub struct GallerySourceSetValue {
    pub source: SourceSetValue,
    pub content_type: GalleryContentType,
    pub mime: Option<Seq<char>>,
}

/// The mathematical value of a [`PreviewSourceSet`].
pub struct PreviewSourceSetValue {
    pub id: Seq<char>,
    pub default: SourceSetValue,
    pub variants: Option<ImageVariantsValue>,
}

/// The mathematical value of a [`SourceSet`].
pub struct SourceSetValue {
    pub source: SourceValue,
    pub resolutions: Seq<SourceValue>,
}

/// The mathematical value of an [`ImageVariants`].
pub struct ImageVariantsValue {
    pub gif: Option<SourceSetValue>,
    pub mp4: Option<SourceSetValue>,
}

/// The mathematical value of a [`Source`].
pub struct SourceValue {
    pub url: Seq<char>,
    pub width: i64,
    pub height: i64,
}

/// The mathematical value of a [`RedditVideoPreview`].
pub struct RedditVideoPreviewValue {
    pub fallback_url: Seq<char>,
    pub height: u64,
    pub width: u64,
    pub dash_url: Seq<char>,
    pub duration: u64,
    pub is_gif: bool,
}

impl DeepView for Source {
    type V = SourceValue;

    open spec fn deep_view(&self) -> SourceValue {
        SourceValue { url: self.url@, width: self.width, height: self.height }
    }
}

impl DeepView for SourceSet {
    type V = SourceSetValue;

    open spec fn deep_view(&self) -> SourceSetValue {
        SourceSetValue {
            source: self.source.deep_view(),
            resolutions: self.resolutions.deep_view(),
        }
    }
}

impl DeepView for ImageVariants {
    type V = ImageVariantsValue;

    open spec fn deep_view(&self) -> ImageVariantsValue {
        ImageVariantsValue { gif: self.gif.deep_view(), mp4: self.mp4.deep_view() }
    }
}

impl DeepView for PreviewSourceSet {
    type V = PreviewSourceSetValue;

    open spec fn deep_view(&self) -> PreviewSourceSetValue {
        PreviewSourceSetValue {
            id: self.id@,
            default: self.default.deep_view(),
            variants: self.variants.deep_view(),
        }
    }
}

impl DeepView for RedditVideoPreview {
    type V = RedditVideoPreviewValue;

    open spec fn deep_view(&self) -> RedditVideoPreviewValue {
        RedditVideoPreviewValue {
            fallback_url: self.fallback_url@,
            height: self.height,
            width: self.width,
            dash_url: self.dash_url@,
            duration: self.duration,
            is_gif: self.is_gif,
        }
    }
}

impl DeepView for Preview {
    type V = PreviewValue;

    open spec fn deep_view(&self) -> PreviewValue {
        PreviewValue {
            images: self.images.deep_view(),
            reddit_video_preview: self.reddit_video_preview.deep_view(),
            enabled: self.enabled,
        }
    }
}

impl DeepView for GalleryContentType {
    type V = GalleryContentType;

    open spec fn deep_view(&self) -> GalleryContentType {
        *self
    }
}

impl DeepView for GallerySourceSet {
    type V = GallerySourceSetValue;

    open spec fn deep_view(&self) -> GallerySourceSetValue {
        GallerySourceSetValue {
            source: self.source.deep_view(),
            content_type: self.content_type,
            mime: self.mime.deep_view(),
        }
    }
}

impl DeepView for MediaEntry {
    type V = (Seq<char>, GallerySourceSetValue);

    open spec fn deep_view(&self) -> (Seq<char>, GallerySourceSetValue) {
        (self.media_id@, self.media.deep_view())
    }
}

impl DeepView for GalleryItem {
    type V = GalleryItemValue;

    open spec fn deep_view(&self) -> GalleryItemValue {
        GalleryItemValue { id: self.id, media_id: self.media_id@, caption: self.caption.deep_view() }
    }
}

impl DeepView for GalleryData {
    type V = GalleryDataValue;

    open spec fn deep_view(&self) -> GalleryDataValue {
        GalleryDataValue { items: self.items.deep_view() }
    }
}

impl DeepView for Gallery {
    type V = GalleryValue;

    open spec fn deep_view(&self) -> GalleryValue {
        GalleryValue {
            gallery_data: self.gallery_data.deep_view(),
            media_metadata: self.media_metadata.deep_view(),
        }
    }
}

impl DeepView for Post {
    type V = PostValue;

    open spec fn deep_view(&self) -> PostValue {
        PostValue {
            id: self.id@,
            name: self.name@,
            title: self.title@,
            subreddit: self.subreddit@,
            subreddit_name_prefixed: self.subreddit_name_prefixed@,
            subreddit_subscribers: self.subreddit_subscribers,
            author: self.author.deep_view(),
            url: self.url@,
            url_overridden_by_dest: self.url_overridden_by_dest.deep_view(),
            selftext: self.selftext.deep_view(),
            domain: self.domain.deep_view(),
            thumbnail: self.thumbnail.deep_view(),
            preview: self.preview.deep_view(),
            gallery: self.gallery.deep_view(),
            num_comments: self.num_comments,
            num_crossposts: self.num_crossposts,
            downs: self.downs,
            ups: self.ups,
            score: self.score,
            upvote_ratio: self.upvote_ratio.deep_view(),
            likes: self.likes,
            saved: self.saved,
            hidden: self.hidden,
            spoiler: self.spoiler,
            pinned: self.pinned,
            over_18: self.over_18,
        }
    }
}

/// The value of a thing: a listing's children each by their own value.
pub open spec fn thing_value(thing: Thing) -> ThingValue
    decreases thing,
{
    match thing {
        Thing::Post(post) => ThingValue::Post(post.deep_view()),
        Thing::Listing(listing) => ThingValue::Listing(
            ListingValue {
                after: listing.after.deep_view(),
                before: listing.before.deep_view(),
                dist: listing.dist,
                children: Seq::new(
                    listing.children.len() as nat,
                    |i: int|
                        if 0 <= i < listing.children.len() {
                            thing_value(listing.children[i])
                        } else {
                            ThingValue::Unknown(Seq::empty())
                        },
                ),
            },
        ),
        Thing::Unknown(kind) => ThingValue::Unknown(kind@),
    }
}

impl DeepView for Thing {
    type V = ThingValue;

    open spec fn deep_view(&self) -> ThingValue {
        thing_value(*self)
    }
}

impl DeepView for Listing {
    type V = ListingValue;

    open spec fn deep_view(&self) -> ListingValue {
        ListingValue {
            after: self.after.deep_view(),
            before: self.before.deep_view(),
            dist: self.dist,
            children: self.children.deep_view(),
        }
    }
}

/// The value of a thing that is a listing holds the value of the listing.
pub proof fn lemma_listing_value(listing: Listing)
    ensures
        Thing::Listing(listing).deep_view() == ThingValue::Listing(listing.deep_view()),
{
    assert(Thing::Listing(listing).deep_view()->Listing_0.children =~= listing.children.deep_view());
}

/// What stands under `media_id` among a gallery's media: the first entry
/// with that id.
pub open spec fn media_of(
    media: Seq<(Seq<char>, GallerySourceSetValue)>,
    media_id: Seq<char>,
    from: int,
) -> Option<GallerySourceSetValue>
    decreases media.len() - from,
{
    if from < 0 || from >= media.len() {
        None
    } else if media[from].0 == media_id {
        Some(media[from].1)
    } else {
        media_of(media, media_id, from + 1)
    }
}

/// Whether no media id stands twice among a gallery's media.
pub open spec fn distinct_ids(media: Seq<(Seq<char>, GallerySourceSetValue)>) -> bool {
    forall|i: int, j: int| 0 <= i < j < media.len() ==> media[i].0 != media[j].0
}

impl GalleryValue {
    /// Whether the media of the gallery stand each under an id of its own.
    pub open spec fn well_formed(self) -> bool {
        distinct_ids(self.media_metadata)
    }
}

} // verus!

//! What is shown of the data model: the model of each element that a page
//! holds.

use crate::reddit::types::{
    media_of, Gallery, GalleryContentType, GallerySourceSet, GallerySourceSetValue, GalleryValue,
    Post, PostValue, Preview, PreviewValue, Source, SourceSet, SourceSetValue,
    SourceValue,
};
use crate::text::{copied, joined, lemma_pushed, same_text};
use vstd::prelude::*;

verus! {

/// An image to show.
#[derive(Debug, PartialEq, Eq)]
pub struct Image {
    pub src: String,
    pub width: i64,
    pub height: i64,
}

/// A video made of a source set: its main resolution, and the others as
/// alternatives.
#[derive(Debug, PartialEq, Eq)]
pub struct Clip {
    pub src: String,
    pub width: i64,
    pub height: i64,
    pub poster: Option<String>,
    pub alternatives: Vec<Source>,
}

/// A video that the upstream service hosts: a stream manifest, and a file
/// to fall back on.
#[derive(Debug, PartialEq, Eq)]
pub struct Stream {
    pub fallback_url: String,
    pub dash_url: String,
    pub width: u64,
    pub height: u64,
    pub poster: Option<String>,
}

/// What a preview shows.
#[derive(Debug, PartialEq, Eq)]
pub enum Media {
    Stream(Stream),
    Image(Image),
    Clip(Clip),
    /// The preview holds neither a video nor an image.
    Nothing,
}

/// What one item of a gallery shows.
#[derive(Debug, PartialEq, Eq)]
pub enum Slide {
    Image(Image),
    Clip(Clip),
    /// The gallery holds no media under the item's media id.
    Missing,
}

/// Who wrote a post.
#[derive(Debug, PartialEq, Eq)]
pub enum Byline {
    Author(String),
    /// The author was deleted or removed.
    Removed,
}

/// The content of a post.
#[derive(Debug, PartialEq, Eq)]
pub enum Content {
    Preview(Media),
    Gallery(Vec<Slide>),
    Text(String),
    /// The post holds no preview, no gallery and no text.
    Missing,
}

/// A post as the feed shows it.
#[derive(Debug, PartialEq, Eq)]
pub struct Card {
    pub href: String,
    pub title: String,
    pub byline: Byline,
    pub subreddit_href: String,
    pub subreddit: String,
    pub content: Content,
}

/// The mathematical value of an [`Image`].
pub struct ImageValue {
    pub src: Seq<char>,
    pub width: i64,
    pub height: i64,
}

/// The mathematical value of a [`Clip`].
pub struct ClipValue {
    pub src: Seq<char>,
    pub width: i64,
    pub height: i64,
    pub poster: Option<Seq<char>>,
    pub alternatives: Seq<SourceValue>,
}

/// The mathematical value of a [`Stream`].
pub struct StreamValue {
    pub fallback_url: Seq<char>,
    pub dash_url: Seq<char>,
    pub width: u64,
    pub height: u64,
    pub poster: Option<Seq<char>>,
}

/// The mathematical value of a [`Media`].
pub enum MediaValue {
    Stream(StreamValue),
    Image(ImageValue),
    Clip(ClipValue),
    Nothing,
}

/// The mathematical value of a [`Slide`].
pub enum SlideValue {
    Image(ImageValue),
    Clip(ClipValue),
    Missing,
}

/// The mathematical value of a [`Byline`].
pub enum BylineValue {
    Author(Seq<char>),
    Removed,
}

/// The mathematical value of a [`Content`].
pub enum ContentValue {
    Preview(MediaValue),
    Gallery(Seq<SlideValue>),
    Text(Seq<char>),
    Missing,
}

/// The mathematical value of a [`Card`].
pub struct CardValue {
    pub href: Seq<char>,
    pub title: Seq<char>,
    pub byline: BylineValue,
    pub subreddit_href: Seq<char>,
    pub subreddit: Seq<char>,
    pub content: ContentValue,
}

impl DeepView for Image {
    type V = ImageValue;

    open spec fn deep_view(&self) -> ImageValue {
        ImageValue { src: self.src@, width: self.width, height: self.height }
    }
}

impl DeepView for Clip {
    type V = ClipValue;

    open spec fn deep_view(&self) -> ClipValue {
        ClipValue {
            src: self.src@,
            width: self.width,
            height: self.height,
            poster: self.poster.deep_view(),
            alternatives: self.alternatives.deep_view(),
        }
    }
}

impl DeepView for Stream {
    type V = StreamValue;

    open spec fn deep_view(&self) -> StreamValue {
        StreamValue {
            fallback_url: self.fallback_url@,
            dash_url: self.dash_url@,
            width: self.width,
            height: self.height,
            poster: self.poster.deep_view(),
        }
    }
}

impl DeepView for Media {
    type V = MediaValue;

    open spec fn deep_view(&self) -> MediaValue {
        match self {
            Media::Stream(s) => MediaValue::Stream(s.deep_view()),
            Media::Image(i) => MediaValue::Image(i.deep_view()),
            Media::Clip(c) => MediaValue::Clip(c.deep_view()),
            Media::Nothing => MediaValue::Nothing,
        }
    }
}

impl DeepView for Slide {
    type V = SlideValue;

    open spec fn deep_view(&self) -> SlideValue {
        match self {
            Slide::Image(i) => SlideValue::Image(i.deep_view()),
            Slide::Clip(c) => SlideValue::Clip(c.deep_view()),
            Slide::Missing => SlideValue::Missing,
        }
    }
}

impl DeepView for Byline {
    type V = BylineValue;

    open spec fn deep_view(&self) -> BylineValue {
        match self {
            Byline::Author(a) => BylineValue::Author(a@),
            Byline::Removed => BylineValue::Removed,
        }
    }
}

impl DeepView for Content {
    type V = ContentValue;

    open spec fn deep_view(&self) -> ContentValue {
        match self {
            Content::Preview(m) => ContentValue::Preview(m.deep_view()),
            Content::Gallery(slides) => ContentValue::Gallery(slides.deep_view()),
            Content::Text(t) => ContentValue::Text(t@),
            Content::Missing => ContentValue::Missing,
        }
    }
}

impl DeepView for Card {
    type V = CardValue;

    open spec fn deep_view(&self) -> CardValue {
        CardValue {
            href: self.href@,
            title: self.title@,
            byline: self.byline.deep_view(),
            subreddit_href: self.subreddit_href@,
            subreddit: self.subreddit@,
            content: self.content.deep_view(),
        }
    }
}

impl SourceSetValue {
    /// The set as an image: its main resolution.
    pub open spec fn image(self) -> ImageValue {
        ImageValue { src: self.source.url, width: self.source.width, height: self.source.height }
    }

    /// The set as a video with the given poster: its main resolution, and
    /// every other resolution, in order, as an alternative.
    pub open spec fn clip(self, poster: Option<Seq<char>>) -> ClipValue {
        ClipValue {
            src: self.source.url,
            width: self.source.width,
            height: self.source.height,
            poster,
            alternatives: self.resolutions,
        }
    }
}

impl GallerySourceSetValue {
    /// What a gallery shows for this medium: an image, or a video without
    /// a poster.
    pub open spec fn slide(self) -> SlideValue {
        match self.content_type {
            GalleryContentType::Image => SlideValue::Image(self.source.image()),
            GalleryContentType::Video => SlideValue::Clip(self.source.clip(None)),
        }
    }
}

/// What a gallery shows for an item whose media id was looked up.
pub open spec fn slide_of(found: Option<GallerySourceSetValue>) -> SlideValue {
    match found {
        Some(media) => media.slide(),
        None => SlideValue::Missing,
    }
}

impl GalleryValue {
    /// What the gallery shows for its item `i`.
    pub open spec fn slide(self, i: int) -> SlideValue {
        slide_of(media_of(self.media_metadata, self.gallery_data.items[i].media_id, 0))
    }

    /// One slide for each item, in the items' order.
    pub open spec fn slides(self) -> Seq<SlideValue> {
        Seq::new(self.gallery_data.items.len(), |i: int| self.slide(i))
    }
}

impl PreviewValue {
    /// What the preview shows, with `thumbnail` as the poster of a video.
    /// The hosted video goes before the images; of the first image, the gif
    /// variant goes before the mp4 variant, and that before the image itself.
    pub open spec fn media(self, thumbnail: Option<Seq<char>>) -> MediaValue {
        match self.reddit_video_preview {
            Some(video) => MediaValue::Stream(
                StreamValue {
                    fallback_url: video.fallback_url,
                    dash_url: video.dash_url,
                    width: video.width,
                    height: video.height,
                    poster: thumbnail,
                },
            ),
            None => if self.images.len() == 0 {
                MediaValue::Nothing
            } else {
                let first = self.images[0];
                match first.variants {
                    Some(variants) => match (variants.gif, variants.mp4) {
                        (Some(gif), _) => MediaValue::Image(gif.image()),
                        (None, Some(mp4)) => MediaValue::Clip(mp4.clip(thumbnail)),
                        (None, None) => MediaValue::Image(first.default.image()),
                    },
                    None => MediaValue::Image(first.default.image()),
                }
            },
        }
    }
}

impl PostValue {
    /// Who wrote the post.
    pub open spec fn byline(self) -> BylineValue {
        match self.author {
            Some(author) => BylineValue::Author(author),
            None => BylineValue::Removed,
        }
    }

    /// The content of the post: its preview; failing that, its gallery;
    /// failing that, its text.
    pub open spec fn content(self) -> ContentValue {
        match (self.preview, self.gallery, self.selftext) {
            (Some(preview), _, _) => ContentValue::Preview(preview.media(self.thumbnail)),
            (None, Some(gallery), _) => ContentValue::Gallery(gallery.slides()),
            (None, None, Some(text)) => ContentValue::Text(text),
            (None, None, None) => ContentValue::Missing,
        }
    }

    /// The post as the feed shows it.
    pub open spec fn card(self) -> CardValue {
        CardValue {
            href: self.url,
            title: self.title,
            byline: self.byline(),
            subreddit_href: "/"@ + self.subreddit_name_prefixed,
            subreddit: self.subreddit,
            content: self.content(),
        }
    }
}

impl Source {
    /// A copy of the source.
    pub fn duplicate(&self) -> (r: Source)
        ensures
            r.deep_view() == self.deep_view(),
    {
        Source { url: self.url.clone(), width: self.width, height: self.height }
    }
}

impl SourceSet {
    /// The set as an image.
    pub fn render_img(&self) -> (r: Image)
        ensures
            r.deep_view() == self.deep_view().image(),
    {
        Image { src: self.source.url.clone(), width: self.source.width, height: self.source.height }
    }

    /// The set as a video with the given poster.
    pub fn render_video(&self, poster: &Option<String>) -> (r: Clip)
        ensures
            r.deep_view() == self.deep_view().clip(poster.deep_view()),
    {
        let mut alternatives: Vec<Source> = Vec::new();
        let mut i: usize = 0;
        while i < self.resolutions.len()
            invariant
                i <= self.resolutions.len(),
                alternatives.deep_view() == self.resolutions.deep_view().take(i as int),
            decreases self.resolutions.len() - i,
        {
            let ghost before = alternatives;
            let copy = self.resolutions[i].duplicate();
            alternatives.push(copy);
            proof {
                lemma_pushed(before, alternatives, copy);
                assert(alternatives.deep_view() =~= self.resolutions.deep_view().take(i + 1));
            }
            i += 1;
        }
        assert(alternatives.deep_view() =~= self.resolutions.deep_view());
        Clip {
            src: self.source.url.clone(),
            width: self.source.width,
            height: self.source.height,
            poster: copied(poster),
            alternatives,
        }
    }
}

impl GallerySourceSet {
    /// What a gallery shows for this medium.
    pub fn render(&self) -> (r: Slide)
        ensures
            r.deep_view() == self.deep_view().slide(),
    {
        match self.content_type {
            GalleryContentType::Image => Slide::Image(self.source.render_img()),
            GalleryContentType::Video => Slide::Clip(self.source.render_video(&None)),
        }
    }
}

impl Preview {
    /// What the preview shows, with `thumbnail` as the poster of a video.
    pub fn render(&self, thumbnail: &Option<String>) -> (r: Media)
        ensures
            r.deep_view() == self.deep_view().media(thumbnail.deep_view()),
    {
        match &self.reddit_video_preview {
            Some(video) => Media::Stream(
                Stream {
                    fallback_url: video.fallback_url.clone(),
                    dash_url: video.dash_url.clone(),
                    width: video.width,
                    height: video.height,
                    poster: copied(thumbnail),
                },
            ),
            None => {
                if self.images.len() == 0 {
                    Media::Nothing
                } else {
                    let first = &self.images[0];
                    match &first.variants {
                        Some(variants) => match &variants.gif {
                            Some(gif) => Media::Image(gif.render_img()),
                            None => match &variants.mp4 {
                                Some(mp4) => Media::Clip(mp4.render_video(thumbnail)),
                                None => Media::Image(first.default.render_img()),
                            },
                        },
                        None => Media::Image(first.default.render_img()),
                    }
                }
            },
        }
    }
}

impl Gallery {
    /// The medium that stands under `media_id`, if there is one.
    pub fn media(&self, media_id: &str) -> (r: Option<&GallerySourceSet>)
        ensures
            r.deep_view() == media_of(self.deep_view().media_metadata, media_id@, 0),
    {
        let ghost all = self.media_metadata.deep_view();
        let mut i: usize = 0;
        while i < self.media_metadata.len()
            invariant
                i <= self.media_metadata.len(),
                all == self.media_metadata.deep_view(),
                media_of(all, media_id@, 0) == media_of(all, media_id@, i as int),
            decreases self.media_metadata.len() - i,
        {
            if same_text(self.media_metadata[i].media_id.as_str(), media_id) {
                return Some(&self.media_metadata[i].media);
            }
            i += 1;
        }
        None
    }

    /// One slide for each item of the gallery, in the items' order. An item
    /// whose media id is not among the gallery's media gives
    /// [`Slide::Missing`], and the other items are not touched by that.
    pub fn render(&self) -> (r: Vec<Slide>)
        ensures
            r.deep_view() == self.deep_view().slides(),
            r.len() == self.gallery_data.items.len(),
            forall|i: int|
                0 <= i < r.len() ==> r[i].deep_view() == #[trigger] self.deep_view().slide(i),
    {
        let ghost value = self.deep_view();
        let mut slides: Vec<Slide> = Vec::new();
        let mut i: usize = 0;
        while i < self.gallery_data.items.len()
            invariant
                i <= self.gallery_data.items.len(),
                value == self.deep_view(),
                slides.len() == i,
                forall|k: int|
                    0 <= k < i ==> slides[k].deep_view() == #[trigger] value.slide(k),
            decreases self.gallery_data.items.len() - i,
        {
            let slide = match self.media(self.gallery_data.items[i].media_id.as_str()) {
                Some(media) => media.render(),
                None => Slide::Missing,
            };
            slides.push(slide);
            i += 1;
        }
        assert(slides.deep_view() =~= value.slides());
        slides
    }
}

impl Post {
    /// Who wrote the post.
    pub fn byline(&self) -> (r: Byline)
        ensures
            r.deep_view() == self.deep_view().byline(),
    {
        match &self.author {
            Some(author) => Byline::Author(author.clone()),
            None => Byline::Removed,
        }
    }

    /// The content of the post.
    pub fn content(&self) -> (r: Content)
        ensures
            r.deep_view() == self.deep_view().content(),
    {
        match &self.preview {
            Some(preview) => Content::Preview(preview.render(&self.thumbnail)),
            None => match &self.gallery {
                Some(gallery) => Content::Gallery(gallery.render()),
                None => match &self.selftext {
                    Some(text) => Content::Text(text.clone()),
                    None => Content::Missing,
                },
            },
        }
    }

    /// The post as the feed shows it.
    pub fn render_feed(&self) -> (r: Card)
        ensures
            r.deep_view() == self.deep_view().card(),
    {
        Card {
            href: self.url.clone(),
            title: self.title.clone(),
            byline: self.byline(),
            subreddit_href: joined("/", self.subreddit_name_prefixed.as_str()),
            subreddit: self.subreddit.clone(),
            content: self.content(),
        }
    }
}

/// Of the first image of a preview without a hosted video, the gif variant
/// is what is shown wherever there is one, whether or not there is an mp4
/// variant beside it.
pub proof fn lemma_gif_goes_first(preview: PreviewValue, thumbnail: Option<Seq<char>>)
    requires
        preview.reddit_video_preview is None,
        preview.images.len() > 0,
        preview.images[0].variants is Some,
        preview.images[0].variants->0.gif is Some,
    ensures
        preview.media(thumbnail) == MediaValue::Image(
            preview.images[0].variants->0.gif->0.image(),
        ),
{
}

/// A gallery shows one slide for each of its items, and each slide goes by
/// its own item alone: an item whose media id is not among the media gives
/// the placeholder, and every other item gives what its own media id leads
/// to.
pub proof fn lemma_missing_media_is_local(gallery: GalleryValue, i: int)
    requires
        0 <= i < gallery.gallery_data.items.len(),
        media_of(gallery.media_metadata, gallery.gallery_data.items[i].media_id, 0) is None,
    ensures
        gallery.slides().len() == gallery.gallery_data.items.len(),
        gallery.slides()[i] == SlideValue::Missing,
        forall|j: int|
            0 <= j < gallery.gallery_data.items.len() ==> #[trigger] gallery.slides()[j]
                == slide_of(
                media_of(gallery.media_metadata, gallery.gallery_data.items[j].media_id, 0),
            ),
{
}

} // verus!

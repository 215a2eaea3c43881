//! Decoding JSON documents into the data model.

use crate::field::{
    at, below, below_index, each, find, lemma_each, find_either, flag_at, get_flag, get_i64, get_i64_either, get_items,
    get_items_either, get_number, get_optional_flag, get_optional_text,
    get_optional_text_either, get_optional_u64, get_text, get_text_either, get_u64, i64_at,
    i64_under, items_at, items_under, lemma_each_failed, lookup_either, members_of, number_at,
    optional_flag_at, optional_text_at, optional_text_under, optional_u64_at, outcome,
    path_text, prefix,
    prefix_index, prefixed, prefixed_index, present, read_members, read_present, text_at,
    text_under, u64_at, Fault, FieldPath,
};
use crate::json::{
    lemma_position, lookup, parse, parsed, position, Json, JsonValue, Member,
};
use crate::reddit::types::{
    lemma_listing_value, Gallery, GalleryContentType, Listing, ListingValue, Thing, ThingValue, GalleryData, GalleryDataValue, GalleryItem, GalleryItemValue,
    GallerySourceSet, GallerySourceSetValue, GalleryValue, ImageVariants, ImageVariantsValue,
    MediaEntry, Post, PostValue, Preview, PreviewSourceSet, PreviewSourceSetValue, PreviewValue,
    RedditVideoPreview, RedditVideoPreviewValue, Source, SourceSet, SourceSetValue, SourceValue,
};
use crate::reddit::html::BylineValue;
use crate::text::{joined, lemma_pushed, same_text};
use vstd::prelude::*;

verus! {

/// The members of a JSON object.
pub type Members = Seq<(Seq<char>, JsonValue)>;

/// The source that an object's members describe. Each field may stand under
/// its long key or under its short one.
pub open spec fn source_in(members: Members) -> Result<SourceValue, Fault> {
    let url = text_under(members, "url"@, "u"@);
    let width = i64_under(members, "width"@, "x"@);
    let height = i64_under(members, "height"@, "y"@);
    if url is Err {
        Err(url->Err_0)
    } else if width is Err {
        Err(width->Err_0)
    } else if height is Err {
        Err(height->Err_0)
    } else {
        Ok(SourceValue { url: url->Ok_0, width: width->Ok_0, height: height->Ok_0 })
    }
}

/// The source that a JSON value describes.
pub open spec fn source_of(value: JsonValue) -> Result<SourceValue, Fault> {
    match members_of(value) {
        Ok(members) => source_in(members),
        Err(p) => Err(p),
    }
}

/// Decodes a source.
pub fn decode_source(value: &Json) -> (r: Result<Source, FieldPath>)
    ensures
        outcome(r) == source_of(value.deep_view()),
{
    let members = read_members(value)?;
    let url = get_text_either(members, "url", "u")?;
    let width = get_i64_either(members, "width", "x")?;
    let height = get_i64_either(members, "height", "y")?;
    Ok(Source { url, width, height })
}

/// The sources that the first `n` items of an array describe.
pub open spec fn sources_upto(items: Seq<JsonValue>, n: int) -> Result<Seq<SourceValue>, Fault> {
    each(items, |i: int, v: JsonValue| prefixed_index(i as nat, source_of(v)), n)
}

/// Decodes an array of sources, in order.
pub fn decode_sources(items: &Vec<Json>) -> (r: Result<Vec<Source>, FieldPath>)
    ensures
        outcome(r) == sources_upto(items.deep_view(), items.len() as int),
{
    let mut out: Vec<Source> = Vec::new();
    let mut i: usize = 0;
    assert(out.deep_view() =~= Seq::empty());
    while i < items.len()
        invariant
            i <= items.len(),
            sources_upto(items.deep_view(), i as int) == Ok::<Seq<SourceValue>, Fault>(
                out.deep_view(),
            ),
        decreases items.len() - i,
    {
        let ghost before = out;
        match prefix_index(decode_source(&items[i]), i) {
            Ok(one) => {
                out.push(one);
                proof {
                    lemma_pushed(before, out, one);
                }
            },
            Err(p) => {
                proof {
                    lemma_each_failed(
                        items.deep_view(),
                        |i: int, v: JsonValue| prefixed_index(i as nat, source_of(v)),
                        i + 1,
                        items.len() as int,
                    );
                }
                return Err(p);
            },
        }
        i += 1;
    }
    Ok(out)
}

/// The source set that an object's members describe: a main source, and an
/// array of sources in other resolutions.
pub open spec fn source_set_in(members: Members) -> Result<SourceSetValue, Fault> {
    let source = match lookup_either(members, "source"@, "s"@) {
        Err(p) => Err(p),
        Ok(None) => Err(at("source"@)),
        Ok(Some(v)) => prefixed("source"@, source_of(v)),
    };
    let resolutions = match items_under(members, "resolutions"@, "p"@) {
        Err(p) => Err(p),
        Ok(items) => prefixed("resolutions"@, sources_upto(items, items.len() as int)),
    };
    if source is Err {
        Err(source->Err_0)
    } else if resolutions is Err {
        Err(resolutions->Err_0)
    } else {
        Ok(SourceSetValue { source: source->Ok_0, resolutions: resolutions->Ok_0 })
    }
}

/// The source set that a JSON value describes.
pub open spec fn source_set_of(value: JsonValue) -> Result<SourceSetValue, Fault> {
    match members_of(value) {
        Ok(members) => source_set_in(members),
        Err(p) => Err(p),
    }
}

/// The source set that stands among the members of an object, beside
/// whatever else the object holds.
pub fn decode_source_set_in(members: &Vec<Member>) -> (r: Result<SourceSet, FieldPath>)
    ensures
        outcome(r) == source_set_in(members.deep_view()),
{
    let source = match find_either(members, "source", "s")? {
        None => {
            return Err(FieldPath::at("source"));
        },
        Some(v) => prefix(decode_source(v), "source")?,
    };
    let items = get_items_either(members, "resolutions", "p")?;
    let resolutions = prefix(decode_sources(items), "resolutions")?;
    Ok(SourceSet { source, resolutions })
}

/// Decodes a source set.
pub fn decode_source_set(value: &Json) -> (r: Result<SourceSet, FieldPath>)
    ensures
        outcome(r) == source_set_of(value.deep_view()),
{
    let members = read_members(value)?;
    decode_source_set_in(members)
}

/// The source set under `name`, where there is one: a member that is
/// `null` or absent gives none.
pub open spec fn optional_source_set_at(members: Members, name: Seq<char>) -> Result<
    Option<SourceSetValue>,
    Fault,
> {
    match present(lookup(members, name)) {
        None => Ok(None),
        Some(v) => match source_set_of(v) {
            Ok(set) => Ok(Some(set)),
            Err(p) => Err(below(name, p)),
        },
    }
}

/// Decodes the source set under `name`, where there is one.
pub fn decode_optional_source_set(members: &Vec<Member>, name: &str) -> (r: Result<
    Option<SourceSet>,
    FieldPath,
>)
    ensures
        outcome(r) == optional_source_set_at(members.deep_view(), name@),
{
    match read_present(find(members, name)) {
        None => Ok(None),
        Some(v) => match decode_source_set(v) {
            Ok(set) => Ok(Some(set)),
            Err(p) => Err(p.below(name)),
        },
    }
}

/// The variants that a JSON value describes.
pub open spec fn image_variants_of(value: JsonValue) -> Result<ImageVariantsValue, Fault> {
    match members_of(value) {
        Err(p) => Err(p),
        Ok(members) => {
            let gif = optional_source_set_at(members, "gif"@);
            let mp4 = optional_source_set_at(members, "mp4"@);
            if gif is Err {
                Err(gif->Err_0)
            } else if mp4 is Err {
                Err(mp4->Err_0)
            } else {
                Ok(ImageVariantsValue { gif: gif->Ok_0, mp4: mp4->Ok_0 })
            }
        },
    }
}

/// Decodes the variants of an image.
pub fn decode_image_variants(value: &Json) -> (r: Result<ImageVariants, FieldPath>)
    ensures
        outcome(r) == image_variants_of(value.deep_view()),
{
    let members = read_members(value)?;
    let gif = decode_optional_source_set(members, "gif")?;
    let mp4 = decode_optional_source_set(members, "mp4")?;
    Ok(ImageVariants { gif, mp4 })
}

/// The image of a preview that a JSON value describes. Its default source
/// set stands among the members of the value itself.
pub open spec fn preview_source_set_of(value: JsonValue) -> Result<PreviewSourceSetValue, Fault> {
    match members_of(value) {
        Err(p) => Err(p),
        Ok(members) => {
            let id = text_at(members, "id"@);
            let default = source_set_in(members);
            let variants = match present(lookup(members, "variants"@)) {
                None => Ok(None),
                Some(v) => match image_variants_of(v) {
                    Ok(variants) => Ok(Some(variants)),
                    Err(p) => Err(below("variants"@, p)),
                },
            };
            if id is Err {
                Err(id->Err_0)
            } else if default is Err {
                Err(default->Err_0)
            } else if variants is Err {
                Err(variants->Err_0)
            } else {
                Ok(
                    PreviewSourceSetValue {
                        id: id->Ok_0,
                        default: default->Ok_0,
                        variants: variants->Ok_0,
                    },
                )
            }
        },
    }
}

/// Decodes one image of a preview.
pub fn decode_preview_source_set(value: &Json) -> (r: Result<PreviewSourceSet, FieldPath>)
    ensures
        outcome(r) == preview_source_set_of(value.deep_view()),
{
    let members = read_members(value)?;
    let id = get_text(members, "id")?;
    let default = decode_source_set_in(members)?;
    let variants = match read_present(find(members, "variants")) {
        None => None,
        Some(v) => Some(prefix(decode_image_variants(v), "variants")?),
    };
    Ok(PreviewSourceSet { id, default, variants })
}

/// The images that the first `n` items of an array describe.
pub open spec fn images_upto(items: Seq<JsonValue>, n: int) -> Result<
    Seq<PreviewSourceSetValue>,
    Fault,
> {
    each(items, |i: int, v: JsonValue| prefixed_index(i as nat, preview_source_set_of(v)), n)
}

/// Decodes the images of a preview, in order.
pub fn decode_images(items: &Vec<Json>) -> (r: Result<Vec<PreviewSourceSet>, FieldPath>)
    ensures
        outcome(r) == images_upto(items.deep_view(), items.len() as int),
{
    let mut out: Vec<PreviewSourceSet> = Vec::new();
    let mut i: usize = 0;
    assert(out.deep_view() =~= Seq::empty());
    while i < items.len()
        invariant
            i <= items.len(),
            images_upto(items.deep_view(), i as int) == Ok::<Seq<PreviewSourceSetValue>, Fault>(
                out.deep_view(),
            ),
        decreases items.len() - i,
    {
        let ghost before = out;
        match prefix_index(decode_preview_source_set(&items[i]), i) {
            Ok(one) => {
                out.push(one);
                proof {
                    lemma_pushed(before, out, one);
                }
            },
            Err(p) => {
                proof {
                    lemma_each_failed(
                        items.deep_view(),
                        |i: int, v: JsonValue| prefixed_index(i as nat, preview_source_set_of(v)),
                        i + 1,
                        items.len() as int,
                    );
                }
                return Err(p);
            },
        }
        i += 1;
    }
    Ok(out)
}

/// The hosted video that a JSON value describes.
pub open spec fn video_preview_of(value: JsonValue) -> Result<RedditVideoPreviewValue, Fault> {
    match members_of(value) {
        Err(p) => Err(p),
        Ok(members) => {
            let fallback_url = text_at(members, "fallback_url"@);
            let height = u64_at(members, "height"@);
            let width = u64_at(members, "width"@);
            let dash_url = text_at(members, "dash_url"@);
            let duration = u64_at(members, "duration"@);
            let is_gif = flag_at(members, "is_gif"@);
            if fallback_url is Err {
                Err(fallback_url->Err_0)
            } else if height is Err {
                Err(height->Err_0)
            } else if width is Err {
                Err(width->Err_0)
            } else if dash_url is Err {
                Err(dash_url->Err_0)
            } else if duration is Err {
                Err(duration->Err_0)
            } else if is_gif is Err {
                Err(is_gif->Err_0)
            } else {
                Ok(
                    RedditVideoPreviewValue {
                        fallback_url: fallback_url->Ok_0,
                        height: height->Ok_0,
                        width: width->Ok_0,
                        dash_url: dash_url->Ok_0,
                        duration: duration->Ok_0,
                        is_gif: is_gif->Ok_0,
                    },
                )
            }
        },
    }
}

/// Decodes a hosted video.
pub fn decode_video_preview(value: &Json) -> (r: Result<RedditVideoPreview, FieldPath>)
    ensures
        outcome(r) == video_preview_of(value.deep_view()),
{
    let members = read_members(value)?;
    let fallback_url = get_text(members, "fallback_url")?;
    let height = get_u64(members, "height")?;
    let width = get_u64(members, "width")?;
    let dash_url = get_text(members, "dash_url")?;
    let duration = get_u64(members, "duration")?;
    let is_gif = get_flag(members, "is_gif")?;
    Ok(RedditVideoPreview { fallback_url, height, width, dash_url, duration, is_gif })
}

/// The preview that a JSON value describes.
pub open spec fn preview_of(value: JsonValue) -> Result<PreviewValue, Fault> {
    match members_of(value) {
        Err(p) => Err(p),
        Ok(members) => {
            let images = match items_at(members, "images"@) {
                Err(p) => Err(p),
                Ok(items) => prefixed("images"@, images_upto(items, items.len() as int)),
            };
            let video = match present(lookup(members, "reddit_video_preview"@)) {
                None => Ok(None),
                Some(v) => match video_preview_of(v) {
                    Ok(video) => Ok(Some(video)),
                    Err(p) => Err(below("reddit_video_preview"@, p)),
                },
            };
            let enabled = flag_at(members, "enabled"@);
            if images is Err {
                Err(images->Err_0)
            } else if video is Err {
                Err(video->Err_0)
            } else if enabled is Err {
                Err(enabled->Err_0)
            } else {
                Ok(
                    PreviewValue {
                        images: images->Ok_0,
                        reddit_video_preview: video->Ok_0,
                        enabled: enabled->Ok_0,
                    },
                )
            }
        },
    }
}

/// Decodes a preview.
pub fn decode_preview(value: &Json) -> (r: Result<Preview, FieldPath>)
    ensures
        outcome(r) == preview_of(value.deep_view()),
{
    let members = read_members(value)?;
    let items = get_items(members, "images")?;
    let images = prefix(decode_images(items), "images")?;
    let reddit_video_preview = match read_present(find(members, "reddit_video_preview")) {
        None => None,
        Some(v) => Some(prefix(decode_video_preview(v), "reddit_video_preview")?),
    };
    let enabled = get_flag(members, "enabled")?;
    Ok(Preview { images, reddit_video_preview, enabled })
}

/// The kind of content that a member names.
pub open spec fn content_type_in(slot: Option<JsonValue>, name: Seq<char>) -> Result<
    GalleryContentType,
    Fault,
> {
    match slot {
        Some(JsonValue::Text(t)) => if t == "Image"@ {
            Ok(GalleryContentType::Image)
        } else if t == "Video"@ {
            Ok(GalleryContentType::Video)
        } else {
            Err(at(name))
        },
        _ => Err(at(name)),
    }
}

/// One medium of a gallery, as a JSON value describes it. Its source set
/// stands among the members of the value itself.
pub open spec fn gallery_source_set_of(value: JsonValue) -> Result<GallerySourceSetValue, Fault> {
    match members_of(value) {
        Err(p) => Err(p),
        Ok(members) => {
            let source = source_set_in(members);
            let content_type = match lookup_either(members, "content_type"@, "e"@) {
                Err(p) => Err(p),
                Ok(slot) => content_type_in(slot, "content_type"@),
            };
            let mime = optional_text_under(members, "mime"@, "m"@);
            if source is Err {
                Err(source->Err_0)
            } else if content_type is Err {
                Err(content_type->Err_0)
            } else if mime is Err {
                Err(mime->Err_0)
            } else {
                Ok(
                    GallerySourceSetValue {
                        source: source->Ok_0,
                        content_type: content_type->Ok_0,
                        mime: mime->Ok_0,
                    },
                )
            }
        },
    }
}

/// Decodes one medium of a gallery.
pub fn decode_gallery_source_set(value: &Json) -> (r: Result<GallerySourceSet, FieldPath>)
    ensures
        outcome(r) == gallery_source_set_of(value.deep_view()),
{
    let members = read_members(value)?;
    let source = decode_source_set_in(members)?;
    let content_type = match find_either(members, "content_type", "e")? {
        Some(Json::Text(t)) => {
            if same_text(t.as_str(), "Image") {
                GalleryContentType::Image
            } else if same_text(t.as_str(), "Video") {
                GalleryContentType::Video
            } else {
                return Err(FieldPath::at("content_type"));
            }
        },
        _ => {
            return Err(FieldPath::at("content_type"));
        },
    };
    let mime = get_optional_text_either(members, "mime", "m")?;
    Ok(GallerySourceSet { source, content_type, mime })
}

/// One entry of a gallery's media, as a member of the object that holds
/// them describes it: the member's key is the media id.
pub open spec fn media_entry_of(member: (Seq<char>, JsonValue)) -> Result<
    (Seq<char>, GallerySourceSetValue),
    Fault,
> {
    match gallery_source_set_of(member.1) {
        Ok(media) => Ok((member.0, media)),
        Err(p) => Err(below(member.0, p)),
    }
}

/// The media that the first `n` members of an object describe.
pub open spec fn media_upto(members: Members, n: int) -> Result<
    Seq<(Seq<char>, GallerySourceSetValue)>,
    Fault,
> {
    each(members, |i: int, m: (Seq<char>, JsonValue)| media_entry_of(m), n)
}

/// Decodes the media of a gallery: one entry for each member of the object
/// that holds them, in the members' order.
pub fn decode_media(members: &Vec<Member>) -> (r: Result<Vec<MediaEntry>, FieldPath>)
    ensures
        outcome(r) == media_upto(members.deep_view(), members.len() as int),
{
    let mut out: Vec<MediaEntry> = Vec::new();
    let mut i: usize = 0;
    assert(out.deep_view() =~= Seq::empty());
    while i < members.len()
        invariant
            i <= members.len(),
            media_upto(members.deep_view(), i as int) == Ok::<
                Seq<(Seq<char>, GallerySourceSetValue)>,
                Fault,
            >(out.deep_view()),
        decreases members.len() - i,
    {
        let ghost before = out;
        match decode_gallery_source_set(&members[i].value) {
            Ok(media) => {
                let entry = MediaEntry { media_id: members[i].key.clone(), media };
                out.push(entry);
                proof {
                    lemma_pushed(before, out, entry);
                }
            },
            Err(p) => {
                proof {
                    lemma_each_failed(
                        members.deep_view(),
                        |i: int, m: (Seq<char>, JsonValue)| media_entry_of(m),
                        i + 1,
                        members.len() as int,
                    );
                }
                return Err(p.below(members[i].key.as_str()));
            },
        }
        i += 1;
    }
    Ok(out)
}

/// One item of a gallery, as a JSON value describes it.
pub open spec fn gallery_item_of(value: JsonValue) -> Result<GalleryItemValue, Fault> {
    match members_of(value) {
        Err(p) => Err(p),
        Ok(members) => {
            let id = u64_at(members, "id"@);
            let media_id = text_at(members, "media_id"@);
            let caption = optional_text_at(members, "caption"@);
            if id is Err {
                Err(id->Err_0)
            } else if media_id is Err {
                Err(media_id->Err_0)
            } else if caption is Err {
                Err(caption->Err_0)
            } else {
                Ok(
                    GalleryItemValue {
                        id: id->Ok_0,
                        media_id: media_id->Ok_0,
                        caption: caption->Ok_0,
                    },
                )
            }
        },
    }
}

/// Decodes one item of a gallery.
pub fn decode_gallery_item(value: &Json) -> (r: Result<GalleryItem, FieldPath>)
    ensures
        outcome(r) == gallery_item_of(value.deep_view()),
{
    let members = read_members(value)?;
    let id = get_u64(members, "id")?;
    let media_id = get_text(members, "media_id")?;
    let caption = get_optional_text(members, "caption")?;
    Ok(GalleryItem { id, media_id, caption })
}

/// The gallery items that the first `n` items of an array describe.
pub open spec fn gallery_items_upto(items: Seq<JsonValue>, n: int) -> Result<
    Seq<GalleryItemValue>,
    Fault,
> {
    each(items, |i: int, v: JsonValue| prefixed_index(i as nat, gallery_item_of(v)), n)
}

/// Decodes the items of a gallery, in order.
pub fn decode_gallery_items(items: &Vec<Json>) -> (r: Result<Vec<GalleryItem>, FieldPath>)
    ensures
        outcome(r) == gallery_items_upto(items.deep_view(), items.len() as int),
{
    let mut out: Vec<GalleryItem> = Vec::new();
    let mut i: usize = 0;
    assert(out.deep_view() =~= Seq::empty());
    while i < items.len()
        invariant
            i <= items.len(),
            gallery_items_upto(items.deep_view(), i as int) == Ok::<Seq<GalleryItemValue>, Fault>(
                out.deep_view(),
            ),
        decreases items.len() - i,
    {
        let ghost before = out;
        match prefix_index(decode_gallery_item(&items[i]), i) {
            Ok(one) => {
                out.push(one);
                proof {
                    lemma_pushed(before, out, one);
                }
            },
            Err(p) => {
                proof {
                    lemma_each_failed(
                        items.deep_view(),
                        |i: int, v: JsonValue| prefixed_index(i as nat, gallery_item_of(v)),
                        i + 1,
                        items.len() as int,
                    );
                }
                return Err(p);
            },
        }
        i += 1;
    }
    Ok(out)
}

/// The data of a gallery, as a JSON value describes it.
pub open spec fn gallery_data_of(value: JsonValue) -> Result<GalleryDataValue, Fault> {
    match members_of(value) {
        Err(p) => Err(p),
        Ok(members) => match items_at(members, "items"@) {
            Err(p) => Err(p),
            Ok(items) => match gallery_items_upto(items, items.len() as int) {
                Ok(items) => Ok(GalleryDataValue { items }),
                Err(p) => Err(below("items"@, p)),
            },
        },
    }
}

/// Decodes the data of a gallery.
pub fn decode_gallery_data(value: &Json) -> (r: Result<GalleryData, FieldPath>)
    ensures
        outcome(r) == gallery_data_of(value.deep_view()),
{
    let members = read_members(value)?;
    let items = get_items(members, "items")?;
    match decode_gallery_items(items) {
        Ok(items) => Ok(GalleryData { items }),
        Err(p) => Err(p.below("items")),
    }
}

/// The gallery that stands among the members of an object: its data under
/// `gallery_data`, its media under `media_metadata`.
pub open spec fn gallery_in(members: Members) -> Result<GalleryValue, Fault> {
    let data = match lookup(members, "gallery_data"@) {
        None => Err(at("gallery_data"@)),
        Some(v) => prefixed("gallery_data"@, gallery_data_of(v)),
    };
    let media = match lookup(members, "media_metadata"@) {
        None => Err(at("media_metadata"@)),
        Some(v) => match members_of(v) {
            Err(p) => Err(below("media_metadata"@, p)),
            Ok(entries) => prefixed("media_metadata"@, media_upto(entries, entries.len() as int)),
        },
    };
    if data is Err {
        Err(data->Err_0)
    } else if media is Err {
        Err(media->Err_0)
    } else {
        Ok(GalleryValue { gallery_data: data->Ok_0, media_metadata: media->Ok_0 })
    }
}

/// Decodes the gallery that stands among the members of an object.
pub fn decode_gallery_in(members: &Vec<Member>) -> (r: Result<Gallery, FieldPath>)
    ensures
        outcome(r) == gallery_in(members.deep_view()),
{
    let gallery_data = match find(members, "gallery_data") {
        None => {
            return Err(FieldPath::at("gallery_data"));
        },
        Some(v) => prefix(decode_gallery_data(v), "gallery_data")?,
    };
    let media_metadata = match find(members, "media_metadata") {
        None => {
            return Err(FieldPath::at("media_metadata"));
        },
        Some(v) => {
            let entries = prefix(read_members(v), "media_metadata")?;
            prefix(decode_media(entries), "media_metadata")?
        },
    };
    Ok(Gallery { gallery_data, media_metadata })
}

/// The post that an object's members describe. The fields are read in the
/// order in which [`PostValue`] lists them, and the first one at fault
/// decides the failure. A gallery that cannot be read is no fault: the post
/// then has none.
pub open spec fn post_in(members: Members) -> Result<PostValue, Fault> {
    let id = text_at(members, "id"@);
    let name = text_at(members, "name"@);
    let title = text_at(members, "title"@);
    let subreddit = text_at(members, "subreddit"@);
    let subreddit_name_prefixed = text_at(members, "subreddit_name_prefixed"@);
    let subreddit_subscribers = optional_u64_at(members, "subreddit_subscribers"@);
    let author = optional_text_at(members, "author"@);
    let url = text_at(members, "url"@);
    let url_overridden_by_dest = optional_text_at(members, "url_overridden_by_dest"@);
    let selftext = optional_text_at(members, "selftext"@);
    let domain = optional_text_at(members, "domain"@);
    let thumbnail = optional_text_at(members, "thumbnail"@);
    let preview = match present(lookup(members, "preview"@)) {
        None => Ok(None),
        Some(v) => match preview_of(v) {
            Ok(preview) => Ok(Some(preview)),
            Err(p) => Err(below("preview"@, p)),
        },
    };
    let gallery = match gallery_in(members) {
        Ok(gallery) => Some(gallery),
        Err(_) => None,
    };
    let num_comments = u64_at(members, "num_comments"@);
    let num_crossposts = u64_at(members, "num_crossposts"@);
    let downs = i64_at(members, "downs"@);
    let ups = i64_at(members, "ups"@);
    let score = i64_at(members, "score"@);
    let upvote_ratio = number_at(members, "upvote_ratio"@);
    let likes = optional_flag_at(members, "likes"@);
    let saved = flag_at(members, "saved"@);
    let hidden = flag_at(members, "hidden"@);
    let spoiler = flag_at(members, "spoiler"@);
    let pinned = flag_at(members, "pinned"@);
    let over_18 = flag_at(members, "over_18"@);
    if id is Err {
        Err(id->Err_0)
    } else if name is Err {
        Err(name->Err_0)
    } else if title is Err {
        Err(title->Err_0)
    } else if subreddit is Err {
        Err(subreddit->Err_0)
    } else if subreddit_name_prefixed is Err {
        Err(subreddit_name_prefixed->Err_0)
    } else if subreddit_subscribers is Err {
        Err(subreddit_subscribers->Err_0)
    } else if author is Err {
        Err(author->Err_0)
    } else if url is Err {
        Err(url->Err_0)
    } else if url_overridden_by_dest is Err {
        Err(url_overridden_by_dest->Err_0)
    } else if selftext is Err {
        Err(selftext->Err_0)
    } else if domain is Err {
        Err(domain->Err_0)
    } else if thumbnail is Err {
        Err(thumbnail->Err_0)
    } else if preview is Err {
        Err(preview->Err_0)
    } else if num_comments is Err {
        Err(num_comments->Err_0)
    } else if num_crossposts is Err {
        Err(num_crossposts->Err_0)
    } else if downs is Err {
        Err(downs->Err_0)
    } else if ups is Err {
        Err(ups->Err_0)
    } else if score is Err {
        Err(score->Err_0)
    } else if upvote_ratio is Err {
        Err(upvote_ratio->Err_0)
    } else if likes is Err {
        Err(likes->Err_0)
    } else if saved is Err {
        Err(saved->Err_0)
    } else if hidden is Err {
        Err(hidden->Err_0)
    } else if spoiler is Err {
        Err(spoiler->Err_0)
    } else if pinned is Err {
        Err(pinned->Err_0)
    } else if over_18 is Err {
        Err(over_18->Err_0)
    } else {
        Ok(
            PostValue {
                id: id->Ok_0,
                name: name->Ok_0,
                title: title->Ok_0,
                subreddit: subreddit->Ok_0,
                subreddit_name_prefixed: subreddit_name_prefixed->Ok_0,
                subreddit_subscribers: subreddit_subscribers->Ok_0,
                author: author->Ok_0,
                url: url->Ok_0,
                url_overridden_by_dest: url_overridden_by_dest->Ok_0,
                selftext: selftext->Ok_0,
                domain: domain->Ok_0,
                thumbnail: thumbnail->Ok_0,
                preview: preview->Ok_0,
                gallery,
                num_comments: num_comments->Ok_0,
                num_crossposts: num_crossposts->Ok_0,
                downs: downs->Ok_0,
                ups: ups->Ok_0,
                score: score->Ok_0,
                upvote_ratio: upvote_ratio->Ok_0,
                likes: likes->Ok_0,
                saved: saved->Ok_0,
                hidden: hidden->Ok_0,
                spoiler: spoiler->Ok_0,
                pinned: pinned->Ok_0,
                over_18: over_18->Ok_0,
            },
        )
    }
}

/// The post that a JSON value describes.
pub open spec fn post_of(value: JsonValue) -> Result<PostValue, Fault> {
    match members_of(value) {
        Ok(members) => post_in(members),
        Err(p) => Err(p),
    }
}

/// Decodes a post.
pub fn decode_post(value: &Json) -> (r: Result<Post, FieldPath>)
    ensures
        outcome(r) == post_of(value.deep_view()),
{
    let members = read_members(value)?;
    let id = get_text(members, "id")?;
    let name = get_text(members, "name")?;
    let title = get_text(members, "title")?;
    let subreddit = get_text(members, "subreddit")?;
    let subreddit_name_prefixed = get_text(members, "subreddit_name_prefixed")?;
    let subreddit_subscribers = get_optional_u64(members, "subreddit_subscribers")?;
    let author = get_optional_text(members, "author")?;
    let url = get_text(members, "url")?;
    let url_overridden_by_dest = get_optional_text(members, "url_overridden_by_dest")?;
    let selftext = get_optional_text(members, "selftext")?;
    let domain = get_optional_text(members, "domain")?;
    let thumbnail = get_optional_text(members, "thumbnail")?;
    let preview = match read_present(find(members, "preview")) {
        None => None,
        Some(v) => Some(prefix(decode_preview(v), "preview")?),
    };
    let gallery = match decode_gallery_in(members) {
        Ok(gallery) => Some(gallery),
        Err(_) => None,
    };
    let num_comments = get_u64(members, "num_comments")?;
    let num_crossposts = get_u64(members, "num_crossposts")?;
    let downs = get_i64(members, "downs")?;
    let ups = get_i64(members, "ups")?;
    let score = get_i64(members, "score")?;
    let upvote_ratio = get_number(members, "upvote_ratio")?;
    let likes = get_optional_flag(members, "likes")?;
    let saved = get_flag(members, "saved")?;
    let hidden = get_flag(members, "hidden")?;
    let spoiler = get_flag(members, "spoiler")?;
    let pinned = get_flag(members, "pinned")?;
    let over_18 = get_flag(members, "over_18")?;
    Ok(
        Post {
            id,
            name,
            title,
            subreddit,
            subreddit_name_prefixed,
            subreddit_subscribers,
            author,
            url,
            url_overridden_by_dest,
            selftext,
            domain,
            thumbnail,
            preview,
            gallery,
            num_comments,
            num_crossposts,
            downs,
            ups,
            score,
            upvote_ratio,
            likes,
            saved,
            hidden,
            spoiler,
            pinned,
            over_18,
        },
    )
}

/// A value that [`lookup`] finds among the members of an object lies
/// inside the object.
pub proof fn lemma_lookup_inside(members: Members, key: Seq<char>)
    ensures
        lookup(members, key) matches Some(v) ==> decreases_to!(members => v),
{
    lemma_position(members, key, 0);
    match position(members, key, 0) {
        Some(i) => {
            assert(decreases_to!(members => members[i]));
            assert(decreases_to!(members[i] => members[i].1));
        },
        None => {},
    }
}

/// The things that the first `n` items of an array describe, in order; or
/// the fault of the first item that describes none, under its position.
pub open spec fn children_upto(items: Seq<JsonValue>, n: int) -> Result<Seq<ThingValue>, Fault>
    decreases items, n,
{
    if n <= 0 || n > items.len() {
        Ok(Seq::empty())
    } else {
        match children_upto(items, n - 1) {
            Err(p) => Err(p),
            Ok(before) => match thing_of(items[n - 1]) {
                Err(p) => Err(below_index((n - 1) as nat, p)),
                Ok(thing) => Ok(before.push(thing)),
            },
        }
    }
}

/// The listing that a JSON value describes.
pub open spec fn listing_of(value: JsonValue) -> Result<ListingValue, Fault>
    decreases value, 0int,
{
    match value {
        JsonValue::Object(members) => {
            let after = optional_text_at(members, "after"@);
            let before = optional_text_at(members, "before"@);
            let dist = u64_at(members, "dist"@);
            let children = match lookup(members, "children"@) {
                Some(JsonValue::Array(items)) => {
                    proof {
                        lemma_lookup_inside(members, "children"@);
                    }
                    prefixed("children"@, children_upto(items, items.len() as int))
                },
                _ => Err(at("children"@)),
            };
            if after is Err {
                Err(after->Err_0)
            } else if before is Err {
                Err(before->Err_0)
            } else if dist is Err {
                Err(dist->Err_0)
            } else if children is Err {
                Err(children->Err_0)
            } else {
                Ok(
                    ListingValue {
                        after: after->Ok_0,
                        before: before->Ok_0,
                        dist: dist->Ok_0,
                        children: children->Ok_0,
                    },
                )
            }
        },
        _ => Err(Seq::empty()),
    }
}

/// The thing that a JSON value describes: an object whose member `kind`
/// says what its member `data` holds. A kind other than `t3` and `Listing`
/// gives [`ThingValue::Unknown`] with that kind, whatever else the object
/// holds.
pub open spec fn thing_of(value: JsonValue) -> Result<ThingValue, Fault>
    decreases value, 0int,
{
    match value {
        JsonValue::Object(members) => match text_at(members, "kind"@) {
            Err(p) => Err(p),
            Ok(kind) => if kind == "t3"@ {
                match lookup(members, "data"@) {
                    None => Err(at("data"@)),
                    Some(data) => match post_of(data) {
                        Ok(post) => Ok(ThingValue::Post(post)),
                        Err(p) => Err(below("data"@, p)),
                    },
                }
            } else if kind == "Listing"@ {
                match lookup(members, "data"@) {
                    None => Err(at("data"@)),
                    Some(data) => {
                        proof {
                            lemma_lookup_inside(members, "data"@);
                        }
                        match listing_of(data) {
                            Ok(listing) => Ok(ThingValue::Listing(listing)),
                            Err(p) => Err(below("data"@, p)),
                        }
                    },
                }
            } else {
                Ok(ThingValue::Unknown(kind))
            },
        },
        _ => Err(Seq::empty()),
    }
}

/// Once [`children_upto`] has failed on a first part of the items, it fails
/// in the same way on every longer part.
pub proof fn lemma_children_failed(items: Seq<JsonValue>, k: int, n: int)
    requires
        k <= n <= items.len(),
        children_upto(items, k) is Err,
    ensures
        children_upto(items, n) == children_upto(items, k),
    decreases n - k,
{
    if k < n {
        lemma_children_failed(items, k, n - 1);
    }
}

/// Decodes the children of a listing, in order.
pub fn decode_children(items: &Vec<Json>) -> (r: Result<Vec<Thing>, FieldPath>)
    ensures
        outcome(r) == children_upto(items.deep_view(), items.len() as int),
    decreases items.deep_view(), 0int,
{
    let mut out: Vec<Thing> = Vec::new();
    let mut i: usize = 0;
    assert(out.deep_view() =~= Seq::empty());
    while i < items.len()
        invariant
            i <= items.len(),
            children_upto(items.deep_view(), i as int) == Ok::<Seq<ThingValue>, Fault>(
                out.deep_view(),
            ),
        decreases items.len() - i,
    {
        let ghost before = out;
        proof {
            assert(decreases_to!(items.deep_view() => items.deep_view()[i as int]));
        }
        match decode_thing(&items[i]) {
            Ok(one) => {
                out.push(one);
                proof {
                    lemma_pushed(before, out, one);
                }
            },
            Err(p) => {
                proof {
                    lemma_children_failed(items.deep_view(), i + 1, items.len() as int);
                }
                return Err(p.below_index(i));
            },
        }
        i += 1;
    }
    Ok(out)
}

/// Decodes a listing.
pub fn decode_listing(value: &Json) -> (r: Result<Listing, FieldPath>)
    ensures
        outcome(r) == listing_of(value.deep_view()),
    decreases value.deep_view(), 0int,
{
    let members = read_members(value)?;
    let after = get_optional_text(members, "after")?;
    let before = get_optional_text(members, "before")?;
    let dist = get_u64(members, "dist")?;
    let items = get_items(members, "children")?;
    proof {
        lemma_lookup_inside(members.deep_view(), "children"@);
    }
    let children = prefix(decode_children(items), "children")?;
    Ok(Listing { after, before, dist, children })
}

/// Decodes a thing: a post, a listing, or a thing of a kind that is not known,
/// of which only the kind is kept.
pub fn decode_thing(value: &Json) -> (r: Result<Thing, FieldPath>)
    ensures
        outcome(r) == thing_of(value.deep_view()),
    decreases value.deep_view(), 0int,
{
    let members = read_members(value)?;
    let kind = get_text(members, "kind")?;
    if same_text(kind.as_str(), "t3") {
        match find(members, "data") {
            None => Err(FieldPath::at("data")),
            Some(data) => match decode_post(data) {
                Ok(post) => Ok(Thing::Post(post)),
                Err(p) => Err(p.below("data")),
            },
        }
    } else if same_text(kind.as_str(), "Listing") {
        match find(members, "data") {
            None => Err(FieldPath::at("data")),
            Some(data) => {
                proof {
                    lemma_lookup_inside(members.deep_view(), "data"@);
                }
                match decode_listing(data) {
                    Ok(listing) => {
                        proof {
                            lemma_listing_value(listing);
                        }
                        Ok(Thing::Listing(listing))
                    },
                    Err(p) => Err(p.below("data")),
                }
            },
        }
    } else {
        Ok(Thing::Unknown(kind))
    }
}

/// Why a payload could not be decoded.
#[derive(Debug, PartialEq, Eq)]
pub enum DecodeError {
    /// The payload is no JSON text. Holds the parser's complaint.
    Syntax(String),
    /// A value that the model requires is missing or of the wrong type.
    /// Holds the path of that value.
    Schema(FieldPath),
}

/// The mathematical value of a [`DecodeError`].
pub enum DecodeErrorValue {
    Syntax(Seq<char>),
    Schema(Fault),
}

impl DeepView for DecodeError {
    type V = DecodeErrorValue;

    open spec fn deep_view(&self) -> DecodeErrorValue {
        match self {
            DecodeError::Syntax(complaint) => DecodeErrorValue::Syntax(complaint@),
            DecodeError::Schema(path) => DecodeErrorValue::Schema(path.deep_view()),
        }
    }
}

/// What the text of a fault of schema starts with.
pub const SCHEMA_FAULT: &'static str = "missing or mistyped value at ";

impl DecodeErrorValue {
    /// The failure in words: the parser's complaint, or where in the
    /// document the value at fault stands.
    pub open spec fn message(self) -> Seq<char> {
        match self {
            DecodeErrorValue::Syntax(complaint) => complaint,
            DecodeErrorValue::Schema(path) => SCHEMA_FAULT@ + path_text(path, path.len() as int),
        }
    }
}

impl DecodeError {
    /// The failure in words.
    pub fn message(&self) -> (r: String)
        ensures
            r@ == self.deep_view().message(),
    {
        match self {
            DecodeError::Syntax(complaint) => complaint.clone(),
            DecodeError::Schema(path) => joined(SCHEMA_FAULT, path.describe().as_str()),
        }
    }
}

/// What a parser's outcome decodes to: the thing that the document
/// describes; a fault of syntax where there is no document; a fault of schema
/// where the document describes no thing.
pub open spec fn decoded(parsed: Result<JsonValue, Seq<char>>) -> Result<
    ThingValue,
    DecodeErrorValue,
> {
    match parsed {
        Err(complaint) => Err(DecodeErrorValue::Syntax(complaint)),
        Ok(document) => match thing_of(document) {
            Ok(thing) => Ok(thing),
            Err(path) => Err(DecodeErrorValue::Schema(path)),
        },
    }
}

/// Decodes what a parser made of a payload.
pub fn decode_parsed(parsed: Result<Json, String>) -> (r: Result<Thing, DecodeError>)
    ensures
        outcome(r) == decoded(outcome(parsed)),
{
    match parsed {
        Err(complaint) => Err(DecodeError::Syntax(complaint)),
        Ok(document) => match decode_thing(&document) {
            Ok(thing) => Ok(thing),
            Err(path) => Err(DecodeError::Schema(path)),
        },
    }
}

/// Decodes a payload of the upstream service: JSON text that describes a
/// thing.
pub fn decode(bytes: &[u8]) -> (r: Result<Thing, DecodeError>)
    ensures
        outcome(r) == decoded(parsed(bytes@)),
{
    decode_parsed(parse(bytes))
}

/// Whether no key stands twice among the members of an object.
pub open spec fn distinct_keys(members: Members) -> bool {
    forall|i: int, j: int| 0 <= i < j < members.len() ==> members[i].0 != members[j].0
}

/// The media of a gallery stand under the keys of the object that holds
/// them, in the same order.
pub proof fn lemma_media_keep_keys(members: Members, n: int)
    requires
        0 <= n <= members.len(),
        media_upto(members, n) is Ok,
    ensures
        media_upto(members, n)->Ok_0.len() == n,
        forall|i: int| 0 <= i < n ==> (#[trigger] media_upto(members, n)->Ok_0[i]).0 == members[i].0,
{
    lemma_each(members, |i: int, m: (Seq<char>, JsonValue)| media_entry_of(m), n);
    let entries = media_upto(members, n)->Ok_0;
    assert forall|i: int| 0 <= i < n implies (#[trigger] entries[i]).0 == members[i].0 by {
        assert(media_entry_of(members[i]) == Ok::<(Seq<char>, GallerySourceSetValue), Fault>(
            entries[i],
        ));
    }
}

/// A gallery decoded out of an object whose media stand each under a key of
/// its own holds no media id twice.
pub proof fn lemma_gallery_well_formed(members: Members)
    requires
        gallery_in(members) is Ok,
        lookup(members, "media_metadata"@) matches Some(JsonValue::Object(entries))
            && distinct_keys(entries),
    ensures
        gallery_in(members)->Ok_0.well_formed(),
{
    let entries = lookup(members, "media_metadata"@)->0->Object_0;
    lemma_media_keep_keys(entries, entries.len() as int);
    let media = gallery_in(members)->Ok_0.media_metadata;
    assert(media == media_upto(entries, entries.len() as int)->Ok_0);
    assert forall|i: int, j: int| 0 <= i < j < media.len() implies media[i].0 != media[j].0 by {
        assert(media[i].0 == entries[i].0);
        assert(media[j].0 == entries[j].0);
    }
}

/// The children of a listing come out as the array holds them: where
/// every item describes a thing, there is one child for each item, in the
/// items' order, and it is the thing that the item describes. Where some
/// item describes none, the first such item decides the failure.
pub proof fn lemma_children_keep_order(items: Seq<JsonValue>, n: int)
    requires
        0 <= n <= items.len(),
    ensures
        match children_upto(items, n) {
            Ok(children) => children.len() == n && forall|i: int|
                0 <= i < n ==> thing_of(items[i]) == Ok::<ThingValue, Fault>(
                    #[trigger] children[i],
                ),
            Err(p) => exists|k: int|
                0 <= k < n && #[trigger] thing_of(items[k]) is Err && p == below_index(
                    k as nat,
                    thing_of(items[k])->Err_0,
                ) && forall|i: int| 0 <= i < k ==> #[trigger] thing_of(items[i]) is Ok,
        },
    decreases n,
{
    if n > 0 {
        lemma_children_keep_order(items, n - 1);
        match children_upto(items, n - 1) {
            Ok(before) => {
                match thing_of(items[n - 1]) {
                    Ok(thing) => {
                        let children = before.push(thing);
                        assert forall|i: int| 0 <= i < n implies thing_of(items[i]) == Ok::<
                            ThingValue,
                            Fault,
                        >(#[trigger] children[i]) by {
                            if i < n - 1 {
                                assert(children[i] == before[i]);
                            }
                        }
                    },
                    Err(p) => {
                        let k = n - 1;
                        assert forall|i: int| 0 <= i < k implies #[trigger] thing_of(
                            items[i],
                        ) is Ok by {
                            assert(thing_of(items[i]) == Ok::<ThingValue, Fault>(before[i]));
                        }
                        assert(thing_of(items[k]) is Err);
                    },
                }
            },
            Err(p) => {
                let k = choose|k: int|
                    0 <= k < n - 1 && #[trigger] thing_of(items[k]) is Err && p == below_index(
                        k as nat,
                        thing_of(items[k])->Err_0,
                    ) && forall|i: int| 0 <= i < k ==> #[trigger] thing_of(items[i]) is Ok;
                assert(thing_of(items[k]) is Err);
            },
        }
    }
}

/// A listing that decodes has as many children as the array under
/// `children` has items, in the same order: child `i` is the thing that
/// item `i` describes.
pub proof fn lemma_listing_keeps_children(value: JsonValue)
    requires
        listing_of(value) is Ok,
    ensures
        value is Object,
        lookup(value->Object_0, "children"@) matches Some(JsonValue::Array(items)) && {
            let children = listing_of(value)->Ok_0.children;
            &&& children.len() == items.len()
            &&& forall|i: int|
                0 <= i < items.len() ==> thing_of(items[i]) == Ok::<ThingValue, Fault>(
                    #[trigger] children[i],
                )
        },
{
    let members = value->Object_0;
    match lookup(members, "children"@) {
        Some(JsonValue::Array(items)) => {
            lemma_children_keep_order(items, items.len() as int);
        },
        _ => {},
    }
}

/// A thing that decodes to a listing is an object of kind `Listing` whose
/// data hold an array `children`, and the listing has one child for each
/// item of that array, in the items' order: child `i` is the thing that
/// item `i` describes.
pub proof fn lemma_thing_keeps_children(value: JsonValue)
    requires
        thing_of(value) is Ok,
        thing_of(value)->Ok_0 is Listing,
    ensures
        value is Object,
        lookup(value->Object_0, "data"@) matches Some(JsonValue::Object(data)) && lookup(
            data,
            "children"@,
        ) matches Some(JsonValue::Array(items)) && {
            let children = thing_of(value)->Ok_0->Listing_0.children;
            &&& children.len() == items.len()
            &&& forall|i: int|
                0 <= i < items.len() ==> thing_of(items[i]) == Ok::<ThingValue, Fault>(
                    #[trigger] children[i],
                )
        },
{
    let members = value->Object_0;
    let data = lookup(members, "data"@)->0;
    assert(listing_of(data) is Ok);
    lemma_listing_keeps_children(data);
}

/// The members of an object with every key `from` turned into `to`.
pub open spec fn renamed(members: Members, from: Seq<char>, to: Seq<char>) -> Members {
    Seq::new(
        members.len(),
        |i: int|
            if members[i].0 == from {
                (to, members[i].1)
            } else {
                members[i]
            },
    )
}

/// What renaming a key does to what is found: in an object that holds no
/// key `to`, the value under `from` moves to `to`, and every other key
/// keeps its value.
pub proof fn lemma_renamed(members: Members, from: Seq<char>, to: Seq<char>, key: Seq<char>)
    requires
        from != to,
        lookup(members, to) is None,
    ensures
        lookup(renamed(members, from, to), to) == lookup(members, from),
        lookup(renamed(members, from, to), from) is None,
        key != from && key != to ==> lookup(renamed(members, from, to), key) == lookup(
            members,
            key,
        ),
{
    let after = renamed(members, from, to);
    lemma_position(members, to, 0);
    lemma_position(members, from, 0);
    lemma_position(members, key, 0);
    lemma_position(after, to, 0);
    lemma_position(after, from, 0);
    lemma_position(after, key, 0);
    match position(members, from, 0) {
        Some(i) => {
            assert(after[i].0 == to);
            match position(after, to, 0) {
                Some(j) => {
                    if j < i {
                        assert(members[j].0 != from);
                        assert(after[j] == members[j]);
                    }
                    if i < j {
                    }
                },
                None => {},
            }
        },
        None => {
            match position(after, to, 0) {
                Some(j) => {
                    assert(members[j].0 != from);
                },
                None => {},
            }
        },
    }
    match position(after, from, 0) {
        Some(j) => {
            assert(after[j].0 == from);
        },
        None => {},
    }
    if key != from && key != to {
        match position(members, key, 0) {
            Some(i) => {
                assert(after[i] == members[i]);
                match position(after, key, 0) {
                    Some(j) => {
                        if j < i {
                            assert(members[j].0 != key);
                        }
                    },
                    None => {},
                }
            },
            None => {
                match position(after, key, 0) {
                    Some(j) => {
                        assert(members[j].0 != key);
                    },
                    None => {},
                }
            },
        }
    }
}

/// The members of an object with the short keys of a source turned into
/// the long ones.
pub open spec fn with_long_keys(members: Members) -> Members {
    renamed(renamed(renamed(members, "u"@, "url"@), "x"@, "width"@), "y"@, "height"@)
}

/// A source under its short keys and the same source under its long keys
/// decode alike: an object that uses no long key gives the same result,
/// value or fault, as the object with each short key turned into its long
/// one.
pub proof fn lemma_source_keys_agree(members: Members)
    requires
        lookup(members, "url"@) is None,
        lookup(members, "width"@) is None,
        lookup(members, "height"@) is None,
    ensures
        source_in(with_long_keys(members)) == source_in(members),
        source_of(JsonValue::Object(with_long_keys(members))) == source_of(
            JsonValue::Object(members),
        ),
{
    reveal_strlit("u");
    reveal_strlit("x");
    reveal_strlit("y");
    reveal_strlit("url");
    reveal_strlit("width");
    reveal_strlit("height");
    let (u, x, y) = ("u"@, "x"@, "y"@);
    let (url, width, height) = ("url"@, "width"@, "height"@);
    assert(u.len() == 1 && x.len() == 1 && y.len() == 1);
    assert(url.len() == 3 && width.len() == 5 && height.len() == 6);
    assert(u[0] == 'u' && x[0] == 'x' && y[0] == 'y');
    let first = renamed(members, u, url);
    let second = renamed(first, x, width);
    let third = renamed(second, y, height);
    lemma_renamed(members, u, url, x);
    lemma_renamed(members, u, url, y);
    lemma_renamed(members, u, url, width);
    lemma_renamed(members, u, url, height);
    lemma_renamed(first, x, width, u);
    lemma_renamed(first, x, width, y);
    lemma_renamed(first, x, width, url);
    lemma_renamed(first, x, width, height);
    lemma_renamed(second, y, height, u);
    lemma_renamed(second, y, height, x);
    lemma_renamed(second, y, height, url);
    lemma_renamed(second, y, height, width);
    assert(lookup(third, url) == lookup(members, u));
    assert(lookup(third, width) == lookup(members, x));
    assert(lookup(third, height) == lookup(members, y));
    assert(lookup(third, u) is None);
    assert(lookup(third, x) is None);
    assert(lookup(third, y) is None);
}

/// A value that describes a source, with its short keys turned into the
/// long ones.
pub open spec fn source_spelled_out(value: JsonValue) -> JsonValue {
    match value {
        JsonValue::Object(members) => JsonValue::Object(with_long_keys(members)),
        _ => value,
    }
}

/// Whether a value, where it is an object, uses none of the long keys of a
/// source.
pub open spec fn source_is_short(value: JsonValue) -> bool {
    value matches JsonValue::Object(members) ==> lookup(members, "url"@) is None && lookup(
        members,
        "width"@,
    ) is None && lookup(members, "height"@) is None
}

/// The items of an array of sources, each with its short keys turned into
/// the long ones.
pub open spec fn sources_spelled_out(items: Seq<JsonValue>) -> Seq<JsonValue> {
    Seq::new(items.len(), |k: int| source_spelled_out(items[k]))
}

/// The members of a source set in short keys, with the sources that they
/// hold spelled out.
pub open spec fn values_spelled_out(members: Members) -> Members {
    Seq::new(
        members.len(),
        |i: int|
            (
                members[i].0,
                if members[i].0 == "s"@ {
                    source_spelled_out(members[i].1)
                } else if members[i].0 == "p"@ {
                    match members[i].1 {
                        JsonValue::Array(items) => JsonValue::Array(sources_spelled_out(items)),
                        other => other,
                    }
                } else {
                    members[i].1
                },
            ),
    )
}

/// The members of a source set with every short key, its own and those of
/// the sources that it holds, turned into the long one.
pub open spec fn set_with_long_keys(members: Members) -> Members {
    renamed(renamed(values_spelled_out(members), "s"@, "source"@), "p"@, "resolutions"@)
}

/// Whether the members of a source set use short keys throughout: none of
/// its own long keys, and none in the sources that it holds.
pub open spec fn set_is_short(members: Members) -> bool {
    &&& lookup(members, "source"@) is None
    &&& lookup(members, "resolutions"@) is None
    &&& lookup(members, "s"@) matches Some(source) ==> source_is_short(source)
    &&& lookup(members, "p"@) matches Some(JsonValue::Array(items)) ==> forall|k: int|
        0 <= k < items.len() ==> source_is_short(#[trigger] items[k])
}

/// Members with the same keys in the same places are found in the same
/// places.
pub proof fn lemma_same_keys(before: Members, after: Members, key: Seq<char>, from: int)
    requires
        before.len() == after.len(),
        forall|i: int| 0 <= i < before.len() ==> before[i].0 == after[i].0,
    ensures
        position(after, key, from) == position(before, key, from),
    decreases before.len() - from,
{
    if 0 <= from < before.len() && before[from].0 != key {
        lemma_same_keys(before, after, key, from + 1);
    }
}

/// A value that describes a source in short keys and the same value spelled
/// out decode alike.
pub proof fn lemma_source_value_agrees(value: JsonValue)
    requires
        source_is_short(value),
    ensures
        source_of(source_spelled_out(value)) == source_of(value),
{
    match value {
        JsonValue::Object(members) => {
            lemma_source_keys_agree(members);
        },
        _ => {},
    }
}

/// An array of sources in short keys and the same array spelled out decode
/// alike.
pub proof fn lemma_sources_agree(items: Seq<JsonValue>, n: int)
    requires
        0 <= n <= items.len(),
        forall|k: int| 0 <= k < items.len() ==> source_is_short(#[trigger] items[k]),
    ensures
        sources_upto(sources_spelled_out(items), n) == sources_upto(items, n),
    decreases n,
{
    if n > 0 {
        lemma_sources_agree(items, n - 1);
        lemma_source_value_agrees(items[n - 1]);
        assert(sources_spelled_out(items)[n - 1] == source_spelled_out(items[n - 1]));
    }
}

/// A source set under short keys and the same set under long keys decode
/// alike: an object that uses short keys throughout gives the same result,
/// value or fault, as the object with every short key, in the set and in the
/// sources that it holds, turned into its long one.
pub proof fn lemma_source_set_keys_agree(members: Members)
    requires
        set_is_short(members),
    ensures
        source_set_in(set_with_long_keys(members)) == source_set_in(members),
{
    reveal_strlit("s");
    reveal_strlit("p");
    reveal_strlit("source");
    reveal_strlit("resolutions");
    let (s, p, source, resolutions) = ("s"@, "p"@, "source"@, "resolutions"@);
    assert(s.len() == 1 && p.len() == 1 && source.len() == 6 && resolutions.len() == 11);
    assert(s[0] == 's' && p[0] == 'p');
    let spelled = values_spelled_out(members);
    lemma_same_keys(members, spelled, s, 0);
    lemma_same_keys(members, spelled, p, 0);
    lemma_same_keys(members, spelled, source, 0);
    lemma_same_keys(members, spelled, resolutions, 0);
    lemma_position(members, s, 0);
    lemma_position(members, p, 0);
    let first = renamed(spelled, s, source);
    let second = renamed(first, p, resolutions);
    lemma_renamed(spelled, s, source, p);
    lemma_renamed(spelled, s, source, resolutions);
    lemma_renamed(first, p, resolutions, s);
    lemma_renamed(first, p, resolutions, source);
    assert(lookup(second, source) == lookup(spelled, s));
    assert(lookup(second, resolutions) == lookup(spelled, p));
    assert(lookup(second, s) is None);
    assert(lookup(second, p) is None);
    match lookup(members, s) {
        Some(value) => {
            assert(lookup(spelled, s) == Some(source_spelled_out(value)));
            lemma_source_value_agrees(value);
        },
        None => {},
    }
    match lookup(members, p) {
        Some(JsonValue::Array(items)) => {
            assert(lookup(spelled, p) == Some(JsonValue::Array(sources_spelled_out(items))));
            lemma_sources_agree(items, items.len() as int);
        },
        Some(other) => {
            assert(lookup(spelled, p) == Some(other));
        },
        None => {},
    }
}

/// A post whose author is `null` or absent decodes, where it decodes, to
/// a post without an author, and the feed shows it as removed.
pub proof fn lemma_author_removed(members: Members)
    requires
        present(lookup(members, "author"@)) is None,
        post_in(members) is Ok,
    ensures
        post_in(members)->Ok_0.author is None,
        post_in(members)->Ok_0.card().byline == BylineValue::Removed,
{
}

} // verus!

//! The profile for YouTube pages: the generic preview, with the image served
//! from YouTube's image storage.

use scraper::Html;
use url::Url;
use vstd::prelude::*;

use crate::preview::{document_view, preview_of, DocumentView, LinkPreview, LinkPreviewView};
use crate::profiles::ProfileExt;
use crate::text::{contains, occurs};
use crate::urls::{
    host, optional_url_view, parse_url, parsed_url, path, path_fits, serialization, set_path,
    url_view, url_with_path, UrlView, MAX_URL_BYTES,
};

verus! {

/// Where YouTube stores the images of its videos.
pub const YOUTUBE_IMAGE_STORAGE_DOMAIN: &'static str = "https://i.ytimg.com";

/// The profile for pages of YouTube.
pub struct YouTubeProfile {}

/// Whether `host` mentions one of YouTube's domains.
pub open spec fn is_youtube_host(host: Seq<char>) -> bool {
    occurs(host, "youtube.com"@) || occurs(host, "youtu.be"@)
}

/// The host of YouTube's image storage.
pub open spec fn storage_host() -> Option<Seq<char>> {
    match parsed_url(YOUTUBE_IMAGE_STORAGE_DOMAIN@) {
        Some(storage) => storage.host,
        None => None,
    }
}

/// The image moved to `storage`: the URL of `storage` with the path of
/// `image`. Absent where the path is too long to be set on it.
pub open spec fn moved_to(storage: UrlView, image: UrlView) -> Option<UrlView> {
    if path_fits(storage, image.path) {
        Some(url_with_path(storage, image.path))
    } else {
        None
    }
}

/// The image moved to YouTube's image storage. Absent where the storage's
/// URL does not parse, or the path is too long to be set on it.
pub open spec fn in_image_storage(image: UrlView) -> Option<UrlView> {
    match parsed_url(YOUTUBE_IMAGE_STORAGE_DOMAIN@) {
        Some(storage) => moved_to(storage, image),
        None => None,
    }
}

/// The generic preview with its image, if it has one, moved to YouTube's
/// image storage; the other fields stay as they are. Absent where there is
/// an image and it cannot be moved.
pub open spec fn with_stored_image(generic: LinkPreviewView) -> Option<LinkPreviewView> {
    match generic.image_url {
        Some(image) => match in_image_storage(image) {
            Some(stored) => Some(LinkPreviewView { image_url: Some(stored), ..generic }),
            None => None,
        },
        None => Some(generic),
    }
}

/// Whether `host` mentions one of YouTube's domains.
pub fn mentions_youtube(host: &str) -> (found: bool)
    ensures
        found == is_youtube_host(host@),
{
    contains(host, "youtube.com") || contains(host, "youtu.be")
}

/// Moves `image` to `storage`: the result is `storage` with the path of
/// `image` set on it. Whatever host `image` had, the result has that of
/// `storage`.
pub fn store_image_in(storage: Url, image: &Url) -> (stored: Option<Url>)
    ensures
        optional_url_view(stored) == moved_to(url_view(storage), url_view(*image)),
        stored matches Some(url) ==> url_view(url).host == url_view(storage).host,
{
    let mut url = storage;
    let image_path = path(image);
    let url_bytes = serialization(&url).as_str().as_bytes().len();
    let path_bytes = image_path.as_str().as_bytes().len();
    if url_bytes <= MAX_URL_BYTES - 3 && path_bytes <= (MAX_URL_BYTES - 3 - url_bytes) / 3 {
        set_path(&mut url, image_path.as_str());
        Some(url)
    } else {
        None
    }
}

/// Moves `image` to YouTube's image storage. Whatever host `image` had, the
/// result has the storage's.
pub fn store_image(image: &Url) -> (stored: Option<Url>)
    ensures
        optional_url_view(stored) == in_image_storage(url_view(*image)),
        stored matches Some(url) ==> url_view(url).host == storage_host(),
{
    match parse_url(YOUTUBE_IMAGE_STORAGE_DOMAIN) {
        Some(storage) => store_image_in(storage, image),
        None => None,
    }
}

impl YouTubeProfile {
    /// Whether the profile is meant for the page at `url`: whether the URL
    /// has a host that mentions one of YouTube's domains.
    pub open spec fn applies(url: UrlView) -> bool {
        match url.host {
            Some(host) => is_youtube_host(host),
            None => false,
        }
    }

    /// What the profile extracts from a document: the generic preview, with
    /// its image moved to YouTube's image storage.
    pub open spec fn preview(doc: DocumentView) -> Option<LinkPreviewView> {
        with_stored_image(preview_of(doc))
    }
}

impl ProfileExt for YouTubeProfile {
    /// The generic preview, with its image moved to YouTube's image storage.
    /// Whatever host the generic image had, the image of the result has the
    /// storage's.
    fn extract(html: &Html) -> (preview: Option<LinkPreview>)
        ensures
            preview.deep_view() == YouTubeProfile::preview(document_view(*html)),
            preview matches Some(p) ==> (p@.image_url matches Some(image) ==> image.host
                == storage_host()),
    {
        let generic = LinkPreview::from(html);
        match &generic.image_url {
            Some(image_url) => match store_image(image_url) {
                Some(stored) => Some(
                    LinkPreview {
                        title: generic.title,
                        description: generic.description,
                        domain: generic.domain,
                        image_url: Some(stored),
                    },
                ),
                None => None,
            },
            None => Some(generic),
        }
    }

    /// Whether the URL has a host that mentions one of YouTube's domains.
    fn fits(url: &Url) -> (fits: bool)
        ensures
            fits == YouTubeProfile::applies(url_view(*url)),
    {
        match host(url) {
            Some(host) => mentions_youtube(host.as_str()),
            None => false,
        }
    }
}

} // verus!

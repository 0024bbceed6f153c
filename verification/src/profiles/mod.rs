//! Profiles: site-specific extraction, chosen by the URL that a document was
//! fetched from.

use scraper::Html;
use url::Url;
use vstd::prelude::*;

use crate::preview::{document_view, preview_of, DocumentView, LinkPreview, LinkPreviewView};
use crate::profiles::youtube::YouTubeProfile;
use crate::urls::{url_view, UrlView};

pub mod youtube;

verus! {

/// A site-specific way to extract a preview: whether it is meant for a URL,
/// and what it makes of a document.
pub trait ProfileExt: Send + Sync + Sized {
    /// Checks if the profile fits the given URL.
    fn fits(url: &Url) -> bool;

    /// Creates a `LinkPreview` from the provided HTML.
    fn extract(html: &Html) -> Option<LinkPreview>;
}

/// The profiles that can be registered.
#[derive(Clone, Copy, Debug)]
pub enum Profile {
    YouTube,
}

impl Profile {
    /// Whether the profile is meant for the page at `url`.
    pub open spec fn applies(self, url: UrlView) -> bool {
        match self {
            Profile::YouTube => YouTubeProfile::applies(url),
        }
    }

    /// What the profile extracts from a document.
    pub open spec fn preview(self, doc: DocumentView) -> Option<LinkPreviewView> {
        match self {
            Profile::YouTube => YouTubeProfile::preview(doc),
        }
    }

    /// Checks if the profile fits the given URL.
    pub fn fits(&self, url: &Url) -> (fits: bool)
        ensures
            fits == self.applies(url_view(*url)),
    {
        match self {
            Profile::YouTube => YouTubeProfile::fits(url),
        }
    }

    /// Creates a `LinkPreview` from the provided HTML.
    pub fn extract(&self, html: &Html) -> (preview: Option<LinkPreview>)
        ensures
            preview.deep_view() == self.preview(document_view(*html)),
    {
        match self {
            Profile::YouTube => YouTubeProfile::extract(html),
        }
    }
}

/// The first of `profiles` that applies to `url`.
pub open spec fn first_applying(profiles: Seq<Profile>, url: UrlView) -> Option<Profile>
    decreases profiles.len(),
{
    if profiles.len() == 0 {
        None
    } else if profiles[0].applies(url) {
        Some(profiles[0])
    } else {
        first_applying(profiles.drop_first(), url)
    }
}

/// What `profiles` extract from a document fetched from `url`: what the
/// first profile that applies to `url` extracts, and the generic preview
/// where none applies or no URL came with the document.
pub open spec fn preview_with(
    profiles: Seq<Profile>,
    doc: DocumentView,
    url: Option<UrlView>,
) -> Option<LinkPreviewView> {
    match url {
        Some(u) => match first_applying(profiles, u) {
            Some(profile) => profile.preview(doc),
            None => Some(preview_of(doc)),
        },
        None => Some(preview_of(doc)),
    }
}

/// An ordered collection of profiles. Profiles registered earlier take
/// precedence over those registered later.
pub struct Registry {
    profiles: Vec<Profile>,
}

impl View for Registry {
    type V = Seq<Profile>;

    closed spec fn view(&self) -> Seq<Profile> {
        self.profiles@
    }
}

impl Registry {
    /// A registry without profiles: every extraction is generic.
    pub fn new() -> (registry: Registry)
        ensures
            registry@ == Seq::<Profile>::empty(),
    {
        Registry { profiles: Vec::new() }
    }

    /// Registers `profile` behind those registered before.
    pub fn register(&mut self, profile: Profile)
        ensures
            final(self)@ == old(self)@.push(profile),
    {
        self.profiles.push(profile);
    }

    /// The first registered profile that fits `url`.
    pub fn select(&self, url: &Url) -> (profile: Option<Profile>)
        ensures
            profile == first_applying(self@, url_view(*url)),
    {
        let mut i: usize = 0;
        proof {
            assert(self@.skip(0) =~= self@);
        }
        while i < self.profiles.len()
            invariant
                i <= self.profiles.len(),
                first_applying(self@, url_view(*url)) == first_applying(
                    self@.skip(i as int),
                    url_view(*url),
                ),
            decreases self.profiles.len() - i,
        {
            if self.profiles[i].fits(url) {
                return Some(self.profiles[i]);
            }
            proof {
                assert(self@.skip(i as int).drop_first() =~= self@.skip(i + 1));
            }
            i += 1;
        }
        None
    }

    /// Extracts the preview of a document that was fetched from `url`: with
    /// the first registered profile that fits `url`, and generically where
    /// none fits or no URL came with the document.
    pub fn extract(&self, html: &Html, url: Option<&Url>) -> (preview: Option<LinkPreview>)
        ensures
            preview.deep_view() == preview_with(
                self@,
                document_view(*html),
                match url {
                    Some(u) => Some(url_view(*u)),
                    None => None,
                },
            ),
    {
        match url {
            Some(u) => match self.select(u) {
                Some(profile) => profile.extract(html),
                None => Some(LinkPreview::from(html)),
            },
            None => Some(LinkPreview::from(html)),
        }
    }
}

} // verus!

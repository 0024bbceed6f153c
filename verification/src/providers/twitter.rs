//! Twitter Card: `<meta>` elements whose `name` (or `property`) is a
//! `twitter:` key.

use scraper::Html;
use vstd::prelude::*;

use crate::html::{
    element_views, find_meta_tag, meta_content, meta_tag_among, selected, Element, ElementView,
};

verus! {

/// The fields that a Twitter Card declares.
#[derive(Clone, Copy, Debug)]
pub enum TwitterMetaTag {
    Title,
    Description,
    Image,
}

impl TwitterMetaTag {
    /// The key under which the field is declared.
    pub open spec fn key_text(self) -> Seq<char> {
        match self {
            TwitterMetaTag::Title => "twitter:title"@,
            TwitterMetaTag::Description => "twitter:description"@,
            TwitterMetaTag::Image => "twitter:image"@,
        }
    }

    /// The key under which the field is declared.
    pub fn key(&self) -> (key: &'static str)
        ensures
            key@ == self.key_text(),
    {
        match self {
            TwitterMetaTag::Title => "twitter:title",
            TwitterMetaTag::Description => "twitter:description",
            TwitterMetaTag::Image => "twitter:image",
        }
    }
}

/// What the `<meta>` elements declare for a Twitter Card field: the
/// `content` of the first whose `name` or `property` is the field's key.
pub open spec fn twitter_content(metas: Seq<ElementView>, tag: TwitterMetaTag) -> Option<
    Seq<char>,
> {
    meta_content(metas, tag.key_text())
}

/// Looks up a Twitter Card field among the `<meta>` elements of a document.
pub fn twitter_tag_among(metas: &[Element], tag: TwitterMetaTag) -> (content: Option<String>)
    ensures
        content.deep_view() == twitter_content(element_views(metas@), tag),
{
    meta_tag_among(metas, tag.key())
}

/// Looks up a Twitter Card field in the document.
pub fn find_twitter_tag(html: &Html, tag: TwitterMetaTag) -> (content: Option<String>)
    ensures
        content.deep_view() == twitter_content(selected(*html, "meta"@), tag),
{
    find_meta_tag(html, tag.key())
}

} // verus!

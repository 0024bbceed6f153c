//! Open Graph: `<meta>` elements whose `property` (or `name`) is an `og:`
//! key.

use scraper::Html;
use vstd::prelude::*;

use crate::html::{
    element_views, find_meta_tag, meta_content, meta_tag_among, selected, Element, ElementView,
};

verus! {

/// The fields that Open Graph declares.
#[derive(Clone, Copy, Debug)]
pub enum OpenGraphTag {
    Title,
    Description,
    Image,
    Url,
}

impl OpenGraphTag {
    /// The key under which the field is declared.
    pub open spec fn key_text(self) -> Seq<char> {
        match self {
            OpenGraphTag::Title => "og:title"@,
            OpenGraphTag::Description => "og:description"@,
            OpenGraphTag::Image => "og:image"@,
            OpenGraphTag::Url => "og:url"@,
        }
    }

    /// The key under which the field is declared.
    pub fn key(&self) -> (key: &'static str)
        ensures
            key@ == self.key_text(),
    {
        match self {
            OpenGraphTag::Title => "og:title",
            OpenGraphTag::Description => "og:description",
            OpenGraphTag::Image => "og:image",
            OpenGraphTag::Url => "og:url",
        }
    }
}

/// What the `<meta>` elements declare for an Open Graph field: the `content`
/// of the first whose `name` or `property` is the field's key.
pub open spec fn og_content(metas: Seq<ElementView>, tag: OpenGraphTag) -> Option<Seq<char>> {
    meta_content(metas, tag.key_text())
}

/// Looks up an Open Graph field among the `<meta>` elements of a document.
pub fn og_tag_among(metas: &[Element], tag: OpenGraphTag) -> (content: Option<String>)
    ensures
        content.deep_view() == og_content(element_views(metas@), tag),
{
    meta_tag_among(metas, tag.key())
}

/// Looks up an Open Graph field in the document.
pub fn find_og_tag(html: &Html, tag: OpenGraphTag) -> (content: Option<String>)
    ensures
        content.deep_view() == og_content(selected(*html, "meta"@), tag),
{
    find_meta_tag(html, tag.key())
}

} // verus!

//! Schema.org microdata: `<meta>` elements whose `itemprop` is a property
//! name.

use scraper::Html;
use vstd::prelude::*;

use crate::html::{
    element_views, find_meta_tag_by_attr, meta_content_by_attr, meta_tag_by_attr_among, selected,
    Element, ElementView,
};

verus! {

/// The properties that Schema.org microdata declares.
#[derive(Clone, Copy, Debug)]
pub enum SchemaMetaTag {
    Name,
    Description,
    Image,
}

impl SchemaMetaTag {
    /// The key under which the property is declared.
    pub open spec fn key_text(self) -> Seq<char> {
        match self {
            SchemaMetaTag::Name => "name"@,
            SchemaMetaTag::Description => "description"@,
            SchemaMetaTag::Image => "image"@,
        }
    }

    /// The key under which the property is declared.
    pub fn key(&self) -> (key: &'static str)
        ensures
            key@ == self.key_text(),
    {
        match self {
            SchemaMetaTag::Name => "name",
            SchemaMetaTag::Description => "description",
            SchemaMetaTag::Image => "image",
        }
    }
}

/// What the `<meta>` elements declare for a Schema.org property: the
/// `content` of the first whose `itemprop` is the property's key.
pub open spec fn schema_content(metas: Seq<ElementView>, tag: SchemaMetaTag) -> Option<
    Seq<char>,
> {
    meta_content_by_attr(metas, "itemprop"@, tag.key_text())
}

/// Looks up a Schema.org property among the `<meta>` elements of a document.
pub fn schema_tag_among(metas: &[Element], tag: SchemaMetaTag) -> (content: Option<String>)
    ensures
        content.deep_view() == schema_content(element_views(metas@), tag),
{
    meta_tag_by_attr_among(metas, "itemprop", tag.key())
}

/// Looks up a Schema.org property in the document.
pub fn find_schema_tag(html: &Html, tag: SchemaMetaTag) -> (content: Option<String>)
    ensures
        content.deep_view() == schema_content(selected(*html, "meta"@), tag),
{
    find_meta_tag_by_attr(html, "itemprop", tag.key())
}

} // verus!

//! The extraction engine: one waterfall of sources for each field of a
//! [`LinkPreview`], tried in a fixed order until one yields a value.

use std::string::FromUtf8Error;

use scraper::Html;
use url::Url;
use vstd::prelude::*;
use vstd::std_specs::convert::FromSpecImpl;
use vstd::utf8::{decode_utf8, decode_utf8_encode_utf8, is_ascii_chars_encode_utf8, valid_utf8};

use crate::html::{
    attribute_value, declares, earliest_declaration_decides, element_views, exchanged,
    first_inner, first_inner_of, is_parse_of, link_among, link_elements, link_href, meta_content,
    meta_elements, meta_key_names, meta_tag_among, only_declaration_decides_anywhere,
    parse_document, parsed_selection, removal_keeps_other_keys, removed_key_is_absent,
    select_elements, selected, text_fits, without_declaring, Element, ElementView,
    MAX_TEXT_BYTES,
};
use crate::providers::og::{og_content, og_tag_among, OpenGraphTag};
use crate::providers::schema::{schema_content, schema_tag_among, SchemaMetaTag};
use crate::providers::twitter::{twitter_content, twitter_tag_among, TwitterMetaTag};
use crate::urls::{
    domain, domain_of_text, holds_no_delimiter, optional_url_view, parse_url, parsed_url,
    serialization, UrlView,
};

verus! {

/// Why a byte buffer was not valid UTF-8, as `String::from_utf8` reports it.
#[verifier::external_type_specification]
#[verifier::external_body]
pub struct ExFromUtf8Error(FromUtf8Error);

/// The ways in which building a document can fail.
#[derive(Debug)]
pub enum Error {
    /// The bytes are not valid UTF-8.
    InvalidUtf8(FromUtf8Error),
    /// The text is too long for the parser.
    TooLong,
}

impl Error {
    /// What the error says.
    pub open spec fn message_text(self) -> Seq<char> {
        match self {
            Error::InvalidUtf8(_) => "The provided byte slice contains invalid UTF-8 characters"@,
            Error::TooLong => "The provided text is too long to be parsed"@,
        }
    }

    /// The error in words.
    pub fn message(&self) -> (text: String)
        ensures
            text@ == self.message_text(),
    {
        match self {
            Error::InvalidUtf8(_) => {
                "The provided byte slice contains invalid UTF-8 characters".to_owned()
            },
            Error::TooLong => "The provided text is too long to be parsed".to_owned(),
        }
    }
}

/// What the engine reads of a document: the elements that each of its six
/// selectors matches, in order.
pub ghost struct DocumentView {
    pub metas: Seq<ElementView>,
    pub links: Seq<ElementView>,
    pub titles: Seq<ElementView>,
    pub first_headings: Seq<ElementView>,
    pub second_headings: Seq<ElementView>,
    pub paragraphs: Seq<ElementView>,
}

/// What the engine reads of a parsed document.
pub open spec fn document_view(html: Html) -> DocumentView {
    DocumentView {
        metas: selected(html, "meta"@),
        links: selected(html, "link"@),
        titles: selected(html, "title"@),
        first_headings: selected(html, "h1"@),
        second_headings: selected(html, "h2"@),
        paragraphs: selected(html, "p"@),
    }
}

/// What the engine reads of the document that `text` parses to.
pub open spec fn parsed_view(text: Seq<char>) -> DocumentView {
    DocumentView {
        metas: parsed_selection(text, "meta"@),
        links: parsed_selection(text, "link"@),
        titles: parsed_selection(text, "title"@),
        first_headings: parsed_selection(text, "h1"@),
        second_headings: parsed_selection(text, "h2"@),
        paragraphs: parsed_selection(text, "p"@),
    }
}

/// What `resolve` makes of a candidate: nothing of one that is absent.
pub open spec fn accepted<T>(
    candidate: Option<Seq<char>>,
    resolve: spec_fn(Seq<char>) -> Option<T>,
) -> Option<T> {
    match candidate {
        Some(text) => resolve(text),
        None => None,
    }
}

/// A waterfall: the first candidate that is present and that `resolve`
/// accepts decides, and the candidates behind it are not consulted. Absent
/// where none is accepted.
pub open spec fn resolve_first<T>(
    candidates: Seq<Option<Seq<char>>>,
    resolve: spec_fn(Seq<char>) -> Option<T>,
) -> Option<T>
    decreases candidates.len(),
{
    if candidates.len() == 0 {
        None
    } else if accepted(candidates[0], resolve) is Some {
        accepted(candidates[0], resolve)
    } else {
        resolve_first(candidates.drop_first(), resolve)
    }
}

/// The sources of the title, most trusted first.
pub open spec fn title_candidates(doc: DocumentView) -> Seq<Option<Seq<char>>> {
    seq![
        og_content(doc.metas, OpenGraphTag::Title),
        twitter_content(doc.metas, TwitterMetaTag::Title),
        schema_content(doc.metas, SchemaMetaTag::Name),
        first_inner(doc.titles),
        first_inner(doc.first_headings),
        first_inner(doc.second_headings),
    ]
}

/// The sources of the description, most trusted first.
pub open spec fn description_candidates(doc: DocumentView) -> Seq<Option<Seq<char>>> {
    seq![
        og_content(doc.metas, OpenGraphTag::Description),
        twitter_content(doc.metas, TwitterMetaTag::Description),
        schema_content(doc.metas, SchemaMetaTag::Description),
        meta_content(doc.metas, "description"@),
        first_inner(doc.paragraphs),
    ]
}

/// The sources of the image URL, most trusted first.
pub open spec fn image_candidates(doc: DocumentView) -> Seq<Option<Seq<char>>> {
    seq![
        og_content(doc.metas, OpenGraphTag::Image),
        link_href(doc.links, "image_src"@),
        schema_content(doc.metas, SchemaMetaTag::Image),
        twitter_content(doc.metas, TwitterMetaTag::Image),
    ]
}

/// The sources of the domain, most trusted first.
pub open spec fn domain_candidates(doc: DocumentView) -> Seq<Option<Seq<char>>> {
    seq![link_href(doc.links, "canonical"@), og_content(doc.metas, OpenGraphTag::Url)]
}

/// The title of a document: the first of its sources that is present.
pub open spec fn title_of(doc: DocumentView) -> Option<Seq<char>> {
    resolve_first(title_candidates(doc), |text: Seq<char>| Some(text))
}

/// The description of a document: the first of its sources that is present.
pub open spec fn description_of(doc: DocumentView) -> Option<Seq<char>> {
    resolve_first(description_candidates(doc), |text: Seq<char>| Some(text))
}

/// The image of a document: the first of its sources that is present and
/// parses as an absolute URL. A source that does not parse is passed over.
pub open spec fn image_of(doc: DocumentView) -> Option<UrlView> {
    resolve_first(image_candidates(doc), |text: Seq<char>| parsed_url(text))
}

/// The domain of a document: the first of its sources that is present,
/// parses as an absolute URL and has a domain for a host. A source that does
/// not is passed over.
pub open spec fn domain_of(doc: DocumentView) -> Option<Seq<char>> {
    resolve_first(domain_candidates(doc), |text: Seq<char>| domain_of_text(text))
}

/// The mathematical value of a [`LinkPreview`].
pub ghost struct LinkPreviewView {
    pub title: Option<Seq<char>>,
    pub description: Option<Seq<char>>,
    pub domain: Option<Seq<char>>,
    pub image_url: Option<UrlView>,
}

/// The preview of a document: its four fields, each resolved on its own.
pub open spec fn preview_of(doc: DocumentView) -> LinkPreviewView {
    LinkPreviewView {
        title: title_of(doc),
        description: description_of(doc),
        domain: domain_of(doc),
        image_url: image_of(doc),
    }
}

/// Metadata about a web page. Every field may be absent.
#[derive(Clone, Debug)]
pub struct LinkPreview {
    pub title: Option<String>,
    pub description: Option<String>,
    pub domain: Option<String>,
    pub image_url: Option<Url>,
}

impl View for LinkPreview {
    type V = LinkPreviewView;

    open spec fn view(&self) -> LinkPreviewView {
        LinkPreviewView {
            title: self.title.deep_view(),
            description: self.description.deep_view(),
            domain: self.domain.deep_view(),
            image_url: optional_url_view(self.image_url),
        }
    }
}

impl DeepView for LinkPreview {
    type V = LinkPreviewView;

    open spec fn deep_view(&self) -> LinkPreviewView {
        self@
    }
}

impl LinkPreview {
    /// The image URL in its string form.
    pub fn image_url_str(&self) -> (text: Option<String>)
        ensures
            text.deep_view() == match self@.image_url {
                Some(url) => Some(url.text),
                None => None,
            },
    {
        match &self.image_url {
            Some(image_url) => Some(serialization(image_url)),
            None => None,
        }
    }

    /// Resolves the domain from, in this order:
    ///
    /// - the `href` of `<link rel="canonical">`
    /// - Open Graph's `og:url`
    pub fn find_first_domain(html: &Html) -> (domain: Option<String>)
        ensures
            domain.deep_view() == domain_of(document_view(*html)),
            domain matches Some(d) ==> holds_no_delimiter(d@),
    {
        let metas = meta_elements(html);
        let links = link_elements(html);
        domain_among(metas.as_slice(), links.as_slice())
    }

    /// Parses `value` as an absolute URL and returns its domain: nothing
    /// where `value` does not parse, and where the URL has no host or an IP
    /// address for one.
    pub fn domain_from_string(value: String) -> (found: Option<String>)
        ensures
            found.deep_view() == domain_of_text(value@),
            found matches Some(d) ==> holds_no_delimiter(d@),
    {
        match parse_url(value.as_str()) {
            Some(url) => domain(&url),
            None => None,
        }
    }

    /// Resolves the image URL from, in this order:
    ///
    /// - Open Graph's `og:image`
    /// - the `href` of `<link rel="image_src">`
    /// - Schema.org's `image`
    /// - Twitter Card's `twitter:image`
    pub fn find_first_image_url(html: &Html) -> (image_url: Option<Url>)
        ensures
            optional_url_view(image_url) == image_of(document_view(*html)),
    {
        let metas = meta_elements(html);
        let links = link_elements(html);
        image_among(metas.as_slice(), links.as_slice())
    }

    /// Resolves the description from, in this order:
    ///
    /// - Open Graph's `og:description`
    /// - Twitter Card's `twitter:description`
    /// - Schema.org's `description`
    /// - `<meta name="description">`
    /// - the first `<p>` of the document
    pub fn find_first_description(html: &Html) -> (description: Option<String>)
        ensures
            description.deep_view() == description_of(document_view(*html)),
    {
        let metas = meta_elements(html);
        let paragraphs = paragraph_elements(html);
        description_among(metas.as_slice(), paragraphs.as_slice())
    }

    /// Resolves the title from, in this order:
    ///
    /// - Open Graph's `og:title`
    /// - Twitter Card's `twitter:title`
    /// - Schema.org's `name`
    /// - the document's `<title>`
    /// - the first `<h1>` of the document
    /// - the first `<h2>` of the document
    pub fn find_first_title(html: &Html) -> (title: Option<String>)
        ensures
            title.deep_view() == title_of(document_view(*html)),
    {
        let metas = meta_elements(html);
        let titles = title_elements(html);
        let first_headings = first_heading_elements(html);
        let second_headings = second_heading_elements(html);
        title_among(
            metas.as_slice(),
            titles.as_slice(),
            first_headings.as_slice(),
            second_headings.as_slice(),
        )
    }
}

/// The `<title>` elements of the document, in document order.
fn title_elements(html: &Html) -> (elements: Vec<Element>)
    ensures
        element_views(elements@) == selected(*html, "title"@),
{
    proof {
        reveal_strlit("title");
        is_ascii_chars_encode_utf8("title"@);
    }
    select_elements(html, "title")
}

/// The `<h1>` elements of the document, in document order.
fn first_heading_elements(html: &Html) -> (elements: Vec<Element>)
    ensures
        element_views(elements@) == selected(*html, "h1"@),
{
    proof {
        reveal_strlit("h1");
        is_ascii_chars_encode_utf8("h1"@);
    }
    select_elements(html, "h1")
}

/// The `<h2>` elements of the document, in document order.
fn second_heading_elements(html: &Html) -> (elements: Vec<Element>)
    ensures
        element_views(elements@) == selected(*html, "h2"@),
{
    proof {
        reveal_strlit("h2");
        is_ascii_chars_encode_utf8("h2"@);
    }
    select_elements(html, "h2")
}

/// The `<p>` elements of the document, in document order.
fn paragraph_elements(html: &Html) -> (elements: Vec<Element>)
    ensures
        element_views(elements@) == selected(*html, "p"@),
{
    proof {
        reveal_strlit("p");
        is_ascii_chars_encode_utf8("p"@);
    }
    select_elements(html, "p")
}

/// The title that the selected elements give: the first present among Open
/// Graph's, Twitter Card's and Schema.org's in `metas`, the first of
/// `titles`, the first of `first_headings` and the first of
/// `second_headings`.
pub fn title_among(
    metas: &[Element],
    titles: &[Element],
    first_headings: &[Element],
    second_headings: &[Element],
) -> (title: Option<String>)
    ensures
        title.deep_view() == title_of(
            DocumentView {
                metas: element_views(metas@),
                links: Seq::empty(),
                titles: element_views(titles@),
                first_headings: element_views(first_headings@),
                second_headings: element_views(second_headings@),
                paragraphs: Seq::empty(),
            },
        ),
{
    proof {
        reveal_with_fuel(resolve_first, 7);
    }
    if let Some(title) = og_tag_among(metas, OpenGraphTag::Title) {
        return Some(title);
    }
    if let Some(title) = twitter_tag_among(metas, TwitterMetaTag::Title) {
        return Some(title);
    }
    if let Some(title) = schema_tag_among(metas, SchemaMetaTag::Name) {
        return Some(title);
    }
    if let Some(title) = first_inner_of(titles) {
        return Some(title);
    }
    if let Some(title) = first_inner_of(first_headings) {
        return Some(title);
    }
    if let Some(title) = first_inner_of(second_headings) {
        return Some(title);
    }
    None
}

/// The description that the selected elements give: the first present among
/// Open Graph's, Twitter Card's, Schema.org's and the generic one in `metas`
/// and the first of `paragraphs`.
pub fn description_among(metas: &[Element], paragraphs: &[Element]) -> (description: Option<
    String,
>)
    ensures
        description.deep_view() == description_of(
            DocumentView {
                metas: element_views(metas@),
                links: Seq::empty(),
                titles: Seq::empty(),
                first_headings: Seq::empty(),
                second_headings: Seq::empty(),
                paragraphs: element_views(paragraphs@),
            },
        ),
{
    proof {
        reveal_with_fuel(resolve_first, 6);
    }
    if let Some(description) = og_tag_among(metas, OpenGraphTag::Description) {
        return Some(description);
    }
    if let Some(description) = twitter_tag_among(metas, TwitterMetaTag::Description) {
        return Some(description);
    }
    if let Some(description) = schema_tag_among(metas, SchemaMetaTag::Description) {
        return Some(description);
    }
    if let Some(description) = meta_tag_among(metas, "description") {
        return Some(description);
    }
    if let Some(description) = first_inner_of(paragraphs) {
        return Some(description);
    }
    None
}

/// The image that the selected elements give: the first that parses as an
/// absolute URL among Open Graph's in `metas`, the `image_src` of `links`,
/// and Schema.org's and Twitter Card's in `metas`.
pub fn image_among(metas: &[Element], links: &[Element]) -> (image_url: Option<Url>)
    ensures
        optional_url_view(image_url) == image_of(
            DocumentView {
                metas: element_views(metas@),
                links: element_views(links@),
                titles: Seq::empty(),
                first_headings: Seq::empty(),
                second_headings: Seq::empty(),
                paragraphs: Seq::empty(),
            },
        ),
{
    proof {
        reveal_with_fuel(resolve_first, 5);
    }
    if let Some(candidate) = og_tag_among(metas, OpenGraphTag::Image) {
        let url = parse_url(candidate.as_str());
        if url.is_some() {
            return url;
        }
    }
    if let Some(candidate) = link_among(links, "image_src") {
        let url = parse_url(candidate.as_str());
        if url.is_some() {
            return url;
        }
    }
    if let Some(candidate) = schema_tag_among(metas, SchemaMetaTag::Image) {
        let url = parse_url(candidate.as_str());
        if url.is_some() {
            return url;
        }
    }
    if let Some(candidate) = twitter_tag_among(metas, TwitterMetaTag::Image) {
        let url = parse_url(candidate.as_str());
        if url.is_some() {
            return url;
        }
    }
    None
}

/// The domain that the selected elements give: the first that parses as an
/// absolute URL with a domain for a host among the `canonical` of `links`
/// and Open Graph's URL in `metas`.
pub fn domain_among(metas: &[Element], links: &[Element]) -> (domain: Option<String>)
    ensures
        domain.deep_view() == domain_of(
            DocumentView {
                metas: element_views(metas@),
                links: element_views(links@),
                titles: Seq::empty(),
                first_headings: Seq::empty(),
                second_headings: Seq::empty(),
                paragraphs: Seq::empty(),
            },
        ),
        domain matches Some(d) ==> holds_no_delimiter(d@),
{
    proof {
        reveal_with_fuel(resolve_first, 3);
    }
    if let Some(candidate) = link_among(links, "canonical") {
        let domain = LinkPreview::domain_from_string(candidate);
        if domain.is_some() {
            return domain;
        }
    }
    if let Some(candidate) = og_tag_among(metas, OpenGraphTag::Url) {
        let domain = LinkPreview::domain_from_string(candidate);
        if domain.is_some() {
            return domain;
        }
    }
    None
}

/// The preview that the selected elements give: its four fields, each
/// resolved on its own.
pub fn preview_among(
    metas: &[Element],
    links: &[Element],
    titles: &[Element],
    first_headings: &[Element],
    second_headings: &[Element],
    paragraphs: &[Element],
) -> (preview: LinkPreview)
    ensures
        preview@ == preview_of(
            DocumentView {
                metas: element_views(metas@),
                links: element_views(links@),
                titles: element_views(titles@),
                first_headings: element_views(first_headings@),
                second_headings: element_views(second_headings@),
                paragraphs: element_views(paragraphs@),
            },
        ),
        preview.domain matches Some(d) ==> holds_no_delimiter(d@),
{
    let image_url: Option<Url> = image_among(metas, links);
    let domain: Option<String> = domain_among(metas, links);

    LinkPreview {
        title: title_among(metas, titles, first_headings, second_headings),
        description: description_among(metas, paragraphs),
        domain,
        image_url,
    }
}

impl std::str::FromStr for LinkPreview {
    type Err = Error;

    /// Parses `html` as a document and resolves its preview. The parser
    /// repairs malformed markup, so this fails on no text but one of more
    /// than a third of [`MAX_TEXT_BYTES`] bytes, which could grow past what
    /// the parser holds and is refused as too long.
    fn from_str(html: &str) -> (preview: Result<LinkPreview, Error>)
        ensures
            match preview {
                Ok(p) => text_fits(html@) && p@ == preview_of(parsed_view(html@)),
                Err(error) => !text_fits(html@) && error is TooLong,
            },
    {
        if html.as_bytes().len() <= MAX_TEXT_BYTES / 3 {
            let html = parse_document(html);
            Ok(LinkPreview::from(&html))
        } else {
            Err(Error::TooLong)
        }
    }
}

impl From<&Html> for LinkPreview {
    /// Resolves the four fields of the preview, each by its own waterfall.
    fn from(html: &Html) -> (preview: LinkPreview)
        ensures
            preview@ == preview_of(document_view(*html)),
            preview.domain matches Some(d) ==> holds_no_delimiter(d@),
    {
        let metas = meta_elements(html);
        let links = link_elements(html);
        let titles = title_elements(html);
        let first_headings = first_heading_elements(html);
        let second_headings = second_heading_elements(html);
        let paragraphs = paragraph_elements(html);
        preview_among(
            metas.as_slice(),
            links.as_slice(),
            titles.as_slice(),
            first_headings.as_slice(),
            second_headings.as_slice(),
            paragraphs.as_slice(),
        )
    }
}

/// The conversion is specified by the `ensures` of `from` itself, which fixes
/// the value of the preview. `from_spec` is one preview of that value; `from`
/// is not held to return that very one, as a preview is more than its value.
impl FromSpecImpl<&Html> for LinkPreview {
    open spec fn obeys_from_spec() -> bool {
        false
    }

    open spec fn from_spec(html: &Html) -> LinkPreview {
        choose|preview: LinkPreview| preview@ == preview_of(document_view(*html))
    }
}

impl From<Html> for LinkPreview {
    /// Resolves the four fields of the preview, each by its own waterfall.
    fn from(html: Html) -> (preview: LinkPreview)
        ensures
            preview@ == preview_of(document_view(html)),
            preview.domain matches Some(d) ==> holds_no_delimiter(d@),
    {
        LinkPreview::from(&html)
    }
}

/// As for a borrowed document.
impl FromSpecImpl<Html> for LinkPreview {
    open spec fn obeys_from_spec() -> bool {
        false
    }

    open spec fn from_spec(html: Html) -> LinkPreview {
        choose|preview: LinkPreview| preview@ == preview_of(document_view(html))
    }
}

/// Extraction is deterministic: two previews extracted from the same
/// document are the same.
pub proof fn extraction_is_deterministic(html: Html, first: LinkPreview, second: LinkPreview)
    requires
        first@ == preview_of(document_view(html)),
        second@ == preview_of(document_view(html)),
    ensures
        first@ == second@,
{
}

/// A parsed document and the text that it was parsed from have the same
/// preview: building one from bytes, from text or from the parsed document
/// comes to the same.
pub proof fn preview_of_parsed_text(html: Html, text: Seq<char>)
    requires
        is_parse_of(html, text),
    ensures
        document_view(html) == parsed_view(text),
        preview_of(document_view(html)) == preview_of(parsed_view(text)),
{
}

/// A waterfall commits to the earliest candidate that is accepted, whatever
/// stands behind it.
pub proof fn earliest_accepted_candidate_decides<T>(
    candidates: Seq<Option<Seq<char>>>,
    resolve: spec_fn(Seq<char>) -> Option<T>,
    at: int,
)
    requires
        0 <= at < candidates.len(),
        accepted(candidates[at], resolve) is Some,
        forall|before: int|
            0 <= before < at ==> #[trigger] accepted(candidates[before], resolve) is None,
    ensures
        resolve_first(candidates, resolve) == accepted(candidates[at], resolve),
    decreases at,
{
    if at > 0 {
        earliest_accepted_candidate_decides(candidates.drop_first(), resolve, at - 1);
    }
}

/// A waterfall none of whose candidates is accepted yields nothing.
pub proof fn no_accepted_candidate_no_value<T>(
    candidates: Seq<Option<Seq<char>>>,
    resolve: spec_fn(Seq<char>) -> Option<T>,
)
    requires
        forall|at: int|
            0 <= at < candidates.len() ==> #[trigger] accepted(candidates[at], resolve) is None,
    ensures
        resolve_first(candidates, resolve) is None,
    decreases candidates.len(),
{
    if candidates.len() > 0 {
        no_accepted_candidate_no_value(candidates.drop_first(), resolve);
    }
}

/// Open Graph takes precedence: where a document declares an Open Graph
/// title, that is its title, whatever Twitter Card declares and wherever in
/// the document either declaration stands.
pub proof fn open_graph_title_wins(doc: DocumentView)
    requires
        og_content(doc.metas, OpenGraphTag::Title) is Some,
    ensures
        title_of(doc) == og_content(doc.metas, OpenGraphTag::Title),
{
}

/// The order of declarations does not matter: where one `<meta>` alone
/// declares the Open Graph title, and has content, the title stays as it is
/// when that element changes places with another, such as the one that
/// declares the title of Twitter Card.
pub proof fn title_ignores_where_open_graph_stands(doc: DocumentView, i: int, j: int)
    requires
        0 <= i < doc.metas.len(),
        0 <= j < doc.metas.len(),
        forall|k: int|
            0 <= k < doc.metas.len() ==> (#[trigger] declares(
                doc.metas[k],
                meta_key_names(),
                "og:title"@,
            ) <==> k == i),
        attribute_value(doc.metas[i].attributes, "content"@) is Some,
    ensures
        title_of(DocumentView { metas: exchanged(doc.metas, i, j), ..doc }) == title_of(doc),
{
    let names = meta_key_names();
    earliest_declaration_decides(doc.metas, names, "og:title"@, "content"@, i);
    only_declaration_decides_anywhere(doc.metas, names, "og:title"@, "content"@, i, j);
}

/// A document with a `<title>` and no `<meta>`, `<link>` or `<p>` element
/// has the inner markup of its first `<title>` for a title, and no
/// description, domain or image.
pub proof fn bare_title_is_the_whole_preview(doc: DocumentView)
    requires
        doc.titles.len() > 0,
        doc.metas.len() == 0,
        doc.links.len() == 0,
        doc.paragraphs.len() == 0,
    ensures
        preview_of(doc) == (LinkPreviewView {
            title: Some(doc.titles[0].inner_html),
            description: None,
            domain: None,
            image_url: None,
        }),
{
    reveal_with_fuel(resolve_first, 7);
}

/// A malformed image is tolerated: where `og:image` is not an absolute URL,
/// the image is what `<link rel="image_src">`, Schema.org and Twitter Card
/// give, in that order.
pub proof fn unparsable_image_is_skipped(doc: DocumentView)
    requires
        og_content(doc.metas, OpenGraphTag::Image) matches Some(text) && parsed_url(text) is None,
    ensures
        image_of(doc) == resolve_first(
            seq![
                link_href(doc.links, "image_src"@),
                schema_content(doc.metas, SchemaMetaTag::Image),
                twitter_content(doc.metas, TwitterMetaTag::Image),
            ],
            |text: Seq<char>| parsed_url(text),
        ),
{
    assert(image_candidates(doc).drop_first() =~= seq![
        link_href(doc.links, "image_src"@),
        schema_content(doc.metas, SchemaMetaTag::Image),
        twitter_content(doc.metas, TwitterMetaTag::Image),
    ]);
}

/// A malformed image counts for nothing: where `og:image` is not an absolute
/// URL, the image is that of the document without the elements that declare
/// `og:image`. This holds where none of those elements also declares the
/// image of Schema.org or of Twitter Card: removing one that does would take
/// that declaration away with it.
pub proof fn unparsable_image_is_as_good_as_none(doc: DocumentView)
    requires
        og_content(doc.metas, OpenGraphTag::Image) matches Some(text) && parsed_url(text) is None,
        forall|k: int|
            0 <= k < doc.metas.len() && #[trigger] declares(
                doc.metas[k],
                meta_key_names(),
                "og:image"@,
            ) ==> !declares(doc.metas[k], seq!["itemprop"@], "image"@) && !declares(
                doc.metas[k],
                meta_key_names(),
                "twitter:image"@,
            ),
    ensures
        image_of(
            DocumentView {
                metas: without_declaring(doc.metas, meta_key_names(), "og:image"@),
                ..doc
            },
        ) == image_of(doc),
{
    let names = meta_key_names();
    let kept = without_declaring(doc.metas, names, "og:image"@);
    let other = DocumentView { metas: kept, ..doc };
    removed_key_is_absent(doc.metas, names, "og:image"@, "content"@);
    removal_keeps_other_keys(
        doc.metas,
        names,
        "og:image"@,
        seq!["itemprop"@],
        "image"@,
        "content"@,
    );
    removal_keeps_other_keys(
        doc.metas,
        names,
        "og:image"@,
        names,
        "twitter:image"@,
        "content"@,
    );
    unparsable_image_is_skipped(doc);
    assert(image_candidates(other).drop_first() =~= seq![
        link_href(doc.links, "image_src"@),
        schema_content(doc.metas, SchemaMetaTag::Image),
        twitter_content(doc.metas, TwitterMetaTag::Image),
    ]);
}

/// `String::from_utf8` on a copy of `bytes`: the text that the bytes encode,
/// or the reason why they encode none. It succeeds exactly on valid UTF-8.
#[verifier::external_body]
pub(crate) fn decode(bytes: &[u8]) -> (text: Result<String, FromUtf8Error>)
    ensures
        text is Ok <==> valid_utf8(bytes@),
        text matches Ok(s) ==> s@ == decode_utf8(bytes@),
{
    String::from_utf8(bytes.to_vec())
}

/// Decodes `value` as UTF-8 and parses the text as a document. Fails exactly
/// where the bytes are not valid UTF-8. The buffer may hold at most a third
/// of [`MAX_TEXT_BYTES`] bytes: a longer text could grow past what the
/// parser holds.
pub fn html_from_bytes(value: &[u8]) -> (html: Result<Html, Error>)
    requires
        3 * value@.len() <= MAX_TEXT_BYTES,
    ensures
        html is Ok <==> valid_utf8(value@),
        html matches Ok(document) ==> is_parse_of(document, decode_utf8(value@)),
        html matches Err(error) ==> error is InvalidUtf8,
{
    match decode(value) {
        Ok(utf8) => {
            proof {
                decode_utf8_encode_utf8(value@);
            }
            Ok(parse_document(utf8.as_str()))
        },
        Err(reason) => Err(Error::InvalidUtf8(reason)),
    }
}

/// Decodes `value` as UTF-8, parses the text as a document and resolves its
/// preview. Fails exactly where the bytes are not valid UTF-8, and then
/// yields no preview at all. The buffer may hold at most a third of
/// [`MAX_TEXT_BYTES`] bytes.
pub fn preview_from_bytes(value: &[u8]) -> (preview: Result<LinkPreview, Error>)
    requires
        3 * value@.len() <= MAX_TEXT_BYTES,
    ensures
        preview is Ok <==> valid_utf8(value@),
        preview matches Ok(p) ==> p@ == preview_of(parsed_view(decode_utf8(value@))),
        preview matches Err(error) ==> error is InvalidUtf8,
{
    match html_from_bytes(value) {
        Ok(html) => Ok(LinkPreview::from(&html)),
        Err(error) => Err(error),
    }
}

} // verus!

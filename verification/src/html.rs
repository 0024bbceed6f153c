//! The document query layer: first-match lookups over a parsed document.
//!
//! A document is only ever read through [`select`], which hands out the
//! elements that a selector matches, in order, as plain values. The lookups
//! on top of it are scans over those values: the first element that carries
//! a key wins, and later declarations of the same key are ignored.

use scraper::Html;
use vstd::prelude::*;
use vstd::utf8::{encode_utf8, is_ascii_chars_encode_utf8};

verus! {

/// The parsed document tree. Its nodes are never read directly: every query
/// goes through [`select`].
#[verifier::external_type_specification]
#[verifier::external_body]
pub struct ExHtml(Html);

/// One attribute of an element, as a name and a value.
#[derive(Debug)]
pub struct Attribute {
    pub name: String,
    pub value: String,
}

/// What a query reads of one element: its attributes and its inner markup.
#[derive(Debug)]
pub struct Element {
    pub attributes: Vec<Attribute>,
    pub inner_html: String,
}

/// The mathematical value of an [`Attribute`].
pub ghost struct AttributeView {
    pub name: Seq<char>,
    pub value: Seq<char>,
}

/// The mathematical value of an [`Element`].
pub ghost struct ElementView {
    pub attributes: Seq<AttributeView>,
    pub inner_html: Seq<char>,
}

impl View for Attribute {
    type V = AttributeView;

    open spec fn view(&self) -> AttributeView {
        AttributeView { name: self.name@, value: self.value@ }
    }
}

impl View for Element {
    type V = ElementView;

    open spec fn view(&self) -> ElementView {
        ElementView {
            attributes: Seq::new(self.attributes@.len(), |i: int| self.attributes@[i]@),
            inner_html: self.inner_html@,
        }
    }
}

/// The values of a sequence of elements, in the same order.
pub open spec fn element_views(elements: Seq<Element>) -> Seq<ElementView> {
    Seq::new(elements.len(), |i: int| elements[i]@)
}

/// The texts of a sequence of string slices, in the same order.
pub open spec fn texts(names: Seq<&str>) -> Seq<Seq<char>> {
    Seq::new(names.len(), |i: int| names[i]@)
}

/// The elements of `html` that `selector` matches, in the order in which the
/// document tree yields them, which the library takes for document order;
/// each with its attributes in the order in which the tree keeps them. A
/// selector that is no valid CSS selects nothing.
pub uninterp spec fn selected(html: Html, selector: Seq<char>) -> Seq<ElementView>;

/// What [`selected`] yields for the document that parsing `text` builds.
pub uninterp spec fn parsed_selection(text: Seq<char>, selector: Seq<char>) -> Seq<ElementView>;

/// Whether `html` answers every selector as the document parsed from `text`
/// does.
pub open spec fn is_parse_of(html: Html, text: Seq<char>) -> bool {
    forall|selector: Seq<char>| #[trigger]
        selected(html, selector) == parsed_selection(text, selector)
}

/// The most bytes that one piece of text can take in a parsed document. The
/// parser keeps each piece in a buffer whose capacity is a power of two
/// counted in 32 bits, and the largest of those is this.
pub const MAX_TEXT_BYTES: usize = 2147483648;

/// The longest selector, in bytes, that the library runs. The selector
/// parser counts the lines of a selector in 32 bits.
pub const MAX_SELECTOR_BYTES: usize = 4294967295;

/// Whether `text` is short enough to be parsed: whether no piece of the
/// document can pass [`MAX_TEXT_BYTES`]. A piece is made of characters of the
/// text and can grow to three times what the text spends on it: a NUL, of one
/// byte, becomes a replacement character of three.
pub open spec fn text_fits(text: Seq<char>) -> bool {
    3 * encode_utf8(text).len() <= MAX_TEXT_BYTES
}

/// Whether `selector` is short enough to be run: whether it has fewer line
/// breaks than the selector parser can count.
pub open spec fn selector_fits(selector: Seq<char>) -> bool {
    encode_utf8(selector).len() <= MAX_SELECTOR_BYTES
}

/// Parses `text` with `scraper::Html::parse_document`. The parser repairs
/// malformed markup rather than refuse it, but it panics where a piece of
/// text has to grow past [`MAX_TEXT_BYTES`] bytes, which `text_fits` rules
/// out. The contract claims only that the tree is a function of the text, so
/// that equal texts answer every selector alike.
#[verifier::external_body]
pub(crate) fn parse_document(text: &str) -> (html: Html)
    requires
        text_fits(text@),
    ensures
        forall|selector: Seq<char>| #[trigger]
            selected(html, selector) == parsed_selection(text@, selector),
{
    Html::parse_document(text)
}

/// Runs `selector` over the document with `scraper::Selector::parse` and
/// `scraper::Html::select`, and copies out of each match its attributes
/// (`scraper::node::Element::attrs`) and its inner markup
/// (`scraper::ElementRef::inner_html`). A selector that does not parse
/// selects nothing. Parsing a selector overflows the count of its lines on
/// one with 2^32 line breaks, which `selector_fits` rules out. The contract
/// only gives the outcome its name: the same document and selector select
/// the same elements, in the same order.
#[verifier::external_body]
pub(crate) fn select(html: &Html, selector: &str) -> (elements: Vec<Element>)
    requires
        selector_fits(selector@),
    ensures
        element_views(elements@) == selected(*html, selector@),
{
    match scraper::Selector::parse(selector) {
        Ok(parsed) => html.select(&parsed).map(|e| Element {
            attributes: e.value().attrs().map(|(name, value)| Attribute {
                name: name.to_string(),
                value: value.to_string(),
            }).collect(),
            inner_html: e.inner_html(),
        }).collect(),
        Err(_) => Vec::new(),
    }
}

/// The value of the first attribute called `name`, if there is one.
pub open spec fn attribute_value(attributes: Seq<AttributeView>, name: Seq<char>) -> Option<
    Seq<char>,
>
    decreases attributes.len(),
{
    if attributes.len() == 0 {
        None
    } else if attributes[0].name == name {
        Some(attributes[0].value)
    } else {
        attribute_value(attributes.drop_first(), name)
    }
}

/// Whether one of the attributes called `names` has exactly the value `key`.
pub open spec fn declares(element: ElementView, names: Seq<Seq<char>>, key: Seq<char>) -> bool {
    exists|i: int|
        0 <= i < names.len() && #[trigger] attribute_value(element.attributes, names[i]) == Some(
            key,
        )
}

/// The `wanted` attribute of the first element that declares `key` under one
/// of `names`. Absent where no element declares the key, and where the first
/// that does has no `wanted` attribute: later elements are not consulted.
pub open spec fn first_declared(
    elements: Seq<ElementView>,
    names: Seq<Seq<char>>,
    key: Seq<char>,
    wanted: Seq<char>,
) -> Option<Seq<char>>
    decreases elements.len(),
{
    if elements.len() == 0 {
        None
    } else if declares(elements[0], names, key) {
        attribute_value(elements[0].attributes, wanted)
    } else {
        first_declared(elements.drop_first(), names, key, wanted)
    }
}

/// The inner markup of the first element, if there is one.
pub open spec fn first_inner(elements: Seq<ElementView>) -> Option<Seq<char>> {
    if elements.len() > 0 {
        Some(elements[0].inner_html)
    } else {
        None
    }
}

/// The attributes under which a `<meta>` declares a key.
pub open spec fn meta_key_names() -> Seq<Seq<char>> {
    seq!["name"@, "property"@]
}

/// The content of the first `<meta>` whose `name` or `property` is `key`.
pub open spec fn meta_content(metas: Seq<ElementView>, key: Seq<char>) -> Option<Seq<char>> {
    first_declared(metas, meta_key_names(), key, "content"@)
}

/// The content of the first `<meta>` whose attribute `attr` is `key`.
pub open spec fn meta_content_by_attr(
    metas: Seq<ElementView>,
    attr: Seq<char>,
    key: Seq<char>,
) -> Option<Seq<char>> {
    first_declared(metas, seq![attr], key, "content"@)
}

/// The `href` of the first `<link>` whose `rel` is `rel`.
pub open spec fn link_href(links: Seq<ElementView>, rel: Seq<char>) -> Option<Seq<char>> {
    first_declared(links, seq!["rel"@], rel, "href"@)
}

/// First match wins: the earliest element that declares `key` decides, and
/// declarations behind it are ignored.
pub proof fn earliest_declaration_decides(
    elements: Seq<ElementView>,
    names: Seq<Seq<char>>,
    key: Seq<char>,
    wanted: Seq<char>,
    at: int,
)
    requires
        0 <= at < elements.len(),
        declares(elements[at], names, key),
        forall|before: int| 0 <= before < at ==> !#[trigger] declares(elements[before], names, key),
    ensures
        first_declared(elements, names, key, wanted) == attribute_value(
            elements[at].attributes,
            wanted,
        ),
    decreases at,
{
    if at > 0 {
        earliest_declaration_decides(elements.drop_first(), names, key, wanted, at - 1);
    }
}

/// A key that no element declares has no value.
pub proof fn undeclared_key_is_absent(
    elements: Seq<ElementView>,
    names: Seq<Seq<char>>,
    key: Seq<char>,
    wanted: Seq<char>,
)
    requires
        forall|at: int| 0 <= at < elements.len() ==> !#[trigger] declares(elements[at], names, key),
    ensures
        first_declared(elements, names, key, wanted) is None,
    decreases elements.len(),
{
    if elements.len() > 0 {
        undeclared_key_is_absent(elements.drop_first(), names, key, wanted);
    }
}

/// The elements with those at `i` and `j` exchanged.
pub open spec fn exchanged(elements: Seq<ElementView>, i: int, j: int) -> Seq<ElementView> {
    elements.update(i, elements[j]).update(j, elements[i])
}

/// The elements without those that declare `key` under one of `names`, the
/// others in their order.
pub open spec fn without_declaring(
    elements: Seq<ElementView>,
    names: Seq<Seq<char>>,
    key: Seq<char>,
) -> Seq<ElementView>
    decreases elements.len(),
{
    if elements.len() == 0 {
        elements
    } else if declares(elements[0], names, key) {
        without_declaring(elements.drop_first(), names, key)
    } else {
        seq![elements[0]] + without_declaring(elements.drop_first(), names, key)
    }
}

/// Where an element is the only one to declare `key`, it decides, wherever
/// it stands: exchanging it with another element changes nothing.
pub proof fn only_declaration_decides_anywhere(
    elements: Seq<ElementView>,
    names: Seq<Seq<char>>,
    key: Seq<char>,
    wanted: Seq<char>,
    i: int,
    j: int,
)
    requires
        0 <= i < elements.len(),
        0 <= j < elements.len(),
        forall|k: int|
            0 <= k < elements.len() ==> (#[trigger] declares(elements[k], names, key) <==> k == i),
    ensures
        first_declared(exchanged(elements, i, j), names, key, wanted) == first_declared(
            elements,
            names,
            key,
            wanted,
        ),
{
    earliest_declaration_decides(elements, names, key, wanted, i);
    if i == j {
        assert(exchanged(elements, i, j) =~= elements);
    } else {
        let moved = exchanged(elements, i, j);
        assert forall|before: int| 0 <= before < j implies !#[trigger] declares(
            moved[before],
            names,
            key,
        ) by {
            if before == i {
                assert(!declares(elements[j], names, key));
            } else {
                assert(!declares(elements[before], names, key));
            }
        }
        earliest_declaration_decides(moved, names, key, wanted, j);
    }
}

/// Once the elements that declare `key` are removed, `key` has no value.
pub proof fn removed_key_is_absent(
    elements: Seq<ElementView>,
    names: Seq<Seq<char>>,
    key: Seq<char>,
    wanted: Seq<char>,
)
    ensures
        first_declared(without_declaring(elements, names, key), names, key, wanted) is None,
    decreases elements.len(),
{
    if elements.len() > 0 {
        removed_key_is_absent(elements.drop_first(), names, key, wanted);
        if !declares(elements[0], names, key) {
            let rest = without_declaring(elements.drop_first(), names, key);
            assert((seq![elements[0]] + rest).drop_first() =~= rest);
        }
    }
}

/// Removing the elements that declare one key leaves the value of another
/// as it was, provided that no removed element declares that other key too.
pub proof fn removal_keeps_other_keys(
    elements: Seq<ElementView>,
    names: Seq<Seq<char>>,
    key: Seq<char>,
    other_names: Seq<Seq<char>>,
    other_key: Seq<char>,
    wanted: Seq<char>,
)
    requires
        forall|k: int|
            0 <= k < elements.len() && #[trigger] declares(elements[k], names, key) ==> !declares(
                elements[k],
                other_names,
                other_key,
            ),
    ensures
        first_declared(without_declaring(elements, names, key), other_names, other_key, wanted)
            == first_declared(elements, other_names, other_key, wanted),
    decreases elements.len(),
{
    if elements.len() > 0 {
        let tail = elements.drop_first();
        assert forall|k: int| 0 <= k < tail.len() && #[trigger] declares(
            tail[k],
            names,
            key,
        ) implies !declares(tail[k], other_names, other_key) by {
            assert(declares(elements[k + 1], names, key));
        }
        removal_keeps_other_keys(tail, names, key, other_names, other_key, wanted);
        if !declares(elements[0], names, key) {
            let rest = without_declaring(tail, names, key);
            assert((seq![elements[0]] + rest).drop_first() =~= rest);
        }
    }
}

impl Element {
    /// The value of the attribute called `name`.
    pub fn attr(&self, name: &str) -> (value: Option<&String>)
        ensures
            match value {
                Some(v) => attribute_value(self@.attributes, name@) == Some(v@),
                None => attribute_value(self@.attributes, name@) is None,
            },
    {
        let wanted = name.to_owned();
        let mut i: usize = 0;
        proof {
            assert(self@.attributes.skip(0) =~= self@.attributes);
        }
        while i < self.attributes.len()
            invariant
                i <= self.attributes.len(),
                wanted@ == name@,
                attribute_value(self@.attributes, name@) == attribute_value(
                    self@.attributes.skip(i as int),
                    name@,
                ),
            decreases self.attributes.len() - i,
        {
            if self.attributes[i].name == wanted {
                return Some(&self.attributes[i].value);
            }
            proof {
                assert(self@.attributes.skip(i as int).drop_first() =~= self@.attributes.skip(
                    i + 1,
                ));
            }
            i += 1;
        }
        None
    }

    /// Whether one of the attributes called `names` has exactly the value
    /// `key`.
    pub fn declares(&self, names: &[&str], key: &str) -> (found: bool)
        ensures
            found == declares(self@, texts(names@), key@),
    {
        let sought = key.to_owned();
        let mut i: usize = 0;
        while i < names.len()
            invariant
                i <= names.len(),
                sought@ == key@,
                forall|j: int|
                    0 <= j < i ==> #[trigger] attribute_value(self@.attributes, texts(names@)[j])
                        != Some(key@),
            decreases names.len() - i,
        {
            if let Some(value) = self.attr(names[i]) {
                if *value == sought {
                    assert(attribute_value(self@.attributes, texts(names@)[i as int]) == Some(
                        key@,
                    ));
                    return true;
                }
            }
            i += 1;
        }
        false
    }
}

/// The `wanted` attribute of the first of `elements` that declares `key`
/// under one of `names`.
pub fn find_attribute(elements: &[Element], names: &[&str], key: &str, wanted: &str) -> (value:
    Option<String>)
    ensures
        value.deep_view() == first_declared(element_views(elements@), texts(names@), key@, wanted@),
{
    let mut i: usize = 0;
    proof {
        assert(element_views(elements@).skip(0) =~= element_views(elements@));
    }
    while i < elements.len()
        invariant
            i <= elements.len(),
            first_declared(element_views(elements@), texts(names@), key@, wanted@)
                == first_declared(
                element_views(elements@).skip(i as int),
                texts(names@),
                key@,
                wanted@,
            ),
        decreases elements.len() - i,
    {
        if elements[i].declares(names, key) {
            return match elements[i].attr(wanted) {
                Some(v) => Some(v.clone()),
                None => None,
            };
        }
        proof {
            assert(element_views(elements@).skip(i as int).drop_first() =~= element_views(
                elements@,
            ).skip(i + 1));
        }
        i += 1;
    }
    None
}

/// The inner markup of the first of `elements`.
pub fn first_inner_of(elements: &[Element]) -> (inner: Option<String>)
    ensures
        inner.deep_view() == first_inner(element_views(elements@)),
{
    if elements.len() > 0 {
        Some(elements[0].inner_html.clone())
    } else {
        None
    }
}

/// The `content` of the first of `metas` whose `name` or `property` equals
/// `key`.
pub fn meta_tag_among(metas: &[Element], key: &str) -> (content: Option<String>)
    ensures
        content.deep_view() == meta_content(element_views(metas@), key@),
{
    let names = ["name", "property"];
    proof {
        assert(texts(names@) =~= meta_key_names());
    }
    find_attribute(metas, names.as_slice(), key, "content")
}

/// The `content` of the first of `metas` whose attribute `attr` equals `key`.
pub fn meta_tag_by_attr_among(metas: &[Element], attr: &str, key: &str) -> (content: Option<
    String,
>)
    ensures
        content.deep_view() == meta_content_by_attr(element_views(metas@), attr@, key@),
{
    let names = [attr];
    proof {
        assert(texts(names@) =~= seq![attr@]);
    }
    find_attribute(metas, names.as_slice(), key, "content")
}

/// The `href` of the first of `links` whose `rel` equals `rel`.
pub fn link_among(links: &[Element], rel: &str) -> (href: Option<String>)
    ensures
        href.deep_view() == link_href(element_views(links@), rel@),
{
    let names = ["rel"];
    proof {
        assert(texts(names@) =~= seq!["rel"@]);
    }
    find_attribute(links, names.as_slice(), rel, "href")
}

/// The `<meta>` elements of the document, in document order.
pub fn meta_elements(html: &Html) -> (metas: Vec<Element>)
    ensures
        element_views(metas@) == selected(*html, "meta"@),
{
    proof {
        reveal_strlit("meta");
        is_ascii_chars_encode_utf8("meta"@);
    }
    select(html, "meta")
}

/// The `<link>` elements of the document, in document order.
pub fn link_elements(html: &Html) -> (links: Vec<Element>)
    ensures
        element_views(links@) == selected(*html, "link"@),
{
    proof {
        reveal_strlit("link");
        is_ascii_chars_encode_utf8("link"@);
    }
    select(html, "link")
}

/// Scans the `<meta>` elements in document order and returns the `content`
/// of the first whose `name` or `property` equals `key`.
pub fn find_meta_tag(html: &Html, key: &str) -> (content: Option<String>)
    ensures
        content.deep_view() == meta_content(selected(*html, "meta"@), key@),
{
    let metas = meta_elements(html);
    meta_tag_among(metas.as_slice(), key)
}

/// Scans the `<meta>` elements in document order and returns the `content`
/// of the first whose attribute `attr` equals `key`.
pub fn find_meta_tag_by_attr(html: &Html, attr: &str, key: &str) -> (content: Option<String>)
    ensures
        content.deep_view() == meta_content_by_attr(selected(*html, "meta"@), attr@, key@),
{
    let metas = meta_elements(html);
    meta_tag_by_attr_among(metas.as_slice(), attr, key)
}

/// Scans the `<link>` elements in document order and returns the `href` of
/// the first whose `rel` equals `rel`.
pub fn find_link(html: &Html, rel: &str) -> (href: Option<String>)
    ensures
        href.deep_view() == link_href(selected(*html, "link"@), rel@),
{
    let links = link_elements(html);
    link_among(links.as_slice(), rel)
}

/// What a selector selects in a document. A selector over
/// [`MAX_SELECTOR_BYTES`] bytes is not run and selects nothing.
pub open spec fn selected_within_limit(html: Html, selector: Seq<char>) -> Seq<ElementView> {
    if selector_fits(selector) {
        selected(html, selector)
    } else {
        Seq::empty()
    }
}

/// The elements that `selector` matches, in document order. A selector over
/// [`MAX_SELECTOR_BYTES`] bytes is not run and selects nothing.
pub fn select_elements(html: &Html, selector: &str) -> (elements: Vec<Element>)
    ensures
        element_views(elements@) == selected_within_limit(*html, selector@),
{
    if selector.as_bytes().len() <= MAX_SELECTOR_BYTES {
        select(html, selector)
    } else {
        let none: Vec<Element> = Vec::new();
        assert(element_views(none@) =~= Seq::<ElementView>::empty());
        none
    }
}

/// The inner markup of the first element that `selector` matches, in
/// document order. A selector over [`MAX_SELECTOR_BYTES`] bytes is not run
/// and finds nothing.
pub fn first_inner_html(html: &Html, selector: &str) -> (inner: Option<String>)
    ensures
        inner.deep_view() == first_inner(selected_within_limit(*html, selector@)),
{
    let elements = select_elements(html, selector);
    first_inner_of(elements.as_slice())
}

} // verus!

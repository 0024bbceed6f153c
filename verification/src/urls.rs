//! Absolute URLs, as the `url` crate parses and serializes them.
//!
//! A [`Url`] is opaque here. Its mathematical value, [`UrlView`], holds what
//! the library reads of one: the serialization, the host, the domain and the
//! path.

use url::Url;
use vstd::prelude::*;

verus! {

/// A parsed absolute URL.
#[verifier::external_type_specification]
#[verifier::external_body]
pub struct ExUrl(Url);

/// What the library reads of a URL.
pub ghost struct UrlView {
    /// The serialization: the text that the URL displays as.
    pub text: Seq<char>,
    /// The host, where the URL has one.
    pub host: Option<Seq<char>>,
    /// The host, where the URL has one and it is a domain name rather than an
    /// IP address.
    pub domain: Option<Seq<char>>,
    /// The path.
    pub path: Seq<char>,
}

/// The mathematical value of a URL.
pub uninterp spec fn url_view(url: Url) -> UrlView;

/// The value of the URL that `text` parses to, where `text` is an absolute
/// URL; absent where it is not.
pub uninterp spec fn parsed_url(text: Seq<char>) -> Option<UrlView>;

/// The value of a URL once its path has been replaced by `path`.
pub uninterp spec fn url_with_path(url: UrlView, path: Seq<char>) -> UrlView;

/// The longest serialization, in bytes, that a URL can have.
pub const MAX_URL_BYTES: usize = 4294967295;

/// The number of bytes that `text` takes in UTF-8.
pub open spec fn byte_len(text: Seq<char>) -> nat {
    vstd::utf8::encode_utf8(text).len()
}

/// Whether replacing the path of `url` by `path` is sure to stay within
/// [`MAX_URL_BYTES`]: percent-encoding turns each byte of a path into at most
/// three, and at most three slashes are added to it.
pub open spec fn path_fits(url: UrlView, path: Seq<char>) -> bool {
    byte_len(url.text) + 3 * byte_len(path) + 3 <= MAX_URL_BYTES
}

/// The value of an optional URL.
pub open spec fn optional_url_view(url: Option<Url>) -> Option<UrlView> {
    match url {
        Some(u) => Some(url_view(u)),
        None => None,
    }
}

/// Parses `text` with `Url::parse`, dropping the reason where that fails.
/// The contract names the outcome: whether `text` is an absolute URL, and
/// what the URL that it gives holds, depend on `text` alone.
#[verifier::external_body]
pub(crate) fn parse_url(text: &str) -> (url: Option<Url>)
    ensures
        optional_url_view(url) == parsed_url(text@),
{
    Url::parse(text).ok()
}

/// The text that `Url`'s `Display` writes, which is its serialization.
#[verifier::external_body]
pub(crate) fn serialization(url: &Url) -> (text: String)
    ensures
        text@ == url_view(*url).text,
{
    url.to_string()
}

/// `Url::host_str`: the host as it stands in the serialization.
#[verifier::external_body]
pub(crate) fn host(url: &Url) -> (host: Option<String>)
    ensures
        host.deep_view() == url_view(*url).host,
{
    url.host_str().map(|h| h.to_string())
}

/// Whether `c` is one of the characters that part a URL: those that end the
/// scheme, the credentials, the host, the port and the path.
pub open spec fn is_delimiter(c: char) -> bool {
    c == '#' || c == '/' || c == ':' || c == '?' || c == '@'
}

/// Whether `text` holds none of the characters that part a URL, and so
/// neither a scheme nor credentials, a port, a path, a query or a fragment.
pub open spec fn holds_no_delimiter(text: Seq<char>) -> bool {
    forall|i: int| 0 <= i < text.len() ==> !is_delimiter(#[trigger] text[i])
}

/// `Url::domain`: the host where it is a domain name. The contract also says
/// that a domain holds none of `#`, `/`, `:`, `?` and `@`: the host parsers
/// of the `url` crate refuse a host with one of them, both the one for
/// special schemes, by its list of forbidden domain code points, and the one
/// for opaque hosts.
#[verifier::external_body]
pub(crate) fn domain(url: &Url) -> (domain: Option<String>)
    ensures
        domain.deep_view() == url_view(*url).domain,
        domain matches Some(d) ==> holds_no_delimiter(d@),
{
    url.domain().map(|d| d.to_string())
}

/// `Url::path`: the path as it stands in the serialization.
#[verifier::external_body]
pub(crate) fn path(url: &Url) -> (path: String)
    ensures
        path@ == url_view(*url).path,
{
    url.path().to_string()
}

/// `Url::set_path`: replaces the path and keeps the rest. It panics where the
/// new serialization would pass [`MAX_URL_BYTES`], which `path_fits` rules
/// out. The contract names the outcome: what the URL holds afterwards depends
/// on what it held before and on `path` alone. It also says that the host
/// stays: the call rewrites the serialization from the path on, and the host
/// stands before the path.
#[verifier::external_body]
pub(crate) fn set_path(url: &mut Url, path: &str)
    requires
        path_fits(url_view(*old(url)), path@),
    ensures
        url_view(*final(url)) == url_with_path(url_view(*old(url)), path@),
        url_view(*final(url)).host == url_view(*old(url)).host,
{
    url.set_path(path)
}

/// The domain of the absolute URL that `text` spells: absent where `text`
/// does not parse, and where the URL has no host or an IP address for one.
pub open spec fn domain_of_text(text: Seq<char>) -> Option<Seq<char>> {
    match parsed_url(text) {
        Some(url) => url.domain,
        None => None,
    }
}

} // verus!

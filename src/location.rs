//! Module locations are held as the text of an absolute URL. What a URL
//! operation yields is computed by the `url` crate; its results are named here.
use vstd::prelude::*;

verus! {

/// The URL text that `url::Url::from_directory_path` gives for a path, if any.
pub uninterp spec fn directory_url(path: Seq<char>) -> Option<Seq<char>>;

/// The normalized text of the absolute URL that `url::Url::parse` reads from a text, if any.
pub uninterp spec fn parsed_url(text: Seq<char>) -> Option<Seq<char>>;

/// The text of `url::Url::join` of `input` onto the parsed `base`, if both steps succeed.
pub uninterp spec fn joined_url(base: Seq<char>, input: Seq<char>) -> Option<Seq<char>>;

/// The local path text that `url::Url::to_file_path` gives for the parsed URL, if any.
pub uninterp spec fn url_file_path(url: Seq<char>) -> Option<Seq<char>>;

/// The path component that `url::Url::path` gives for the parsed URL, if it parses.
pub uninterp spec fn url_path(url: Seq<char>) -> Option<Seq<char>>;

/// Relies on `url::Url::from_directory_path`: the `file` URL of a directory,
/// with a trailing slash; it fails on a relative path.
#[verifier::external_body]
pub(crate) fn url_from_directory_path(path: &str) -> (r: Option<String>)
    ensures
        r matches Some(u) ==> u@ == directory_url(path@)->Some_0,
        r is None <==> directory_url(path@) is None,
{
    url::Url::from_directory_path(path).ok().map(String::from)
}

/// Relies on `url::Url::parse`: an absolute URL is read and given its normalized text.
#[verifier::external_body]
pub(crate) fn parse_url(text: &str) -> (r: Option<String>)
    ensures
        r matches Some(u) ==> u@ == parsed_url(text@)->Some_0,
        r is None <==> parsed_url(text@) is None,
{
    url::Url::parse(text).ok().map(String::from)
}

/// Relies on `url::Url::parse` for the base and `url::Url::join` for the input.
#[verifier::external_body]
pub(crate) fn join_url(base: &str, input: &str) -> (r: Option<String>)
    ensures
        r matches Some(u) ==> u@ == joined_url(base@, input@)->Some_0,
        r is None <==> joined_url(base@, input@) is None,
{
    url::Url::parse(base).ok()?.join(input).ok().map(String::from)
}

/// Relies on `url::Url::parse` and `url::Url::to_file_path`; a path that is not
/// valid text counts as a failure.
#[verifier::external_body]
pub(crate) fn url_to_file_path(url_text: &str) -> (r: Option<String>)
    ensures
        r matches Some(p) ==> p@ == url_file_path(url_text@)->Some_0,
        r is None <==> url_file_path(url_text@) is None,
{
    url::Url::parse(url_text).ok()?.to_file_path().ok()?.into_os_string().into_string().ok()
}

/// Relies on `url::Url::parse` and `url::Url::path`.
#[verifier::external_body]
pub(crate) fn path_of_url(url_text: &str) -> (r: Option<String>)
    ensures
        r matches Some(p) ==> p@ == url_path(url_text@)->Some_0,
        r is None <==> url_path(url_text@) is None,
{
    url::Url::parse(url_text).ok().map(|u| u.path().to_string())
}

} // verus!

//! Encodings that other crates provide: URL queries and pattern matches.

use vstd::prelude::*;

verus! {

/// The characters of each name and value of a list of pairs.
pub open spec fn pair_views(pairs: Seq<(String, String)>) -> Seq<(Seq<char>, Seq<char>)> {
    pairs.map_values(|p: (String, String)| (p.0@, p.1@))
}

/// The pairs as `serde_urlencoded` writes them into the query of a URL,
/// where it writes them.
pub uninterp spec fn url_encoded(pairs: Seq<(Seq<char>, Seq<char>)>) -> Option<Seq<char>>;

/// `serde_urlencoded::to_string` of a list of pairs: the pairs in the form
/// `application/x-www-form-urlencoded`, in their order, or nothing where
/// the crate reports an error.
#[verifier::external_body]
pub(crate) fn encode_query(pairs: &Vec<(String, String)>) -> (r: Option<String>)
    ensures
        match r {
            Some(query) => url_encoded(pair_views(pairs@)) == Some(query@),
            None => url_encoded(pair_views(pairs@)) is None,
        },
{
    serde_urlencoded::to_string(pairs).ok()
}

/// The first match of the regular expression `pattern` in `text`, as the
/// `regex` crate finds it; nothing where there is none, or where the crate
/// does not take the pattern.
pub uninterp spec fn regex_first_match(pattern: Seq<char>, text: Seq<char>) -> Option<Seq<char>>;

/// `regex::Regex::new` and `regex::Regex::find`: the part of `text` that
/// the first match of `pattern` covers.
#[verifier::external_body]
pub(crate) fn first_match(pattern: &str, text: &str) -> (r: Option<String>)
    ensures
        match r {
            Some(found) => regex_first_match(pattern@, text@) == Some(found@),
            None => regex_first_match(pattern@, text@) is None,
        },
{
    match regex::Regex::new(pattern) {
        Ok(re) => re.find(text).map(|m| m.as_str().to_owned()),
        Err(_) => None,
    }
}

/// The longest text that is handed to the `url` crate.
pub const URL_LIMIT: usize = 0x10_0000;

/// The URL `location` with `path` as its path, as the `url` crate writes
/// it; nothing where the crate does not take `location` for a URL.
pub uninterp spec fn url_with_path(location: Seq<char>, path: Seq<char>) -> Option<Seq<char>>;

/// `url::Url::parse`, `url::Url::set_path` and the text of the result. The
/// crate holds the positions inside a URL in 32 bits, so the texts are kept
/// far below that.
#[verifier::external_body]
pub(crate) fn with_path(location: &str, path: &str) -> (r: Option<String>)
    requires
        location@.len() <= URL_LIMIT,
        path@.len() <= URL_LIMIT,
    ensures
        match r {
            Some(url) => url_with_path(location@, path@) == Some(url@),
            None => url_with_path(location@, path@) is None,
        },
{
    match url::Url::parse(location) {
        Ok(mut parsed) => {
            parsed.set_path(path);
            Some(parsed.to_string())
        },
        Err(_) => None,
    }
}

} // verus!

//! The parts of a URL that the navigation and clipboard rules read, and the
//! calls into the `url` crate that parse URLs and form-encoded queries.

use vstd::prelude::*;

verus! {

/// The parts of a parsed URL that the rules of this library look at.
pub struct WebUrl {
    /// The scheme, lower case, without the ':' ("https").
    pub scheme: String,
    /// The host as serialized by the parser, if the URL has one.
    pub host: Option<String>,
    /// The path ("/login").
    pub path: String,
    /// The query without the '?', if the URL has one.
    pub query: Option<String>,
}

/// Mathematical model of a [`WebUrl`].
pub struct WebUrlView {
    pub scheme: Seq<char>,
    pub host: Option<Seq<char>>,
    pub path: Seq<char>,
    pub query: Option<Seq<char>>,
}

/// The view of an optional string.
pub open spec fn opt_view(s: Option<String>) -> Option<Seq<char>> {
    match s {
        Some(v) => Some(v@),
        None => None,
    }
}

/// The view of a list of name/value pairs.
pub open spec fn pairs_view(pairs: Seq<(String, String)>) -> Seq<(Seq<char>, Seq<char>)> {
    pairs.map_values(|p: (String, String)| (p.0@, p.1@))
}

impl View for WebUrl {
    type V = WebUrlView;

    open spec fn view(&self) -> WebUrlView {
        WebUrlView {
            scheme: self.scheme@,
            host: opt_view(self.host),
            path: self.path@,
            query: opt_view(self.query),
        }
    }
}

/// A copy of an optional string.
pub fn copy_opt_string(s: &Option<String>) -> (res: Option<String>)
    ensures
        opt_view(res) == opt_view(*s),
{
    match s {
        Some(v) => Some(v.clone()),
        None => None,
    }
}

impl WebUrl {
    /// A copy of this URL.
    pub fn copy(&self) -> (res: WebUrl)
        ensures
            res@ == self@,
    {
        WebUrl {
            scheme: self.scheme.clone(),
            host: copy_opt_string(&self.host),
            path: self.path.clone(),
            query: copy_opt_string(&self.query),
        }
    }

    /// This URL with its query replaced.
    pub fn with_query(&self, query: Option<String>) -> (res: WebUrl)
        ensures
            res@ == (WebUrlView { query: opt_view(query), ..self@ }),
    {
        WebUrl {
            scheme: self.scheme.clone(),
            host: copy_opt_string(&self.host),
            path: self.path.clone(),
            query,
        }
    }
}

/// What `url::Url::parse` makes of `input`: its serialization and its parts,
/// or `None` when the parser rejects it.
pub uninterp spec fn parsed_url(input: Seq<char>) -> Option<(Seq<char>, WebUrlView)>;

/// Calls `url::Url::parse`. The contract names the outcome `parsed_url(input)`:
/// the serialization (`Url::as_str`) and the scheme, host, path and query that
/// the parsed URL reports. What the parser accepts and how it normalizes is not
/// stated here.
#[verifier::external_body]
pub(crate) fn parse_url(input: &str) -> (res: Option<(String, WebUrl)>)
    ensures
        match res {
            Some((href, url)) => parsed_url(input@) == Some((href@, url@)),
            None => parsed_url(input@) is None,
        },
{
    match url::Url::parse(input) {
        Ok(u) => Some((
            u.as_str().to_string(),
            WebUrl {
                scheme: u.scheme().to_string(),
                host: u.host_str().map(str::to_string),
                path: u.path().to_string(),
                query: u.query().map(str::to_string),
            },
        )),
        Err(_) => None,
    }
}

/// The name/value pairs that `form_urlencoded::parse` reads from `query`.
pub uninterp spec fn form_pairs(query: Seq<char>) -> Seq<(Seq<char>, Seq<char>)>;

/// Calls `url::form_urlencoded::parse` on the bytes of `query` (what
/// `Url::query_pairs` does with a URL's query). The contract names the list
/// `form_pairs(query)`; the splitting on '&' and '=' and the decoding of '+'
/// and percent escapes are not stated.
#[verifier::external_body]
pub(crate) fn query_pairs(query: &str) -> (res: Vec<(String, String)>)
    ensures
        pairs_view(res@) == form_pairs(query@),
{
    url::form_urlencoded::parse(query.as_bytes()).into_owned().collect()
}

/// The query text that `form_urlencoded::Serializer` writes for `pairs`.
pub uninterp spec fn form_serialized(pairs: Seq<(Seq<char>, Seq<char>)>) -> Seq<char>;

/// Calls `url::form_urlencoded::Serializer` to write `pairs` as a query. The
/// contract names the text `form_serialized(pairs)`; the escaping is not
/// stated.
#[verifier::external_body]
pub(crate) fn serialize_query(pairs: &Vec<(String, String)>) -> (res: String)
    ensures
        res@ == form_serialized(pairs_view(pairs@)),
{
    url::form_urlencoded::Serializer::new(String::new()).extend_pairs(pairs.iter()).finish()
}

} // verus!

use vstd::prelude::*;

verus! {

/// The parts of a parsed URI, as text.
#[derive(Debug, Clone, PartialEq, Eq)]
pub struct UriParts {
    pub scheme: Option<String>,
    pub authority: Option<String>,
    pub path_and_query: Option<String>,
}

/// The view of [`UriParts`]: each part as a sequence of characters.
pub struct UriView {
    pub scheme: Option<Seq<char>>,
    pub authority: Option<Seq<char>>,
    pub path_and_query: Option<Seq<char>>,
}

pub open spec fn opt_text(o: Option<String>) -> Option<Seq<char>> {
    match o {
        Some(s) => Some(s@),
        None => None,
    }
}

impl View for UriParts {
    type V = UriView;

    open spec fn view(&self) -> UriView {
        UriView {
            scheme: opt_text(self.scheme),
            authority: opt_text(self.authority),
            path_and_query: opt_text(self.path_and_query),
        }
    }
}

/// What `http::Uri`'s parser makes of a string: `None` where it refuses it,
/// else the scheme, authority and path-and-query it found.
pub uninterp spec fn uri_parse(s: Seq<char>) -> Option<(Option<Seq<char>>, Option<Seq<char>>, Option<Seq<char>>)>;

pub open spec fn parts_view(o: Option<UriParts>) -> Option<(Option<Seq<char>>, Option<Seq<char>>, Option<Seq<char>>)> {
    match o {
        Some(p) => Some((p@.scheme, p@.authority, p@.path_and_query)),
        None => None,
    }
}

/// Relies on `http::Uri`'s `FromStr`: parses `s` and hands its parts back as text.
#[verifier::external_body]
fn parse_uri(s: &str) -> (r: Option<UriParts>)
    ensures
        parts_view(r) == uri_parse(s@),
{
    match s.parse::<http::Uri>() {
        Ok(u) => Some(UriParts {
            scheme: u.scheme_str().map(String::from),
            authority: u.authority().map(|a| a.as_str().to_string()),
            path_and_query: u.path_and_query().map(|p| p.as_str().to_string()),
        }),
        Err(_) => None,
    }
}

/// The absolute URI among parsed parts: those parts, where there are parts
/// and they have both a scheme and an authority.
pub open spec fn absolute_of(p: Option<(Option<Seq<char>>, Option<Seq<char>>, Option<Seq<char>>)>) -> Option<UriView> {
    match p {
        Some((scheme, authority, path_and_query)) =>
            if scheme is Some && authority is Some {
                Some(UriView { scheme, authority, path_and_query })
            } else {
                None
            },
        None => None,
    }
}

/// The absolute URI that `s` denotes: the parse of `s`, where it has both a
/// scheme and an authority.
pub open spec fn absolute_uri(s: Seq<char>) -> Option<UriView> {
    absolute_of(uri_parse(s))
}

/// Keeps parsed parts only where they make an absolute URI.
pub fn absolute_parts(p: Option<UriParts>) -> (r: Option<UriParts>)
    ensures
        match r {
            Some(q) => absolute_of(parts_view(p)) == Some(q@),
            None => absolute_of(parts_view(p)) is None,
        },
{
    match p {
        Some(q) => {
            if q.scheme.is_some() && q.authority.is_some() {
                Some(q)
            } else {
                None
            }
        },
        None => None,
    }
}

/// Parses `s` as an absolute URI: `Some` exactly where `s` is one, holding its parts.
pub fn parse_absolute_uri(s: &str) -> (r: Option<UriParts>)
    ensures
        match r {
            Some(p) => absolute_uri(s@) == Some(p@),
            None => absolute_uri(s@) is None,
        },
{
    absolute_parts(parse_uri(s))
}

} // verus!

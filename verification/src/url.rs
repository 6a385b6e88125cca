use crate::pattern::{captures, group, group_at, regex_captures, URL_PATTERN};
use vstd::prelude::*;
use vstd::string::*;

verus! {

/// Whether the port group of a URL match holds a port literal.
pub open spec fn port_present(port: Option<Seq<char>>) -> bool {
    port matches Some(p) && p.len() > 0
}

/// The components that a URL match yields: scheme, host, the port literal
/// if there is one, and the path up to the query separator. `None` where
/// there was no match or one of scheme, host and path took no part in it.
pub open spec fn components_of_captures(caps: Option<Seq<Option<Seq<char>>>>) -> Option<
    Seq<Seq<char>>,
> {
    match (group(caps, 1), group(caps, 2), group(caps, 4)) {
        (Some(scheme), Some(host), Some(path)) => if port_present(group(caps, 3)) {
            Some(seq![scheme, host, group(caps, 3)->0, path])
        } else {
            Some(seq![scheme, host, path])
        },
        _ => None,
    }
}

/// The components of `url`.
pub open spec fn url_components(url: Seq<char>) -> Option<Seq<Seq<char>>> {
    components_of_captures(regex_captures(URL_PATTERN@, url))
}

/// `scheme://host` of `url`, if it splits into components.
pub open spec fn url_origin(url: Seq<char>) -> Option<Seq<char>> {
    match url_components(url) {
        Some(parts) => Some(parts[0] + "://"@ + parts[1]),
        None => None,
    }
}

/// Orders the groups of a URL match into components.
///
/// A match with a port literal gives exactly four components, one without
/// gives exactly three.
pub fn components_from_captures(caps: &Option<Vec<Option<String>>>) -> (parts: Option<
    Vec<String>,
>)
    ensures
        parts.deep_view() == components_of_captures(caps.deep_view()),
        parts matches Some(p) ==> p@.len() == (if port_present(group(caps.deep_view(), 3)) {
            4int
        } else {
            3int
        }),
{
    let scheme = group_at(caps, 1);
    let host = group_at(caps, 2);
    let port = group_at(caps, 3);
    let path = group_at(caps, 4);
    match (scheme, host, path) {
        (Some(scheme), Some(host), Some(path)) => {
            let mut parts: Vec<String> = Vec::new();
            parts.push(scheme);
            parts.push(host);
            match port {
                Some(p) => {
                    if p.as_str().unicode_len() > 0 {
                        parts.push(p);
                    }
                },
                None => {},
            }
            parts.push(path);
            assert(parts.deep_view() =~= components_of_captures(caps.deep_view())->0);
            Some(parts)
        },
        _ => None,
    }
}

/// Splits an absolute URL into scheme, host, port literal (if present) and
/// path. `None` where the URL has not the expected shape, for instance
/// where it carries no `?`.
///
/// A URL with a port literal gives exactly four components, one without
/// gives exactly three.
pub fn parse_redirect_url(url: &str) -> (parts: Option<Vec<String>>)
    ensures
        parts.deep_view() == url_components(url@),
        parts matches Some(p) ==> p@.len() == (if port_present(
            group(regex_captures(URL_PATTERN@, url@), 3),
        ) {
            4int
        } else {
            3int
        }),
{
    let caps = captures(URL_PATTERN, url);
    components_from_captures(&caps)
}

/// Joins scheme and host of a component list into an origin.
pub fn origin_from_components(parts: &Vec<String>) -> (origin: String)
    requires
        parts@.len() >= 2,
    ensures
        origin@ == parts@[0]@ + "://"@ + parts@[1]@,
{
    let mut origin = parts[0].clone();
    origin.append("://");
    origin.append(parts[1].as_str());
    origin
}

/// The origin `scheme://host` of an absolute URL.
pub fn origin_of(url: &str) -> (origin: Option<String>)
    ensures
        origin.deep_view() == url_origin(url@),
{
    match parse_redirect_url(url) {
        Some(parts) => {
            Some(origin_from_components(&parts))
        },
        None => None,
    }
}

/// A URL with a port literal splits into exactly four components, one
/// without into exactly three.
pub proof fn lemma_component_count(url: Seq<char>)
    requires
        url_components(url) is Some,
    ensures
        port_present(group(regex_captures(URL_PATTERN@, url), 3)) ==> url_components(url)->0.len()
            == 4,
        !port_present(group(regex_captures(URL_PATTERN@, url), 3)) ==> url_components(url)->0.len()
            == 3,
{
}

} // verus!

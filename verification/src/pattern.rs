use regex::Regex;
use vstd::prelude::*;

verus! {

/// Client-side redirect instruction embedded in script content: a call of
/// `window.location.assign` with one quoted argument, which is the group.
pub const REDIRECT_PATTERN: &'static str = r#"window\.location\.assign\("([^"]*)"\)"#;

/// Hidden context token, authentication method, password placeholder and
/// form action of the login continuation page, in that order of groups.
/// The quoted values end at their closing quote.
pub const LOGIN_PATTERN: &'static str =
    r#"Context"\svalue="([^"\s]+)"[\s\S]*AuthMethod"\svalue="([^"\s]+)"[\s\S]*pass\.value\s=\s(\S+)";[\s\S]*action="([^"\s]+)""#;

/// Form action, SAML response token and relay state of the assertion page.
/// The action ends at its closing quote.
pub const SAML_RESPONSE_PATTERN: &'static str =
    r#"action="([^"]*)">.*name="SAMLResponse" value="([a-zA-Z0-9+=\-_]*)".*name="RelayState" value="([a-zA-Z0-9\-]*)""#;

/// The action attribute of a form, up to its closing quote.
pub const ACTION_PATTERN: &'static str = r#"action="([^"]*)""#;

/// Scheme, host, port and path of a URL that carries a query: the scheme
/// ends at `://`, the path at the first `?`.
pub const URL_PATTERN: &'static str = r#"(\w*)://([\w\-\.]*):?(\d*)?(/[^\s?]*)\?"#;

/// The capture groups of the leftmost match of `pattern` in `haystack`, as
/// the `regex` crate finds them: `None` where the pattern does not compile
/// or does not match; otherwise one entry per group of the pattern, entry 0
/// being the whole match, and `None` for a group that took no part in it.
pub uninterp spec fn regex_captures(pattern: Seq<char>, haystack: Seq<char>) -> Option<
    Seq<Option<Seq<char>>>,
>;

/// The text of group `i`, if there was a match and the group took part in it.
pub open spec fn group(caps: Option<Seq<Option<Seq<char>>>>, i: int) -> Option<Seq<char>> {
    match caps {
        Some(groups) => if 0 <= i < groups.len() {
            groups[i]
        } else {
            None
        },
        None => None,
    }
}

/// Compiles `pattern` with `regex::Regex::new` and searches `haystack` with
/// `Regex::captures`, copying each group's text out of the match.
///
/// Trusted: the result is the crate's answer for this pattern and haystack,
/// which depends on nothing else. Nothing is claimed about what matches.
#[verifier::external_body]
pub(crate) fn captures(pattern: &str, haystack: &str) -> (found: Option<Vec<Option<String>>>)
    ensures
        found.deep_view() == regex_captures(pattern@, haystack@),
{
    match Regex::new(pattern) {
        Ok(re) => re.captures(haystack).map(
            |caps| caps.iter().map(|g| g.map(|m| m.as_str().to_string())).collect(),
        ),
        Err(_) => None,
    }
}

/// Copies the text of group `i` out of a capture result.
pub fn group_at(caps: &Option<Vec<Option<String>>>, i: usize) -> (text: Option<String>)
    ensures
        text.deep_view() == group(caps.deep_view(), i as int),
{
    match caps {
        Some(groups) => {
            if i < groups.len() {
                match &groups[i] {
                    Some(s) => Some(s.clone()),
                    None => None,
                }
            } else {
                None
            }
        },
        None => None,
    }
}

} // verus!

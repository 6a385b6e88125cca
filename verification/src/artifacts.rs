use crate::error::AuthError;
use crate::pattern::{
    captures, group, group_at, regex_captures, ACTION_PATTERN, LOGIN_PATTERN, REDIRECT_PATTERN,
    SAML_RESPONSE_PATTERN,
};
use vstd::prelude::*;
use vstd::string::*;

verus! {

/// The relying party's submission URL with the assertion and the relay
/// state that the identity provider issued.
#[derive(Clone, Debug, PartialEq, Eq)]
pub struct SAMLResponse {
    pub url: String,
    pub saml_response: String,
    pub relay_state: String,
}

/// What a [`SAMLResponse`] holds, as sequences of characters.
pub struct SamlResponseView {
    pub url: Seq<char>,
    pub saml_response: Seq<char>,
    pub relay_state: Seq<char>,
}

impl View for SAMLResponse {
    type V = SamlResponseView;

    open spec fn view(&self) -> SamlResponseView {
        SamlResponseView {
            url: self.url@,
            saml_response: self.saml_response@,
            relay_state: self.relay_state@,
        }
    }
}

/// The identity provider's login continuation state.
#[derive(Clone, Debug, PartialEq, Eq)]
pub struct SAMLRequest {
    pub url: String,
    pub context: String,
    pub vippassword: String,
    pub auth_method: String,
    pub security_code: String,
}

/// What a [`SAMLRequest`] holds, as sequences of characters.
pub struct SamlRequestView {
    pub url: Seq<char>,
    pub context: Seq<char>,
    pub vippassword: Seq<char>,
    pub auth_method: Seq<char>,
    pub security_code: Seq<char>,
}

impl View for SAMLRequest {
    type V = SamlRequestView;

    open spec fn view(&self) -> SamlRequestView {
        SamlRequestView {
            url: self.url@,
            context: self.context@,
            vippassword: self.vippassword@,
            auth_method: self.auth_method@,
            security_code: self.security_code@,
        }
    }
}

/// A page together with the origin it was fetched from.
#[derive(Clone, Debug, PartialEq, Eq)]
pub struct RedirectResponse {
    html: String,
    host: String,
}

/// What a [`RedirectResponse`] holds, as sequences of characters.
pub struct RedirectView {
    pub html: Seq<char>,
    pub host: Seq<char>,
}

impl View for RedirectResponse {
    type V = RedirectView;

    closed spec fn view(&self) -> RedirectView {
        RedirectView { html: self.html@, host: self.host@ }
    }
}

/// The view of a successful result, the error of a failed one.
pub open spec fn result_view<T: View>(r: Result<T, AuthError>) -> Result<T::V, AuthError> {
    match r {
        Ok(value) => Ok(value@),
        Err(e) => Err(e),
    }
}

/// The redirect target that a match of the redirect pattern carries.
pub open spec fn redirect_of_captures(caps: Option<Seq<Option<Seq<char>>>>) -> Result<
    Seq<char>,
    AuthError,
> {
    match group(caps, 1) {
        Some(url) => Ok(url),
        None => Err(AuthError::NoRedirectFound),
    }
}

/// The redirect target in `html`.
pub open spec fn redirect_target(html: Seq<char>) -> Result<Seq<char>, AuthError> {
    redirect_of_captures(regex_captures(REDIRECT_PATTERN@, html))
}

/// The form action that a match of the action pattern carries.
pub open spec fn form_action_of_captures(caps: Option<Seq<Option<Seq<char>>>>) -> Result<
    Seq<char>,
    AuthError,
> {
    match group(caps, 1) {
        Some(action) => Ok(action),
        None => Err(AuthError::NoFormAction),
    }
}

/// The form action in `html`.
pub open spec fn form_action(html: Seq<char>) -> Result<Seq<char>, AuthError> {
    form_action_of_captures(regex_captures(ACTION_PATTERN@, html))
}

/// The absolute URL of the form in `html`, fetched from `host`.
pub open spec fn absolute_form_url(host: Seq<char>, html: Seq<char>) -> Result<
    Seq<char>,
    AuthError,
> {
    match form_action(html) {
        Ok(action) => Ok(host + action),
        Err(e) => Err(e),
    }
}

/// The login continuation that a match of the login pattern carries. The
/// security code starts out empty.
pub open spec fn login_context_of_captures(caps: Option<Seq<Option<Seq<char>>>>) -> Result<
    SamlRequestView,
    AuthError,
> {
    match (group(caps, 1), group(caps, 2), group(caps, 3), group(caps, 4)) {
        (Some(context), Some(auth_method), Some(vippassword), Some(url)) => Ok(
            SamlRequestView { url, context, vippassword, auth_method, security_code: Seq::empty() },
        ),
        _ => Err(AuthError::MalformedLoginPage),
    }
}

/// The login continuation in `html`.
pub open spec fn login_context(html: Seq<char>) -> Result<SamlRequestView, AuthError> {
    login_context_of_captures(regex_captures(LOGIN_PATTERN@, html))
}

/// The assertion hand-off that a match of the assertion pattern carries.
pub open spec fn saml_handoff_of_captures(caps: Option<Seq<Option<Seq<char>>>>) -> Result<
    SamlResponseView,
    AuthError,
> {
    match (group(caps, 1), group(caps, 2), group(caps, 3)) {
        (Some(url), Some(saml_response), Some(relay_state)) => Ok(
            SamlResponseView { url, saml_response, relay_state },
        ),
        _ => Err(AuthError::MalformedAssertionPage),
    }
}

/// The assertion hand-off in `html`.
pub open spec fn saml_handoff(html: Seq<char>) -> Result<SamlResponseView, AuthError> {
    saml_handoff_of_captures(regex_captures(SAML_RESPONSE_PATTERN@, html))
}

/// Reads the redirect target out of a match of the redirect pattern.
pub fn redirect_from_captures(caps: &Option<Vec<Option<String>>>) -> (target: Result<
    String,
    AuthError,
>)
    ensures
        result_view(target) == redirect_of_captures(caps.deep_view()),
{
    match group_at(caps, 1) {
        Some(url) => Ok(url),
        None => Err(AuthError::NoRedirectFound),
    }
}

/// Finds the client-side redirect to the login page: the quoted argument
/// of the first `window.location.assign` call that the redirect pattern
/// finds. A page in which it finds none gives `NoRedirectFound`, never a
/// URL.
pub fn parse_redirect_url_to_login(html: &str) -> (target: Result<String, AuthError>)
    ensures
        result_view(target) == redirect_target(html@),
        regex_captures(REDIRECT_PATTERN@, html@) is None ==> target == Err::<String, AuthError>(
            AuthError::NoRedirectFound,
        ),
{
    let caps = captures(REDIRECT_PATTERN, html);
    redirect_from_captures(&caps)
}

/// Reads the form action out of a match of the action pattern.
pub fn form_action_from_captures(caps: &Option<Vec<Option<String>>>) -> (action: Result<
    String,
    AuthError,
>)
    ensures
        result_view(action) == form_action_of_captures(caps.deep_view()),
{
    match group_at(caps, 1) {
        Some(action) => Ok(action),
        None => Err(AuthError::NoFormAction),
    }
}

/// Finds the action attribute of a form in `html`.
pub fn parse_form_action_endpoint(html: &str) -> (action: Result<String, AuthError>)
    ensures
        result_view(action) == form_action(html@),
{
    let caps = captures(ACTION_PATTERN, html);
    form_action_from_captures(&caps)
}

impl SAMLResponse {
    /// Reads the hand-off out of a match of the assertion pattern.
    pub fn from_captures(caps: &Option<Vec<Option<String>>>) -> (handoff: Result<
        SAMLResponse,
        AuthError,
    >)
        ensures
            result_view(handoff) == saml_handoff_of_captures(caps.deep_view()),
    {
        match (group_at(caps, 1), group_at(caps, 2), group_at(caps, 3)) {
            (Some(url), Some(saml_response), Some(relay_state)) => Ok(
                SAMLResponse { url, saml_response, relay_state },
            ),
            _ => Err(AuthError::MalformedAssertionPage),
        }
    }

    /// Finds the assertion form in the identity provider's answer to the
    /// login continuation.
    pub fn from_html(html: &str) -> (handoff: Result<SAMLResponse, AuthError>)
        ensures
            result_view(handoff) == saml_handoff(html@),
    {
        let caps = captures(SAML_RESPONSE_PATTERN, html);
        SAMLResponse::from_captures(&caps)
    }
}

impl SAMLRequest {
    /// Reads the login continuation out of a match of the login pattern.
    pub fn from_captures(caps: &Option<Vec<Option<String>>>) -> (context: Result<
        SAMLRequest,
        AuthError,
    >)
        ensures
            result_view(context) == login_context_of_captures(caps.deep_view()),
    {
        match (group_at(caps, 1), group_at(caps, 2), group_at(caps, 3), group_at(caps, 4)) {
            (Some(context), Some(auth_method), Some(vippassword), Some(url)) => Ok(
                SAMLRequest { url, context, vippassword, auth_method, security_code: String::new() },
            ),
            _ => Err(AuthError::MalformedLoginPage),
        }
    }

    /// Finds the login continuation in the identity provider's answer to
    /// the credentials.
    pub fn from_html(html: &str) -> (context: Result<SAMLRequest, AuthError>)
        ensures
            result_view(context) == login_context(html@),
    {
        let caps = captures(LOGIN_PATTERN, html);
        SAMLRequest::from_captures(&caps)
    }

    /// The security code, to be written once the ticket has arrived. The
    /// other fields stay as they are.
    pub fn security_code_mut(&mut self) -> (code: &mut String)
        ensures
            *code == old(self).security_code,
            final(self).security_code == *final(code),
            final(self).url == old(self).url,
            final(self).context == old(self).context,
            final(self).vippassword == old(self).vippassword,
            final(self).auth_method == old(self).auth_method,
    {
        &mut self.security_code
    }
}

impl RedirectResponse {
    /// Pairs a page with the origin it was fetched from.
    pub fn new(html: &str, host: &str) -> (page: RedirectResponse)
        ensures
            page@ == (RedirectView { html: html@, host: host@ }),
    {
        RedirectResponse { html: String::from_str(html), host: String::from_str(host) }
    }

    /// The page.
    pub fn html(&self) -> (html: &String)
        ensures
            html@ == self@.html,
    {
        &self.html
    }

    /// The origin, `scheme://host`.
    pub fn host(&self) -> (host: &String)
        ensures
            host@ == self@.host,
    {
        &self.host
    }

    /// The absolute URL of the page's form: the origin followed by the
    /// form's action.
    pub fn form_action_url(&self) -> (url: Result<String, AuthError>)
        ensures
            result_view(url) == absolute_form_url(self@.host, self@.html),
    {
        match parse_form_action_endpoint(self.html.as_str()) {
            Ok(action) => {
                let mut url = self.host.clone();
                url.append(action.as_str());
                Ok(url)
            },
            Err(e) => Err(e),
        }
    }
}

/// Where the redirect pattern does not match, there is no redirect target:
/// the answer is `NoRedirectFound`, and a URL is given only for a match.
pub proof fn lemma_no_redirect_without_match(html: Seq<char>)
    ensures
        regex_captures(REDIRECT_PATTERN@, html) is None ==> redirect_target(html) == Err::<
            Seq<char>,
            AuthError,
        >(AuthError::NoRedirectFound),
        redirect_target(html) is Ok ==> regex_captures(REDIRECT_PATTERN@, html) is Some,
        redirect_target(html) matches Err(e) ==> e == AuthError::NoRedirectFound,
{
}

} // verus!

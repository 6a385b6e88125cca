use crate::artifacts::{SAMLRequest, SAMLResponse, SamlRequestView, SamlResponseView};
use vstd::prelude::*;
use vstd::string::*;

verus! {

/// The client signature sent with every POST.
pub const USER_AGENT: &'static str =
    "Mozilla/5.0 (Windows NT 6.1; rv:52.0) Gecko/20100101 Firefox/52.0";

/// The fields of the credentials form.
pub open spec fn login_fields(username: Seq<char>, password: Seq<char>) -> Seq<
    (Seq<char>, Seq<char>),
> {
    seq![
        ("UserName"@, username),
        ("Password"@, password),
        ("AuthMethod"@, "FormsAuthentication"@),
    ]
}

/// The five fields of the login continuation form.
pub open spec fn saml_request_fields(username: Seq<char>, ctx: SamlRequestView) -> Seq<
    (Seq<char>, Seq<char>),
> {
    seq![
        ("username"@, username),
        ("vippassword"@, ctx.vippassword),
        ("security_code"@, ctx.security_code),
        ("Context"@, ctx.context),
        ("AuthMethod"@, ctx.auth_method),
    ]
}

/// The two fields of the assertion form.
pub open spec fn saml_response_fields(saml: SamlResponseView) -> Seq<(Seq<char>, Seq<char>)> {
    seq![("SAMLResponse"@, saml.saml_response), ("RelayState"@, saml.relay_state)]
}

/// The form that submits the credentials.
pub fn login_form(username: &str, password: &str) -> (form: Vec<(String, String)>)
    ensures
        form.deep_view() == login_fields(username@, password@),
{
    let mut form: Vec<(String, String)> = Vec::new();
    form.push((String::from_str("UserName"), String::from_str(username)));
    form.push((String::from_str("Password"), String::from_str(password)));
    form.push((String::from_str("AuthMethod"), String::from_str("FormsAuthentication")));
    assert(form.deep_view() =~= login_fields(username@, password@));
    form
}

/// The form that continues the login with the security code: exactly the
/// five named fields, in this order.
pub fn saml_request_form(username: &str, ctx: &SAMLRequest) -> (form: Vec<(String, String)>)
    ensures
        form.deep_view() == saml_request_fields(username@, ctx@),
        form@.len() == 5,
{
    let mut form: Vec<(String, String)> = Vec::new();
    form.push((String::from_str("username"), String::from_str(username)));
    form.push((String::from_str("vippassword"), ctx.vippassword.clone()));
    form.push((String::from_str("security_code"), ctx.security_code.clone()));
    form.push((String::from_str("Context"), ctx.context.clone()));
    form.push((String::from_str("AuthMethod"), ctx.auth_method.clone()));
    assert(form.deep_view() =~= saml_request_fields(username@, ctx@));
    form
}

/// The form that hands the assertion to the relying party.
pub fn saml_response_form(saml: &SAMLResponse) -> (form: Vec<(String, String)>)
    ensures
        form.deep_view() == saml_response_fields(saml@),
{
    let mut form: Vec<(String, String)> = Vec::new();
    form.push((String::from_str("SAMLResponse"), saml.saml_response.clone()));
    form.push((String::from_str("RelayState"), saml.relay_state.clone()));
    assert(form.deep_view() =~= saml_response_fields(saml@));
    form
}

/// A login continuation whose security code has been set gives a form of
/// exactly five fields: `username`, `vippassword`, `security_code`,
/// `Context` and `AuthMethod`, each with the value it stands for.
pub proof fn lemma_saml_request_fields(username: Seq<char>, ctx: SamlRequestView, code: Seq<char>)
    ensures
        ({
            let form = saml_request_fields(
                username,
                SamlRequestView { security_code: code, ..ctx },
            );
            &&& form.len() == 5
            &&& form[0] == ("username"@, username)
            &&& form[1] == ("vippassword"@, ctx.vippassword)
            &&& form[2] == ("security_code"@, code)
            &&& form[3] == ("Context"@, ctx.context)
            &&& form[4] == ("AuthMethod"@, ctx.auth_method)
        }),
{
}

} // verus!

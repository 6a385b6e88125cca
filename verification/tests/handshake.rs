use adfs_login::artifacts::SAMLRequest;
use adfs_login::error::AuthError;
use adfs_login::handshake::{Action, Event, Handshake, Phase};

const TARGET: &str = "https://svc.example.com/app";
const USER: &str = "alice@example.com";
const PASSWORD: &str = "hunter2";
const LOGIN_URL: &str = "https://idp.example.com/adfs/ls?SAMLRequest=abc&RelayState=def";

fn probe_body() -> String {
    format!("<html><script>window.location.assign(\"{}\")</script></html>", LOGIN_URL)
}

fn login_form_page() -> String {
    "<form method=\"post\" id=\"loginForm\" action=\"/adfs/ls/?client-request-id=77\">".to_string()
}

fn login_context_page() -> String {
    [
        "<input id=\"context\" type=\"hidden\" name=\"Context\" value=\"CTX0123\"/>",
        "<input id=\"authMethod\" type=\"hidden\" name=\"AuthMethod\" value=\"VIPAuthenticationProviderUPN\"/>",
        "<script>pass.value = PLACEHOLDER\";</script>",
        "<form method=\"post\" id=\"loginForm\" action=\"https://idp.example.com:443/adfs/ls?client-request-id=77\">",
    ]
    .join("\n")
}

fn assertion_page() -> String {
    "<form method=\"POST\" action=\"https://svc.example.com/saml/acs\"><input type=\"hidden\" name=\"SAMLResponse\" value=\"PHNhbWw=\" /><input type=\"hidden\" name=\"RelayState\" value=\"e8bf-4188\" /></form>".to_string()
}

fn fetched(final_url: &str, body: String) -> Event {
    Event::Fetched { final_url: final_url.to_string(), body }
}

fn posted(body: String) -> Event {
    Event::Posted { body }
}

fn at_credentials() -> Handshake {
    let (h, _) = Handshake::begin(TARGET, USER, PASSWORD);
    let (h, _) = h.advance(fetched("https://svc.example.com/login", probe_body()));
    let (h, _) = h.advance(fetched(LOGIN_URL, login_form_page()));
    h
}

#[test]
fn begin_probes_the_target() {
    let (h, action) = Handshake::begin(TARGET, USER, PASSWORD);
    assert_eq!(action, Action::Get { url: TARGET.to_string() });
    assert_eq!(h.phase(), &Phase::Probing);
    assert!(!h.is_finished());
}

#[test]
fn probe_that_ends_at_the_target_succeeds_at_once() {
    let (h, _) = Handshake::begin(TARGET, USER, PASSWORD);
    let (h, action) = h.advance(fetched(TARGET, probe_body()));
    assert_eq!(action, Action::Succeed);
    assert!(h.is_finished());
}

#[test]
fn probe_with_redirect_opens_the_login_page() {
    let (h, _) = Handshake::begin(TARGET, USER, PASSWORD);
    let body = "<script>window.location.assign(\"https://idp.example.com/adfs/ls?...\")</script>";
    let (h, action) = h.advance(fetched("https://svc.example.com/login", body.to_string()));
    assert_eq!(action, Action::Get { url: "https://idp.example.com/adfs/ls?...".to_string() });
    assert_eq!(
        h.phase(),
        &Phase::OpeningLoginPage { url: "https://idp.example.com/adfs/ls?...".to_string() }
    );
}

#[test]
fn probe_without_redirect_fails() {
    let (h, _) = Handshake::begin(TARGET, USER, PASSWORD);
    let (h, action) = h.advance(fetched("https://svc.example.com/other", "<p>hello</p>".to_string()));
    assert_eq!(action, Action::Fail(AuthError::NoRedirectFound));
    assert!(h.is_finished());
}

#[test]
fn login_page_leads_to_the_credentials_post() {
    let (h, _) = Handshake::begin(TARGET, USER, PASSWORD);
    let (h, _) = h.advance(fetched("https://svc.example.com/login", probe_body()));
    let (h, action) = h.advance(fetched(LOGIN_URL, login_form_page()));
    assert_eq!(
        action,
        Action::Post {
            url: "https://idp.example.com/adfs/ls/?client-request-id=77".to_string(),
            form: vec![
                ("UserName".to_string(), USER.to_string()),
                ("Password".to_string(), PASSWORD.to_string()),
                ("AuthMethod".to_string(), "FormsAuthentication".to_string()),
            ],
        }
    );
    assert_eq!(h.phase(), &Phase::SubmittingCredentials);
}

#[test]
fn login_url_without_query_is_a_parse_failure() {
    let (h, _) = Handshake::begin(TARGET, USER, PASSWORD);
    let body = "<script>window.location.assign(\"https://idp.example.com/adfs/ls\")</script>";
    let (h, action) = h.advance(fetched("https://svc.example.com/login", body.to_string()));
    assert_eq!(action, Action::Get { url: "https://idp.example.com/adfs/ls".to_string() });
    let (h, action) = h.advance(fetched("https://idp.example.com/adfs/ls", login_form_page()));
    assert_eq!(action, Action::Fail(AuthError::ParseFailure));
    assert!(h.is_finished());
}

#[test]
fn login_page_without_form_fails() {
    let (h, _) = Handshake::begin(TARGET, USER, PASSWORD);
    let (h, _) = h.advance(fetched("https://svc.example.com/login", probe_body()));
    let (h, action) = h.advance(fetched(LOGIN_URL, "<p>maintenance</p>".to_string()));
    assert_eq!(action, Action::Fail(AuthError::NoFormAction));
    assert!(h.is_finished());
}

#[test]
fn accepted_credentials_ask_for_a_ticket() {
    let (h, action) = at_credentials().advance(posted(login_context_page()));
    match action {
        Action::FetchTicket { user, request_id, origin } => {
            assert_eq!(user, "alice%40example.com");
            assert_eq!(origin, "https://idp.example.com");
            assert_eq!(request_id.len(), 30);
            assert!(request_id.chars().all(|c| c.is_ascii_alphanumeric()));
        }
        other => panic!("unexpected action {:?}", other),
    }
    match h.phase() {
        Phase::FetchingTicket { context } => {
            assert_eq!(context.context, "CTX0123");
            assert_eq!(context.security_code, "");
            assert_eq!(context.url, "https://idp.example.com:443/adfs/ls?client-request-id=77");
        }
        other => panic!("unexpected phase {:?}", other),
    }
}

#[test]
fn supplied_request_id_goes_into_the_ticket_request() {
    let id = "abcdefghijABCDEFGHIJ0123456789".to_string();
    let (_, action) = at_credentials().advance_with(posted(login_context_page()), id.clone());
    assert_eq!(
        action,
        Action::FetchTicket {
            user: "alice%40example.com".to_string(),
            request_id: id,
            origin: "https://idp.example.com".to_string(),
        }
    );
}

#[test]
fn two_runs_use_different_request_ids() {
    let (_, first) = at_credentials().advance(posted(login_context_page()));
    let (_, second) = at_credentials().advance(posted(login_context_page()));
    match (first, second) {
        (
            Action::FetchTicket { request_id: a, .. },
            Action::FetchTicket { request_id: b, .. },
        ) => assert_ne!(a, b),
        other => panic!("unexpected actions {:?}", other),
    }
}

#[test]
fn malformed_login_page_fails_without_asking_for_a_ticket() {
    let (h, action) = at_credentials().advance(posted("<p>Incorrect password</p>".to_string()));
    assert_eq!(action, Action::Fail(AuthError::MalformedLoginPage));
    assert!(h.is_finished());
    let (h, action) = h.advance(Event::Ticket { ticket: "1".to_string() });
    assert_eq!(action, Action::Fail(AuthError::OutOfSequence));
    assert!(h.is_finished());
}

#[test]
fn ticket_failure_is_reported() {
    let (h, _) = at_credentials().advance(posted(login_context_page()));
    let (h, action) = h.advance(Event::TicketFailed);
    assert_eq!(action, Action::Fail(AuthError::TicketError));
    assert!(h.is_finished());
}

#[test]
fn transport_failure_stops_every_waiting_phase() {
    let (h, _) = Handshake::begin(TARGET, USER, PASSWORD);
    let (h, action) = h.advance(Event::TransportFailed);
    assert_eq!(action, Action::Fail(AuthError::TransportError));
    assert!(h.is_finished());
    let (h, action) = at_credentials().advance(Event::TransportFailed);
    assert_eq!(action, Action::Fail(AuthError::TransportError));
    assert!(h.is_finished());
}

#[test]
fn event_out_of_sequence_fails() {
    let (h, _) = Handshake::begin(TARGET, USER, PASSWORD);
    let (h, action) = h.advance(posted("x".to_string()));
    assert_eq!(action, Action::Fail(AuthError::OutOfSequence));
    assert!(h.is_finished());
    let (_, action) = at_credentials().advance(Event::TicketFailed);
    assert_eq!(action, Action::Fail(AuthError::OutOfSequence));
}

#[test]
fn whole_handshake_runs_in_order() {
    let (h, _) = at_credentials().advance(posted(login_context_page()));
    let (h, action) = h.advance(Event::Ticket { ticket: "424242".to_string() });
    assert_eq!(
        action,
        Action::Post {
            url: "https://idp.example.com:443/adfs/ls?client-request-id=77".to_string(),
            form: vec![
                ("username".to_string(), USER.to_string()),
                ("vippassword".to_string(), "PLACEHOLDER".to_string()),
                ("security_code".to_string(), "424242".to_string()),
                ("Context".to_string(), "CTX0123".to_string()),
                ("AuthMethod".to_string(), "VIPAuthenticationProviderUPN".to_string()),
            ],
        }
    );
    assert_eq!(h.phase(), &Phase::SubmittingSamlRequest);
    let (h, action) = h.advance(posted(assertion_page()));
    assert_eq!(
        action,
        Action::Post {
            url: "https://svc.example.com/saml/acs".to_string(),
            form: vec![
                ("SAMLResponse".to_string(), "PHNhbWw=".to_string()),
                ("RelayState".to_string(), "e8bf-4188".to_string()),
            ],
        }
    );
    assert_eq!(h.phase(), &Phase::SubmittingSamlResponse);
    let (h, action) = h.advance(posted(String::new()));
    assert_eq!(action, Action::Succeed);
    assert!(h.is_finished());
}

#[test]
fn rejected_security_code_gives_malformed_assertion_page() {
    let (h, _) = at_credentials().advance(posted(login_context_page()));
    let (h, _) = h.advance(Event::Ticket { ticket: "000000".to_string() });
    let (h, action) = h.advance(posted("<p>The security code is not valid.</p>".to_string()));
    assert_eq!(action, Action::Fail(AuthError::MalformedAssertionPage));
    assert!(h.is_finished());
}

#[test]
fn login_context_from_given_groups() {
    let caps = Some(vec![
        Some("whole".to_string()),
        Some("ctx".to_string()),
        Some("method".to_string()),
        Some("placeholder".to_string()),
        Some("https://idp.example.com/adfs/ls?x".to_string()),
    ]);
    let ctx = SAMLRequest::from_captures(&caps).unwrap();
    assert_eq!(ctx.url, "https://idp.example.com/adfs/ls?x");
    assert_eq!(ctx.context, "ctx");
    assert_eq!(ctx.auth_method, "method");
    assert_eq!(ctx.vippassword, "placeholder");
    assert_eq!(ctx.security_code, "");
}

#[test]
fn login_continuation_without_query_is_a_parse_failure() {
    let page = [
        "<input name=\"Context\" value=\"CTX0123\"/>",
        "<input name=\"AuthMethod\" value=\"VIPAuthenticationProviderUPN\"/>",
        "<script>pass.value = PLACEHOLDER\";</script>",
        "<form method=\"post\" action=\"https://idp.example.com/adfs/ls\">",
    ]
    .join("\n");
    let (h, action) = at_credentials().advance(posted(page));
    assert_eq!(action, Action::Fail(AuthError::ParseFailure));
    assert!(h.is_finished());
}

#[test]
fn look_alike_of_the_redirect_call_ends_the_handshake() {
    let (h, _) = Handshake::begin(TARGET, USER, PASSWORD);
    let body = "<script>windowXlocationXassign(\"https://x.example.com/\")</script>";
    let (h, action) = h.advance(fetched("https://svc.example.com/login", body.to_string()));
    assert_eq!(action, Action::Fail(AuthError::NoRedirectFound));
    assert!(h.is_finished());
}

#[test]
fn redirect_is_followed_and_the_probe_is_not_repeated() {
    let (h, first) = Handshake::begin(TARGET, USER, PASSWORD);
    assert_eq!(first, Action::Get { url: TARGET.to_string() });
    let body = "<html><script>window.location.assign(\"https://idp.example.com/adfs/ls?SAMLRequest=abc\"); log(\"redirect\")</script></html>";
    let (_, second) = h.advance(fetched("https://svc.example.com/login", body.to_string()));
    assert_eq!(
        second,
        Action::Get { url: "https://idp.example.com/adfs/ls?SAMLRequest=abc".to_string() }
    );
    assert_ne!(second, first);
}

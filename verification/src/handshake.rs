use crate::artifacts::{
    absolute_form_url, login_context, redirect_target, saml_handoff, parse_redirect_url_to_login,
    RedirectResponse, SAMLRequest, SAMLResponse, SamlRequestView,
};
use crate::error::AuthError;
use crate::forms::{
    login_fields, login_form, saml_request_fields, saml_request_form, saml_response_fields,
    saml_response_form,
};
use crate::ticket::{encode_user, encoded_user, fresh_request_id, is_request_id};
use crate::url::{origin_of, url_origin};
use vstd::prelude::*;
use vstd::string::*;

verus! {

/// What the handshake is waiting for.
#[derive(Clone, Debug, PartialEq, Eq)]
pub enum Phase {
    /// The answer to the probe of the target.
    Probing,
    /// The login page at `url`.
    OpeningLoginPage { url: String },
    /// The answer to the credentials.
    SubmittingCredentials,
    /// The one-time ticket for `context`.
    FetchingTicket { context: SAMLRequest },
    /// The answer to the login continuation.
    SubmittingSamlRequest,
    /// The relying party's answer to the assertion.
    SubmittingSamlResponse,
    /// Nothing: the handshake has succeeded or failed.
    Finished,
}

/// A [`Phase`] over sequences of characters.
pub enum PhaseView {
    Probing,
    OpeningLoginPage { url: Seq<char> },
    SubmittingCredentials,
    FetchingTicket { context: SamlRequestView },
    SubmittingSamlRequest,
    SubmittingSamlResponse,
    Finished,
}

impl View for Phase {
    type V = PhaseView;

    open spec fn view(&self) -> PhaseView {
        match self {
            Phase::Probing => PhaseView::Probing,
            Phase::OpeningLoginPage { url } => PhaseView::OpeningLoginPage { url: url@ },
            Phase::SubmittingCredentials => PhaseView::SubmittingCredentials,
            Phase::FetchingTicket { context } => PhaseView::FetchingTicket { context: context@ },
            Phase::SubmittingSamlRequest => PhaseView::SubmittingSamlRequest,
            Phase::SubmittingSamlResponse => PhaseView::SubmittingSamlResponse,
            Phase::Finished => PhaseView::Finished,
        }
    }
}

/// The outcome of the action that was asked for last.
#[derive(Clone, Debug, PartialEq, Eq)]
pub enum Event {
    /// A GET arrived at `final_url` and returned `body`.
    Fetched { final_url: String, body: String },
    /// A POST returned `body`.
    Posted { body: String },
    /// The one-time-ticket service issued `ticket`.
    Ticket { ticket: String },
    /// The transport failed, or the body was no text.
    TransportFailed,
    /// The one-time-ticket service reported an error.
    TicketFailed,
}

/// An [`Event`] over sequences of characters.
pub enum EventView {
    Fetched { final_url: Seq<char>, body: Seq<char> },
    Posted { body: Seq<char> },
    Ticket { ticket: Seq<char> },
    TransportFailed,
    TicketFailed,
}

impl View for Event {
    type V = EventView;

    open spec fn view(&self) -> EventView {
        match self {
            Event::Fetched { final_url, body } => EventView::Fetched {
                final_url: final_url@,
                body: body@,
            },
            Event::Posted { body } => EventView::Posted { body: body@ },
            Event::Ticket { ticket } => EventView::Ticket { ticket: ticket@ },
            Event::TransportFailed => EventView::TransportFailed,
            Event::TicketFailed => EventView::TicketFailed,
        }
    }
}

/// What the driver has to do next.
#[derive(Clone, Debug, PartialEq, Eq)]
pub enum Action {
    /// GET `url` and report `Fetched`.
    Get { url: String },
    /// POST `form` to `url`, form-encoded, and report `Posted`.
    Post { url: String, form: Vec<(String, String)> },
    /// Ask the one-time-ticket service for a ticket and report `Ticket`.
    FetchTicket { user: String, request_id: String, origin: String },
    /// Stop: the session is authenticated.
    Succeed,
    /// Stop: the handshake failed.
    Fail(AuthError),
}

/// An [`Action`] over sequences of characters.
pub enum ActionView {
    Get { url: Seq<char> },
    Post { url: Seq<char>, form: Seq<(Seq<char>, Seq<char>)> },
    FetchTicket { user: Seq<char>, request_id: Seq<char>, origin: Seq<char> },
    Succeed,
    Fail(AuthError),
}

impl View for Action {
    type V = ActionView;

    open spec fn view(&self) -> ActionView {
        match self {
            Action::Get { url } => ActionView::Get { url: url@ },
            Action::Post { url, form } => ActionView::Post { url: url@, form: form.deep_view() },
            Action::FetchTicket { user, request_id, origin } => ActionView::FetchTicket {
                user: user@,
                request_id: request_id@,
                origin: origin@,
            },
            Action::Succeed => ActionView::Succeed,
            Action::Fail(e) => ActionView::Fail(*e),
        }
    }
}

/// One login attempt: the target, the credentials and the current phase.
#[derive(Clone, Debug, PartialEq, Eq)]
pub struct Handshake {
    target: String,
    user: String,
    password: String,
    phase: Phase,
}

/// A [`Handshake`] over sequences of characters.
pub struct HandshakeView {
    pub target: Seq<char>,
    pub user: Seq<char>,
    pub password: Seq<char>,
    pub phase: PhaseView,
}

impl HandshakeView {
    /// The same attempt in another phase.
    pub open spec fn in_phase(self, phase: PhaseView) -> HandshakeView {
        HandshakeView { phase, ..self }
    }

    /// The attempt stops with an error.
    pub open spec fn fail(self, e: AuthError) -> (HandshakeView, ActionView) {
        (self.in_phase(PhaseView::Finished), ActionView::Fail(e))
    }

    /// After the probe: done where the probe ended at the target itself,
    /// else on to the login page that the body redirects to.
    pub open spec fn after_probe(self, final_url: Seq<char>, body: Seq<char>) -> (
        HandshakeView,
        ActionView,
    ) {
        if final_url == self.target {
            (self.in_phase(PhaseView::Finished), ActionView::Succeed)
        } else {
            match redirect_target(body) {
                Ok(url) => (
                    self.in_phase(PhaseView::OpeningLoginPage { url }),
                    ActionView::Get { url },
                ),
                Err(e) => self.fail(e),
            }
        }
    }

    /// After the login page: the credentials go to the page's form,
    /// resolved against the origin of the URL the page was asked from.
    pub open spec fn after_login_page(self, url: Seq<char>, body: Seq<char>) -> (
        HandshakeView,
        ActionView,
    ) {
        match url_origin(url) {
            Some(origin) => match absolute_form_url(origin, body) {
                Ok(form_url) => (
                    self.in_phase(PhaseView::SubmittingCredentials),
                    ActionView::Post { url: form_url, form: login_fields(self.user, self.password) },
                ),
                Err(e) => self.fail(e),
            },
            None => self.fail(AuthError::ParseFailure),
        }
    }

    /// After the credentials: a ticket is asked for the origin of the login
    /// continuation, under `request_id`.
    pub open spec fn after_credentials(self, body: Seq<char>, request_id: Seq<char>) -> (
        HandshakeView,
        ActionView,
    ) {
        match login_context(body) {
            Ok(context) => match url_origin(context.url) {
                Some(origin) => (
                    self.in_phase(PhaseView::FetchingTicket { context }),
                    ActionView::FetchTicket { user: encoded_user(self.user), request_id, origin },
                ),
                None => self.fail(AuthError::ParseFailure),
            },
            Err(e) => self.fail(e),
        }
    }

    /// After the ticket: the login continues with the ticket as security
    /// code.
    pub open spec fn after_ticket(self, context: SamlRequestView, ticket: Seq<char>) -> (
        HandshakeView,
        ActionView,
    ) {
        (
            self.in_phase(PhaseView::SubmittingSamlRequest),
            ActionView::Post {
                url: context.url,
                form: saml_request_fields(
                    self.user,
                    SamlRequestView { security_code: ticket, ..context },
                ),
            },
        )
    }

    /// After the login continuation: the assertion goes to the relying
    /// party.
    pub open spec fn after_saml_request(self, body: Seq<char>) -> (HandshakeView, ActionView) {
        match saml_handoff(body) {
            Ok(saml) => (
                self.in_phase(PhaseView::SubmittingSamlResponse),
                ActionView::Post { url: saml.url, form: saml_response_fields(saml) },
            ),
            Err(e) => self.fail(e),
        }
    }

    /// The next phase and action on `event`. `request_id` is used where a
    /// ticket is asked for, and nowhere else.
    pub open spec fn step(self, event: EventView, request_id: Seq<char>) -> (
        HandshakeView,
        ActionView,
    ) {
        match (self.phase, event) {
            (PhaseView::Finished, _) => self.fail(AuthError::OutOfSequence),
            (_, EventView::TransportFailed) => self.fail(AuthError::TransportError),
            (PhaseView::Probing, EventView::Fetched { final_url, body }) => self.after_probe(
                final_url,
                body,
            ),
            (
                PhaseView::OpeningLoginPage { url },
                EventView::Fetched { final_url, body },
            ) => self.after_login_page(url, body),
            (PhaseView::SubmittingCredentials, EventView::Posted { body }) => self.after_credentials(
                body,
                request_id,
            ),
            (PhaseView::FetchingTicket { context }, EventView::Ticket { ticket }) => self.after_ticket(
                context,
                ticket,
            ),
            (PhaseView::FetchingTicket { context }, EventView::TicketFailed) => self.fail(
                AuthError::TicketError,
            ),
            (PhaseView::SubmittingSamlRequest, EventView::Posted { body }) => self.after_saml_request(
                body,
            ),
            (PhaseView::SubmittingSamlResponse, EventView::Posted { body }) => (
                self.in_phase(PhaseView::Finished),
                ActionView::Succeed,
            ),
            _ => self.fail(AuthError::OutOfSequence),
        }
    }
}

impl View for Handshake {
    type V = HandshakeView;

    closed spec fn view(&self) -> HandshakeView {
        HandshakeView {
            target: self.target@,
            user: self.user@,
            password: self.password@,
            phase: self.phase@,
        }
    }
}

impl Handshake {
    /// Starts an attempt: the first action is the probe of the target.
    pub fn begin(url: &str, user: &str, password: &str) -> (r: (Handshake, Action))
        ensures
            r.0@ == (HandshakeView {
                target: url@,
                user: user@,
                password: password@,
                phase: PhaseView::Probing,
            }),
            r.1@ == (ActionView::Get { url: url@ }),
    {
        (
            Handshake {
                target: String::from_str(url),
                user: String::from_str(user),
                password: String::from_str(password),
                phase: Phase::Probing,
            },
            Action::Get { url: String::from_str(url) },
        )
    }

    /// What the attempt is waiting for.
    pub fn phase(&self) -> (phase: &Phase)
        ensures
            phase@ == self@.phase,
    {
        &self.phase
    }

    /// Whether the attempt has succeeded or failed.
    pub fn is_finished(&self) -> (done: bool)
        ensures
            done == (self@.phase is Finished),
    {
        match self.phase {
            Phase::Finished => true,
            _ => false,
        }
    }

    fn in_phase(self, phase: Phase) -> (next: Handshake)
        ensures
            next@ == self@.in_phase(phase@),
    {
        Handshake { target: self.target, user: self.user, password: self.password, phase }
    }

    fn fail(self, e: AuthError) -> (r: (Handshake, Action))
        ensures
            (r.0@, r.1@) == self@.fail(e),
    {
        (self.in_phase(Phase::Finished), Action::Fail(e))
    }

    fn after_probe(self, final_url: String, body: String) -> (r: (Handshake, Action))
        ensures
            (r.0@, r.1@) == self@.after_probe(final_url@, body@),
    {
        if final_url == self.target {
            (self.in_phase(Phase::Finished), Action::Succeed)
        } else {
            match parse_redirect_url_to_login(body.as_str()) {
                Ok(url) => {
                    let next = url.clone();
                    (self.in_phase(Phase::OpeningLoginPage { url }), Action::Get { url: next })
                },
                Err(e) => self.fail(e),
            }
        }
    }

    fn after_login_page(self, url: String, body: String) -> (r: (Handshake, Action))
        ensures
            (r.0@, r.1@) == self@.after_login_page(url@, body@),
    {
        match origin_of(url.as_str()) {
            Some(origin) => {
                let page = RedirectResponse::new(body.as_str(), origin.as_str());
                match page.form_action_url() {
                    Ok(form_url) => {
                        let form = login_form(self.user.as_str(), self.password.as_str());
                        (
                            self.in_phase(Phase::SubmittingCredentials),
                            Action::Post { url: form_url, form },
                        )
                    },
                    Err(e) => self.fail(e),
                }
            },
            None => self.fail(AuthError::ParseFailure),
        }
    }

    fn after_credentials(self, body: String, request_id: String) -> (r: (Handshake, Action))
        ensures
            (r.0@, r.1@) == self@.after_credentials(body@, request_id@),
    {
        match SAMLRequest::from_html(body.as_str()) {
            Ok(context) => match origin_of(context.url.as_str()) {
                Some(origin) => {
                    let user = encode_user(self.user.as_str());
                    (
                        self.in_phase(Phase::FetchingTicket { context }),
                        Action::FetchTicket { user, request_id, origin },
                    )
                },
                None => self.fail(AuthError::ParseFailure),
            },
            Err(e) => self.fail(e),
        }
    }

    fn after_ticket(self, context: SAMLRequest, ticket: String) -> (r: (Handshake, Action))
        ensures
            (r.0@, r.1@) == self@.after_ticket(context@, ticket@),
    {
        let mut context = context;
        *context.security_code_mut() = ticket;
        let form = saml_request_form(self.user.as_str(), &context);
        let url = context.url;
        (self.in_phase(Phase::SubmittingSamlRequest), Action::Post { url, form })
    }

    fn after_saml_request(self, body: String) -> (r: (Handshake, Action))
        ensures
            (r.0@, r.1@) == self@.after_saml_request(body@),
    {
        match SAMLResponse::from_html(body.as_str()) {
            Ok(saml) => {
                let form = saml_response_form(&saml);
                (
                    self.in_phase(Phase::SubmittingSamlResponse),
                    Action::Post { url: saml.url, form },
                )
            },
            Err(e) => self.fail(e),
        }
    }

    /// Takes one step with a request id that the caller supplies: the next
    /// phase and action are those of [`HandshakeView::step`].
    pub fn advance_with(self, event: Event, request_id: String) -> (r: (Handshake, Action))
        ensures
            (r.0@, r.1@) == self@.step(event@, request_id@),
    {
        let Handshake { target, user, password, phase } = self;
        let bare = Handshake { target, user, password, phase: Phase::Finished };
        match (phase, event) {
            (Phase::Finished, _) => bare.fail(AuthError::OutOfSequence),
            (_, Event::TransportFailed) => bare.fail(AuthError::TransportError),
            (Phase::Probing, Event::Fetched { final_url, body }) => bare.after_probe(
                final_url,
                body,
            ),
            (Phase::OpeningLoginPage { url }, Event::Fetched { final_url, body }) => {
                bare.after_login_page(url, body)
            },
            (Phase::SubmittingCredentials, Event::Posted { body }) => bare.after_credentials(
                body,
                request_id,
            ),
            (Phase::FetchingTicket { context }, Event::Ticket { ticket }) => bare.after_ticket(
                context,
                ticket,
            ),
            (Phase::FetchingTicket { context }, Event::TicketFailed) => bare.fail(
                AuthError::TicketError,
            ),
            (Phase::SubmittingSamlRequest, Event::Posted { body }) => bare.after_saml_request(body),
            (Phase::SubmittingSamlResponse, Event::Posted { body }) => (
                bare.in_phase(Phase::Finished),
                Action::Succeed,
            ),
            _ => bare.fail(AuthError::OutOfSequence),
        }
    }

    /// Takes one step. The answer to the credentials is handled under a
    /// fresh random request id, which goes into the request for a ticket;
    /// every other step is determined by the event alone.
    pub fn advance(self, event: Event) -> (r: (Handshake, Action))
        ensures
            exists|id: Seq<char>| is_request_id(id) && (r.0@, r.1@) == self@.step(event@, id),
    {
        let ghost before = self@;
        let request_id = match self.phase {
            Phase::SubmittingCredentials => fresh_request_id(),
            _ => String::new(),
        };
        let r = self.advance_with(event, request_id);
        proof {
            if !(before.phase is SubmittingCredentials) {
                let id = Seq::new(30, |i: int| 'a');
                assert(is_request_id(id));
                lemma_request_id_used_once(before, event@, id, request_id@);
            }
        }
        r
    }
}

/// A probe that ends at the target itself finishes the handshake with
/// success at once: no login, ticket or SAML request is asked for.
pub proof fn lemma_probe_at_target_succeeds(
    h: HandshakeView,
    body: Seq<char>,
    request_id: Seq<char>,
)
    requires
        h.phase is Probing,
    ensures
        h.step(EventView::Fetched { final_url: h.target, body }, request_id) == (
            h.in_phase(PhaseView::Finished),
            ActionView::Succeed,
        ),
{
}

/// A probe that ended elsewhere is followed by a GET of the redirect
/// target found in its body, and by nothing else; without a redirect the
/// handshake fails with `NoRedirectFound`.
pub proof fn lemma_probe_follows_redirect(
    h: HandshakeView,
    final_url: Seq<char>,
    body: Seq<char>,
    request_id: Seq<char>,
)
    requires
        h.phase is Probing,
        final_url != h.target,
    ensures
        redirect_target(body) matches Ok(url) ==> h.step(
            EventView::Fetched { final_url, body },
            request_id,
        ) == (h.in_phase(PhaseView::OpeningLoginPage { url }), ActionView::Get { url }),
        redirect_target(body) is Err ==> h.step(EventView::Fetched { final_url, body }, request_id)
            == h.fail(AuthError::NoRedirectFound),
{
}

/// An answer to the credentials that lacks the login continuation fields
/// ends the handshake with `MalformedLoginPage`; no ticket is asked for.
pub proof fn lemma_malformed_login_page_stops(
    h: HandshakeView,
    body: Seq<char>,
    request_id: Seq<char>,
)
    requires
        h.phase is SubmittingCredentials,
        login_context(body) is Err,
    ensures
        h.step(EventView::Posted { body }, request_id) == h.fail(AuthError::MalformedLoginPage),
{
}

/// A ticket is asked for only in answer to accepted credentials: the step
/// before was the credentials POST, its body held a login continuation,
/// and the step after waits for the ticket with that continuation. The
/// request carries the request id of this step and the encoded user.
pub proof fn lemma_ticket_follows_credentials(
    h: HandshakeView,
    event: EventView,
    request_id: Seq<char>,
)
    requires
        h.step(event, request_id).1 is FetchTicket,
    ensures
        h.phase is SubmittingCredentials,
        event is Posted,
        login_context(event->Posted_body) is Ok,
        url_origin(login_context(event->Posted_body)->Ok_0.url) is Some,
        h.step(event, request_id) == (
            h.in_phase(
                PhaseView::FetchingTicket { context: login_context(event->Posted_body)->Ok_0 },
            ),
            ActionView::FetchTicket {
                user: encoded_user(h.user),
                request_id,
                origin: url_origin(login_context(event->Posted_body)->Ok_0.url)->0,
            },
        ),
{
}

/// The login continuation is posted only in answer to a ticket, and
/// carries that ticket as its security code.
pub proof fn lemma_saml_request_carries_ticket(
    h: HandshakeView,
    context: SamlRequestView,
    ticket: Seq<char>,
    request_id: Seq<char>,
)
    requires
        h.phase == (PhaseView::FetchingTicket { context }),
    ensures
        h.step(EventView::Ticket { ticket }, request_id) == (
            h.in_phase(PhaseView::SubmittingSamlRequest),
            ActionView::Post {
                url: context.url,
                form: saml_request_fields(
                    h.user,
                    SamlRequestView { security_code: ticket, ..context },
                ),
            },
        ),
        saml_request_fields(h.user, SamlRequestView { security_code: ticket, ..context })[2] == (
            "security_code"@,
            ticket,
        ),
{
}

/// A step stops the handshake exactly when it reports success or failure,
/// and no step changes the target or the credentials.
pub proof fn lemma_stop_is_final(h: HandshakeView, event: EventView, request_id: Seq<char>)
    ensures
        ({
            let (next, action) = h.step(event, request_id);
            &&& (next.phase is Finished) == (action is Succeed || action is Fail)
            &&& next.target == h.target
            &&& next.user == h.user
            &&& next.password == h.password
        }),
{
}

/// A finished handshake stays finished: every further event is answered
/// with `OutOfSequence`.
pub proof fn lemma_finished_stays_finished(
    h: HandshakeView,
    event: EventView,
    request_id: Seq<char>,
)
    requires
        h.phase is Finished,
    ensures
        h.step(event, request_id) == h.fail(AuthError::OutOfSequence),
{
}

/// The request id matters to one step only, the answer to the credentials.
pub proof fn lemma_request_id_used_once(
    h: HandshakeView,
    event: EventView,
    id1: Seq<char>,
    id2: Seq<char>,
)
    requires
        !(h.phase is SubmittingCredentials),
    ensures
        h.step(event, id1) == h.step(event, id2),
{
}

impl PhaseView {
    /// How far a phase is along the handshake.
    pub open spec fn rank(self) -> nat {
        match self {
            PhaseView::Probing => 0,
            PhaseView::OpeningLoginPage { .. } => 1,
            PhaseView::SubmittingCredentials => 2,
            PhaseView::FetchingTicket { .. } => 3,
            PhaseView::SubmittingSamlRequest => 4,
            PhaseView::SubmittingSamlResponse => 5,
            PhaseView::Finished => 6,
        }
    }
}

/// The handshake only moves forward: a step from an unfinished phase ends
/// either in the phase that follows it or in `Finished`. There is no way
/// back and no retry.
pub proof fn lemma_steps_go_forward(h: HandshakeView, event: EventView, request_id: Seq<char>)
    requires
        !(h.phase is Finished),
    ensures
        ({
            let next = h.step(event, request_id).0.phase;
            next is Finished || next.rank() == h.phase.rank() + 1
        }),
{
}

} // verus!

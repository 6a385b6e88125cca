use vstd::prelude::*;
use vstd::string::*;

verus! {

/// Why a login handshake stopped.
#[derive(Clone, Copy, Debug, PartialEq, Eq, Structural)]
pub enum AuthError {
    /// The transport could not complete a request or decode its body.
    TransportError,
    /// A URL did not have the shape the component parser targets.
    ParseFailure,
    /// The probed page carried no client-side redirect instruction.
    NoRedirectFound,
    /// The response to the credentials lacked the login continuation fields.
    MalformedLoginPage,
    /// A page carried no form action.
    NoFormAction,
    /// The response to the login continuation lacked the SAML assertion form.
    MalformedAssertionPage,
    /// The one-time-ticket service reported an error.
    TicketError,
    /// An event arrived that the current phase does not wait for.
    OutOfSequence,
}

impl AuthError {
    /// The text of each error, as a sequence of characters.
    pub open spec fn spec_message(self) -> Seq<char> {
        match self {
            AuthError::TransportError => "Transport failure"@,
            AuthError::ParseFailure => "Could not split url into components"@,
            AuthError::NoRedirectFound => "Could not parse redirect url to login page"@,
            AuthError::MalformedLoginPage => "Could not parse login page"@,
            AuthError::NoFormAction => "Could not parse form action url"@,
            AuthError::MalformedAssertionPage => "Could not parse SAML response page"@,
            AuthError::TicketError => "Could not fetch security code"@,
            AuthError::OutOfSequence => "Event does not belong to the current step"@,
        }
    }

    /// A human-readable description of the error.
    pub fn message(&self) -> (text: String)
        ensures
            text@ == self.spec_message(),
    {
        match self {
            AuthError::TransportError => String::from_str("Transport failure"),
            AuthError::ParseFailure => String::from_str("Could not split url into components"),
            AuthError::NoRedirectFound => String::from_str(
                "Could not parse redirect url to login page",
            ),
            AuthError::MalformedLoginPage => String::from_str("Could not parse login page"),
            AuthError::NoFormAction => String::from_str("Could not parse form action url"),
            AuthError::MalformedAssertionPage => String::from_str(
                "Could not parse SAML response page",
            ),
            AuthError::TicketError => String::from_str("Could not fetch security code"),
            AuthError::OutOfSequence => String::from_str(
                "Event does not belong to the current step",
            ),
        }
    }
}

} // verus!

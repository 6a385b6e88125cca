use rand::distributions::Alphanumeric;
use rand::{thread_rng, Rng};
use vstd::prelude::*;
use vstd::string::*;

verus! {

/// Number of characters in a request id.
pub const REQUEST_ID_LENGTH: usize = 30;

/// An ASCII letter or digit.
pub open spec fn is_alphanumeric(c: char) -> bool {
    ('0' <= c && c <= '9') || ('A' <= c && c <= 'Z') || ('a' <= c && c <= 'z')
}

/// Thirty ASCII letters and digits.
pub open spec fn is_request_id(id: Seq<char>) -> bool {
    id.len() == REQUEST_ID_LENGTH && forall|i: int| 0 <= i < id.len() ==> is_alphanumeric(#[trigger] id[i])
}

/// What stands for one character of a user identifier: `@` is
/// percent-encoded, every other character stands for itself.
pub open spec fn encoded_char(c: char) -> Seq<char> {
    if c == '@' {
        seq!['%', '4', '0']
    } else {
        seq![c]
    }
}

/// A user identifier with each `@` percent-encoded.
pub open spec fn encoded_user(user: Seq<char>) -> Seq<char>
    decreases user.len(),
{
    if user.len() == 0 {
        Seq::empty()
    } else {
        encoded_user(user.drop_last()) + encoded_char(user.last())
    }
}

/// Draws `len` characters from `rand::distributions::Alphanumeric` with the
/// thread's generator.
///
/// Trusted: the distribution yields ASCII letters and digits only, and the
/// string holds as many of them as were asked for. Which ones is left open.
#[verifier::external_body]
fn random_alphanumeric(len: usize) -> (text: String)
    ensures
        text@.len() == len,
        forall|i: int| 0 <= i < text@.len() ==> is_alphanumeric(#[trigger] text@[i]),
{
    thread_rng().sample_iter(&Alphanumeric).take(len).collect()
}

/// A fresh request id for the one-time-ticket service.
pub fn fresh_request_id() -> (id: String)
    ensures
        is_request_id(id@),
{
    random_alphanumeric(REQUEST_ID_LENGTH)
}

/// Percent-encodes each `@` of a user identifier.
pub fn encode_user(user: &str) -> (encoded: String)
    ensures
        encoded@ == encoded_user(user@),
{
    let n = user.unicode_len();
    let mut encoded = String::new();
    let mut i: usize = 0;
    while i < n
        invariant
            n == user@.len(),
            i <= n,
            encoded@ == encoded_user(user@.take(i as int)),
        decreases n - i,
    {
        let c = user.get_char(i);
        proof {
            reveal_strlit("%40");
            assert(user@.take(i + 1).drop_last() =~= user@.take(i as int));
            assert("%40"@ =~= seq!['%', '4', '0']);
        }
        if c == '@' {
            encoded.append("%40");
        } else {
            encoded.append(user.substring_char(i, i + 1));
            assert(user@.subrange(i as int, i + 1) =~= seq![c]);
        }
        i = i + 1;
    }
    assert(user@.take(n as int) =~= user@);
    encoded
}

} // verus!

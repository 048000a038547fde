use vstd::prelude::*;

use crate::errors::{decoded, outcome, DecodeError, Error, ErrorView};
use crate::text::{contains, occurs_in, strip_tabs, without_tabs};

verus! {

/// The path that the panel's login page redirects to; a reply body that
/// holds it instead of JSON means the session expired.
pub const LOGIN_PATH: &'static str = "/action/login";

/// An envelope that the panel sends as JSON.
pub trait ApiResponse: Sized + View {
    /// The envelope written in `text`, or why there is none.
    spec fn spec_decode(text: Seq<char>) -> Result<<Self as View>::V, DecodeError>;

    /// Reads the envelope written in `text`.
    fn decode(text: &str) -> (r: Result<Self, DecodeError>)
        ensures
            decoded(r) == Self::spec_decode(text@),
    ;
}

/// Whether an HTTP status is in the success range.
pub open spec fn is_success(status: u16) -> bool {
    200 <= status < 300
}

/// How a reply with `status` and `body` is classified, given what the body,
/// with its tabs taken out, decodes to.
pub open spec fn spec_classify<V>(status: u16, body: Seq<char>, d: Result<V, DecodeError>) -> Result<
    V,
    ErrorView,
> {
    if status == 401 {
        Err(ErrorView::Unauthorized)
    } else if !is_success(status) {
        Err(ErrorView::UnexpectedResponse { status, body })
    } else {
        match d {
            Ok(v) => Ok(v),
            Err(e) => if occurs_in(LOGIN_PATH@, body) {
                Err(ErrorView::SessionTimeout)
            } else {
                Err(ErrorView::Deserialize(e))
            },
        }
    }
}

/// What a reply with `status` and `body` means as an envelope of type `T`.
pub open spec fn spec_decode_reply<T: ApiResponse>(status: u16, body: Seq<char>) -> Result<
    <T as View>::V,
    ErrorView,
> {
    spec_classify(status, body, T::spec_decode(without_tabs(body)))
}

/// Reads the reply to a request as an envelope of type `T`: 401 means the
/// credentials were refused; any other status outside 200..=299 is
/// unexpected; otherwise the body, with its tabs taken out, is decoded, and
/// a body that does not decode means an expired session when it holds the
/// login path, else a deserialization error.
pub fn decode_envelope<T: ApiResponse>(status: u16, body: &str) -> (r: Result<T, Error>)
    ensures
        outcome(r) == spec_decode_reply::<T>(status, body@),
{
    if status == 401 {
        return Err(Error::Unauthorized);
    }
    if status < 200 || status >= 300 {
        return Err(Error::UnexpectedResponse { status, body: String::from_str(body) });
    }
    let text = strip_tabs(body);
    match T::decode(text.as_str()) {
        Ok(v) => Ok(v),
        Err(e) => {
            if contains(body, LOGIN_PATH) {
                Err(Error::SessionTimeout)
            } else {
                Err(Error::Deserialize(e))
            }
        },
    }
}

/// A reply with status 401 means refused credentials, whatever its body.
pub proof fn lemma_unauthorized_whatever_the_body<T: ApiResponse>(body: Seq<char>)
    ensures
        spec_decode_reply::<T>(401, body) == Err::<<T as View>::V, ErrorView>(
            ErrorView::Unauthorized,
        ),
{
}

/// A successful reply whose body is not the expected JSON but holds the
/// login path means an expired session.
pub proof fn lemma_login_redirect_is_session_timeout<T: ApiResponse>(status: u16, body: Seq<char>)
    requires
        is_success(status),
        T::spec_decode(without_tabs(body)) is Err,
        occurs_in(LOGIN_PATH@, body),
    ensures
        spec_decode_reply::<T>(status, body) == Err::<<T as View>::V, ErrorView>(
            ErrorView::SessionTimeout,
        ),
{
}

/// Taking the tabs out twice takes out no more than once.
pub proof fn lemma_without_tabs_idempotent(s: Seq<char>)
    ensures
        without_tabs(without_tabs(s)) == without_tabs(s),
    decreases s.len(),
{
    if s.len() > 0 {
        lemma_without_tabs_idempotent(s.drop_last());
        let w = without_tabs(s.drop_last());
        if s.last() != '\t' {
            assert(w.push(s.last()).drop_last() == w);
        }
    }
}

/// Tabs in a successful reply do not matter: the reply decodes to what the
/// same body with its tabs taken out decodes to.
pub proof fn lemma_tabs_do_not_matter<T: ApiResponse>(status: u16, body: Seq<char>)
    requires
        is_success(status),
        T::spec_decode(without_tabs(body)) is Ok,
    ensures
        spec_decode_reply::<T>(status, body) == spec_decode_reply::<T>(status, without_tabs(body)),
        spec_decode_reply::<T>(status, body) is Ok,
{
    lemma_without_tabs_idempotent(body);
}

} // verus!

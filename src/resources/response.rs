use vstd::prelude::*;

use crate::constants::Status;
use crate::codec::ApiResponse;
use crate::errors::{outcome, DecodeError, Error, ErrorView, Field};
use crate::json::{member, object, spec_member, spec_object, spec_text, text_of};

verus! {

/// The generic envelope `{result, message}` of token and command replies.
#[derive(Debug)]
pub struct Response {
    result: Status,
    message: String,
}

pub struct ResponseView {
    pub result: Status,
    pub message: Seq<char>,
}

impl View for Response {
    type V = ResponseView;

    closed spec fn view(&self) -> ResponseView {
        ResponseView { result: self.result, message: self.message@ }
    }
}

/// The envelope `{result, message}` written in `text`.
pub open spec fn spec_decode_envelope(text: Seq<char>) -> Result<ResponseView, DecodeError> {
    match spec_object(text) {
        Err(e) => Err(e),
        Ok(ms) => match spec_member(ms, Field::ResultCode) {
            Err(e) => Err(e),
            Ok(rt) => match Status::spec_decode(rt) {
                Err(e) => Err(e),
                Ok(result) => match spec_member(ms, Field::Message) {
                    Err(e) => Err(e),
                    Ok(mt) => match spec_text(mt) {
                        Err(e) => Err(e),
                        Ok(message) => Ok(ResponseView { result, message }),
                    },
                },
            },
        },
    }
}

/// The payload of an envelope: its message on success, else the panel's error.
pub open spec fn spec_unwrap_envelope(v: ResponseView) -> Result<Seq<char>, ErrorView> {
    match v.result {
        Status::Success => Ok(v.message),
        Status::Error => Err(ErrorView::Panel(v.message)),
    }
}

/// Reads the envelope `{result, message}` written in `text`.
pub fn decode_envelope(text: &str) -> (r: Result<(Status, String), DecodeError>)
    ensures
        r matches Ok(p) ==> spec_decode_envelope(text@) == Ok::<_, DecodeError>(
            ResponseView { result: p.0, message: p.1@ },
        ),
        r matches Err(e) ==> spec_decode_envelope(text@) == Err::<ResponseView, _>(e),
{
    let ms = object(text)?;
    let rt = member(&ms, Field::ResultCode)?;
    let result = Status::decode(rt.as_str())?;
    let mt = member(&ms, Field::Message)?;
    let message = text_of(mt.as_str())?;
    Ok((result, message))
}

impl ApiResponse for Response {
    open spec fn spec_decode(text: Seq<char>) -> Result<ResponseView, DecodeError> {
        spec_decode_envelope(text)
    }

    /// Reads the envelope written in `text`.
    fn decode(text: &str) -> (r: Result<Response, DecodeError>)
    {
        let (result, message) = decode_envelope(text)?;
        Ok(Response { result, message })
    }
}

impl Response {
    /// The status that the panel reports
    pub fn result(&self) -> (r: Status)
        ensures
            r == self@.result,
    {
        self.result
    }

    /// The token, or the panel's message
    pub fn message(&self) -> (r: &str)
        ensures
            r@ == self@.message,
    {
        self.message.as_str()
    }


    /// Returns the message when the panel reports success, else the
    /// panel's error carrying the message.
    pub fn ok(self) -> (r: Result<String, Error>)
        ensures
            outcome(r) == spec_unwrap_envelope(self@),
    {
        match self.result {
            Status::Error => Err(Error::Panel(self.message)),
            Status::Success => Ok(self.message),
        }
    }
}

} // verus!

use vstd::prelude::*;

use crate::constants::Status;
use crate::codec::ApiResponse;
use crate::errors::{outcome, DecodeError, Error};
use crate::resources::response::{decode_envelope, spec_decode_envelope, spec_unwrap_envelope, ResponseView};

verus! {

/// The envelope `{result, message}` under a second name; it reads and
/// unwraps as [`Response`](super::response::Response) does.
#[derive(Debug)]
pub struct Result {
    result: Status,
    message: String,
}

impl View for Result {
    type V = ResponseView;

    closed spec fn view(&self) -> ResponseView {
        ResponseView { result: self.result, message: self.message@ }
    }
}

impl ApiResponse for Result {
    open spec fn spec_decode(text: Seq<char>) -> core::result::Result<ResponseView, DecodeError> {
        spec_decode_envelope(text)
    }

    /// Reads the envelope written in `text`.
    fn decode(text: &str) -> (r: core::result::Result<Result, DecodeError>)
    {
        let (result, message) = decode_envelope(text)?;
        Ok(Result { result, message })
    }
}

impl Result {

    /// Returns the message when the panel reports success, else the
    /// panel's error carrying the message.
    pub fn ok(self) -> (r: core::result::Result<String, Error>)
        ensures
            outcome(r) == spec_unwrap_envelope(self@),
    {
        match self.result {
            Status::Error => Err(Error::Panel(self.message)),
            Status::Success => Ok(self.message),
        }
    }
}

} // verus!

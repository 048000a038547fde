//! Bindings to the HTTP API of a Lupusec alarm panel.
//!
//! The library holds the panel's wire formats and the session protocol:
//! it decodes the panel's JSON envelopes, classifies every reply, and
//! decides which request comes next (token fetch, retry after an expired
//! session, or the end of an operation). Sending the requests is left to
//! the caller, which hands each reply back to a [`Session`].
mod codec;
mod constants;
mod errors;
mod json;
mod resources;
mod session;
mod text;

pub use codec::{decode_envelope, ApiResponse, LOGIN_PATH};
pub use constants::{Area, DeviceKind, Mode, State, Status};
pub use errors::{DecodeError, Error, ErrorView, Field};
pub use resources::devices::{Device, DeviceView, List};
pub use resources::panel::Modes;
pub use resources::{devices, panel, response, result};
pub use session::{
    Call, Endpoint, Operation, Outcome, OutcomeView, Reading, Reply, ReplyView, Request, RequestView,
    Session, Step, StepView,
};
pub use text::{contains, parse_u64, strip_tabs};

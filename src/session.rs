use vstd::prelude::*;

use crate::codec::{decode_envelope, is_success, spec_decode_reply, LOGIN_PATH};
use crate::constants::{Area, DeviceKind, Mode};
use crate::errors::{DecodeError, Error, ErrorView, Field};
use crate::json::{spec_array, spec_code, spec_member, spec_object, Members};
use crate::text::{occurs_in, without_tabs};
use crate::resources::devices::{
    devices_view, lemma_devices_fail_if_one_fails, lemma_unknown_kind_fails_the_record, Device,
    DeviceView, List,
};
use crate::resources::panel::{self, spec_modes, Modes};
use crate::resources::response::{spec_unwrap_envelope, Response};

verus! {

/// The panel's endpoints, each under `https://{ip_address}/action/`.
#[derive(Clone, Copy, Debug, PartialEq, Eq, Structural)]
pub enum Endpoint {
    /// `GET tokenGet`: a fresh session token
    TokenGet,
    /// `GET panelCondGet`: the mode of each area
    PanelCondGet,
    /// `GET deviceListGet`: the devices
    DeviceListGet,
    /// `POST panelCondPost`: change the mode of an area
    PanelCondPost,
}

impl Endpoint {
    /// The endpoint's name, the last segment of its URL.
    pub open spec fn spec_action(self) -> Seq<char> {
        match self {
            Endpoint::TokenGet => "tokenGet"@,
            Endpoint::PanelCondGet => "panelCondGet"@,
            Endpoint::DeviceListGet => "deviceListGet"@,
            Endpoint::PanelCondPost => "panelCondPost"@,
        }
    }

    pub fn action(&self) -> (r: &'static str)
        ensures
            r@ == self.spec_action(),
    {
        match self {
            Endpoint::TokenGet => "tokenGet",
            Endpoint::PanelCondGet => "panelCondGet",
            Endpoint::DeviceListGet => "deviceListGet",
            Endpoint::PanelCondPost => "panelCondPost",
        }
    }
}

/// A request for the caller to send, with the client's Basic credentials.
#[derive(Debug)]
pub enum Request {
    /// A GET of the endpoint, without a token.
    Get(Endpoint),
    /// A POST to [`Endpoint::PanelCondPost`] of the form `mode=<mode>&area=<area>`,
    /// with the token in the `x-token` header.
    ChangeMode { mode: u8, area: u8, token: String },
}

pub enum RequestView {
    Get(Endpoint),
    ChangeMode { mode: u8, area: u8, token: Seq<char> },
}

impl View for Request {
    type V = RequestView;

    open spec fn view(&self) -> RequestView {
        match self {
            Request::Get(e) => RequestView::Get(*e),
            Request::ChangeMode { mode, area, token } => RequestView::ChangeMode {
                mode: *mode,
                area: *area,
                token: token@,
            },
        }
    }
}

/// What came back for a request.
#[derive(Debug)]
pub enum Reply {
    /// The panel answered with this status and body.
    Http { status: u16, body: String },
    /// The request could not be made or sent (a transport error, or a token
    /// that is no valid header value).
    Failed(Error),
}

pub enum ReplyView {
    Http { status: u16, body: Seq<char> },
    Failed(ErrorView),
}

impl View for Reply {
    type V = ReplyView;

    open spec fn view(&self) -> ReplyView {
        match self {
            Reply::Http { status, body } => ReplyView::Http { status: *status, body: body@ },
            Reply::Failed(e) => ReplyView::Failed(e@),
        }
    }
}

/// What a read operation fetches.
#[derive(Clone, Copy, Debug, PartialEq, Eq, Structural)]
pub enum Reading {
    /// The mode of each area
    Status,
    /// The devices
    Devices,
}

/// An operation of the client.
#[derive(Clone, Copy, Debug, PartialEq, Eq, Structural)]
pub enum Operation {
    /// Get the mode of each area.
    GetStatus,
    /// List the devices.
    ListDevices,
    /// Put `area` in `mode`.
    ChangeMode { area: Area, mode: Mode },
}

/// An operation under way: the reply it waits for, and whether its one
/// retry is still unused.
#[derive(Clone, Copy, Debug, PartialEq, Eq, Structural)]
pub enum Call {
    /// Waiting for the reply to the GET of a read operation.
    Read { what: Reading, retry: bool },
    /// Waiting for the reply to a token fetch for a mode change;
    /// `post_retry` tells whether the POST's retry is still unused. A token
    /// fetch has no retry of its own.
    FetchToken { area: Area, mode: Mode, post_retry: bool },
    /// Waiting for the reply to the POST of a mode change.
    Post { area: Area, mode: Mode, retry: bool },
}

/// The result of a finished operation.
#[derive(Debug)]
pub enum Outcome {
    /// The mode of each area
    Status(Modes),
    /// The devices
    Devices(Vec<Device>),
    /// The mode was changed.
    ModeChanged,
}

pub enum OutcomeView {
    Status(Modes),
    Devices(Seq<DeviceView>),
    ModeChanged,
}

impl View for Outcome {
    type V = OutcomeView;

    open spec fn view(&self) -> OutcomeView {
        match self {
            Outcome::Status(m) => OutcomeView::Status(*m),
            Outcome::Devices(ds) => OutcomeView::Devices(devices_view(ds@)),
            Outcome::ModeChanged => OutcomeView::ModeChanged,
        }
    }
}

/// What follows a reply.
#[derive(Debug)]
pub enum Step {
    /// Send the request, and hand its reply back with the call.
    Send(Call, Request),
    /// The operation is over.
    Finished(Result<Outcome, Error>),
}

pub enum StepView {
    Send(Call, RequestView),
    Finished(Result<OutcomeView, ErrorView>),
}

impl View for Step {
    type V = StepView;

    open spec fn view(&self) -> StepView {
        match self {
            Step::Send(c, r) => StepView::Send(*c, r@),
            Step::Finished(Ok(o)) => StepView::Finished(Ok(o@)),
            Step::Finished(Err(e)) => StepView::Finished(Err(e@)),
        }
    }
}

/// The GET endpoint of a read operation.
pub open spec fn read_endpoint(what: Reading) -> Endpoint {
    match what {
        Reading::Status => Endpoint::PanelCondGet,
        Reading::Devices => Endpoint::DeviceListGet,
    }
}

/// The POST that changes the mode of an area, with a token.
pub open spec fn post_request(area: Area, mode: Mode, token: Seq<char>) -> RequestView {
    RequestView::ChangeMode { mode: mode.spec_code(), area: area.spec_code(), token }
}

/// The first call and request of an operation, given the cached token.
pub open spec fn spec_start(token: Option<Seq<char>>, op: Operation) -> (Call, RequestView) {
    match op {
        Operation::GetStatus => (
            Call::Read { what: Reading::Status, retry: true },
            RequestView::Get(Endpoint::PanelCondGet),
        ),
        Operation::ListDevices => (
            Call::Read { what: Reading::Devices, retry: true },
            RequestView::Get(Endpoint::DeviceListGet),
        ),
        Operation::ChangeMode { area, mode } => match token {
            Some(t) => (Call::Post { area, mode, retry: true }, post_request(area, mode, t)),
            None => (
                Call::FetchToken { area, mode, post_retry: true },
                RequestView::Get(Endpoint::TokenGet),
            ),
        },
    }
}

/// What a read operation's reply means.
pub open spec fn spec_read_result(what: Reading, status: u16, body: Seq<char>) -> Result<
    OutcomeView,
    ErrorView,
> {
    match what {
        Reading::Status => match spec_decode_reply::<panel::Status>(status, body) {
            Ok(ms) => Ok(OutcomeView::Status(spec_modes(ms.0, ms.1))),
            Err(e) => Err(e),
        },
        Reading::Devices => match spec_decode_reply::<List>(status, body) {
            Ok(ds) => Ok(OutcomeView::Devices(ds)),
            Err(e) => Err(e),
        },
    }
}

/// What the reply to a token fetch or to a POST means: the envelope's
/// message on success.
pub open spec fn spec_envelope_result(status: u16, body: Seq<char>) -> Result<Seq<char>, ErrorView> {
    match spec_decode_reply::<Response>(status, body) {
        Ok(v) => spec_unwrap_envelope(v),
        Err(e) => Err(e),
    }
}

/// The cached token after a reply, and what follows the reply.
///
/// A failed request ends the operation. An expired session is retried once
/// per operation: a read sends its GET again; a POST drops the cached
/// token, fetches a fresh one and posts again. Any other error, an expired
/// session met by a token fetch, and an expired session once the retry is
/// used, end the operation.
pub open spec fn spec_resume(token: Option<Seq<char>>, call: Call, reply: ReplyView) -> (
    Option<Seq<char>>,
    StepView,
) {
    match reply {
        ReplyView::Failed(e) => (token, StepView::Finished(Err(e))),
        ReplyView::Http { status, body } => match call {
            Call::Read { what, retry } => {
                let r = spec_read_result(what, status, body);
                if retry && r == Err::<OutcomeView, ErrorView>(ErrorView::SessionTimeout) {
                    (
                        token,
                        StepView::Send(
                            Call::Read { what, retry: false },
                            RequestView::Get(read_endpoint(what)),
                        ),
                    )
                } else {
                    (token, StepView::Finished(r))
                }
            },
            Call::FetchToken { area, mode, post_retry } => {
                match spec_envelope_result(status, body) {
                    Ok(t) => (
                        Some(t),
                        StepView::Send(
                            Call::Post { area, mode, retry: post_retry },
                            post_request(area, mode, t),
                        ),
                    ),
                    Err(e) => (token, StepView::Finished(Err(e))),
                }
            },
            Call::Post { area, mode, retry } => {
                match spec_envelope_result(status, body) {
                    Ok(_) => (token, StepView::Finished(Ok(OutcomeView::ModeChanged))),
                    Err(e) => if retry && e == ErrorView::SessionTimeout {
                        (
                            None,
                            StepView::Send(
                                Call::FetchToken { area, mode, post_retry: false },
                                RequestView::Get(Endpoint::TokenGet),
                            ),
                        )
                    } else {
                        (token, StepView::Finished(Err(e)))
                    },
                }
            },
        },
    }
}

/// How many more GETs of a read an operation may send after the reply
/// that `call` waits for.
pub open spec fn reads_left(call: Call) -> nat {
    match call {
        Call::Read { retry: true, .. } => 1,
        _ => 0,
    }
}

/// How many more token fetches an operation may send after the reply that
/// `call` waits for.
pub open spec fn fetches_left(call: Call) -> nat {
    match call {
        Call::Read { .. } => 0,
        Call::FetchToken { post_retry, .. } => if post_retry {
            1
        } else {
            0
        },
        Call::Post { retry, .. } => if retry {
            1
        } else {
            0
        },
    }
}

/// How many more POSTs an operation may send after the reply that `call`
/// waits for.
pub open spec fn posts_left(call: Call) -> nat {
    match call {
        Call::Read { .. } => 0,
        Call::FetchToken { post_retry, .. } => if post_retry {
            2
        } else {
            1
        },
        Call::Post { retry, .. } => if retry {
            1
        } else {
            0
        },
    }
}

/// Whether a request is a token fetch.
pub open spec fn is_token_fetch(r: RequestView) -> bool {
    r == RequestView::Get(Endpoint::TokenGet)
}

/// Whether a request is a POST of a mode change.
pub open spec fn is_post(r: RequestView) -> bool {
    r is ChangeMode
}

/// The retry budget: one extra attempt per operation, never more.
///
/// A read sends its GET at most twice, and nothing else. A mode change sends
/// at most two token fetches and at most two POSTs, and no other GET. Each
/// request that follows a reply uses up one unit of the count of its kind
/// and leaves the other counts as they were or lower, so every operation
/// ends.
pub proof fn lemma_retry_budget(token: Option<Seq<char>>, op: Operation, call: Call, reply: ReplyView)
    ensures
        ({
            let (first, request) = spec_start(token, op);
            match op {
                Operation::ChangeMode { .. } => {
                    &&& reads_left(first) == 0
                    &&& fetches_left(first) + (if is_token_fetch(request) {
                        1nat
                    } else {
                        0nat
                    }) <= 2
                    &&& posts_left(first) + (if is_post(request) {
                        1nat
                    } else {
                        0nat
                    }) <= 2
                    &&& (is_token_fetch(request) || is_post(request))
                },
                _ => {
                    &&& reads_left(first) == 1
                    &&& fetches_left(first) == 0
                    &&& posts_left(first) == 0
                    &&& !is_token_fetch(request) && !is_post(request)
                },
            }
        }),
        spec_resume(token, call, reply).1 matches StepView::Send(next, request) ==> {
            &&& is_token_fetch(request) ==> fetches_left(next) + 1 == fetches_left(call)
                && posts_left(next) <= posts_left(call) && reads_left(next) <= reads_left(call)
            &&& is_post(request) ==> posts_left(next) + 1 == posts_left(call) && fetches_left(next)
                <= fetches_left(call) && reads_left(next) <= reads_left(call)
            &&& !is_token_fetch(request) && !is_post(request) ==> reads_left(next) + 1
                == reads_left(call) && fetches_left(next) <= fetches_left(call) && posts_left(
                next,
            ) <= posts_left(call)
        },
{
}

/// With a token cached, a mode change posts at once; a reply that the panel
/// accepts keeps the token cached, so the next mode change posts at once
/// too: no token is fetched.
pub proof fn lemma_cached_token_is_reused(
    t: Seq<char>,
    area: Area,
    mode: Mode,
    status: u16,
    body: Seq<char>,
    next_area: Area,
    next_mode: Mode,
)
    requires
        spec_envelope_result(status, body) is Ok,
    ensures
        spec_start(Some(t), Operation::ChangeMode { area, mode }) == (
            Call::Post { area, mode, retry: true },
            post_request(area, mode, t),
        ),
        spec_resume(Some(t), Call::Post { area, mode, retry: true }, ReplyView::Http { status, body })
            == (Some(t), StepView::Finished(Ok(OutcomeView::ModeChanged))),
        spec_start(
            spec_resume(
                Some(t),
                Call::Post { area, mode, retry: true },
                ReplyView::Http { status, body },
            ).0,
            Operation::ChangeMode { area: next_area, mode: next_mode },
        ).1 == post_request(next_area, next_mode, t),
{
}

/// Reads neither need nor change the cached token.
pub proof fn lemma_reads_keep_token(
    token: Option<Seq<char>>,
    what: Reading,
    retry: bool,
    reply: ReplyView,
)
    ensures
        spec_resume(token, Call::Read { what, retry }, reply).0 == token,
{
}

/// Refused credentials end every operation at once, with no retry.
pub proof fn lemma_unauthorized_is_final(token: Option<Seq<char>>, call: Call, body: Seq<char>)
    ensures
        spec_resume(token, call, ReplyView::Http { status: 401, body }) == (
            token,
            StepView::Finished(Err(ErrorView::Unauthorized)),
        ),
{
}

/// A device list reply in which one record names a kind code that stands
/// for no kind of device ends the listing with a deserialization error: no
/// partial list comes back, and the GET is not sent again.
pub proof fn lemma_unknown_device_kind_fails_listing(
    token: Option<Seq<char>>,
    retry: bool,
    status: u16,
    body: Seq<char>,
    ms: Members,
    rt: Seq<char>,
    texts: Seq<Seq<char>>,
    i: int,
    dms: Members,
    kt: Seq<char>,
    c: u64,
)
    requires
        is_success(status),
        !occurs_in(LOGIN_PATH@, body),
        spec_object(without_tabs(body)) == Ok::<Members, DecodeError>(ms),
        spec_member(ms, Field::Rows) == Ok::<Seq<char>, DecodeError>(rt),
        spec_array(rt) == Ok::<Seq<Seq<char>>, DecodeError>(texts),
        0 <= i < texts.len(),
        spec_object(texts[i]) == Ok::<Members, DecodeError>(dms),
        spec_member(dms, Field::Kind) == Ok::<Seq<char>, DecodeError>(kt),
        spec_code(kt) == Ok::<u64, DecodeError>(c),
        forall|k: DeviceKind| #[trigger] k.spec_code() != c,
    ensures
        spec_decode_reply::<List>(status, body) matches Err(ErrorView::Deserialize(_)),
        spec_resume(
            token,
            Call::Read { what: Reading::Devices, retry },
            ReplyView::Http { status, body },
        ) matches (t, StepView::Finished(Err(ErrorView::Deserialize(_)))) && t == token,
{
    lemma_unknown_kind_fails_the_record(texts[i], dms, kt, c);
    lemma_devices_fail_if_one_fails(texts, i);
}

/// The client's session: the token that the panel issued, if one is cached.
///
/// [`Session::resume`] takes the session by `&mut`, so concurrent operations
/// on one client cannot race to drop and fetch the token.
pub struct Session {
    token: Option<String>,
}

impl View for Session {
    type V = Option<Seq<char>>;

    closed spec fn view(&self) -> Option<Seq<char>> {
        match self.token {
            Some(t) => Some(t@),
            None => None,
        }
    }
}

fn post(area: Area, mode: Mode, token: String) -> (r: Request)
    ensures
        r@ == post_request(area, mode, token@),
{
    Request::ChangeMode { mode: mode.code(), area: area.code(), token }
}

/// Reads the reply to a token fetch or to a POST: the envelope's message on success.
fn envelope_result(status: u16, body: &str) -> (r: Result<String, Error>)
    ensures
        crate::errors::outcome(r) == spec_envelope_result(status, body@),
{
    match decode_envelope::<Response>(status, body) {
        Ok(v) => v.ok(),
        Err(e) => Err(e),
    }
}

fn read_result(what: Reading, status: u16, body: &str) -> (r: Result<Outcome, Error>)
    ensures
        crate::errors::outcome(r) == spec_read_result(what, status, body@),
{
    match what {
        Reading::Status => match decode_envelope::<panel::Status>(status, body) {
            Ok(s) => match s.ok() {
                Ok(modes) => Ok(Outcome::Status(modes)),
                Err(e) => Err(e),
            },
            Err(e) => Err(e),
        },
        Reading::Devices => match decode_envelope::<List>(status, body) {
            Ok(l) => match l.ok() {
                Ok(ds) => Ok(Outcome::Devices(ds)),
                Err(e) => Err(e),
            },
            Err(e) => Err(e),
        },
    }
}

impl Session {
    /// A session with no token cached.
    pub fn new() -> (s: Session)
        ensures
            s@ == None::<Seq<char>>,
    {
        Session { token: None }
    }

    /// Drops the cached token.
    pub fn invalidate(&mut self)
        ensures
            final(self)@ == None::<Seq<char>>,
    {
        self.token = None;
    }

    /// Caches a token that the panel issued.
    fn cache(&mut self, token: String)
        ensures
            final(self)@ == Some(token@),
    {
        self.token = Some(token);
    }

    /// Whether a token is cached.
    pub fn has_token(&self) -> (r: bool)
        ensures
            r == (self@ is Some),
    {
        self.token.is_some()
    }

    /// Starts an operation: the call to hand back with the reply, and the
    /// first request. A mode change posts at once with a cached token, and
    /// fetches one first when none is cached; reads need no token.
    pub fn start(&self, op: Operation) -> (r: (Call, Request))
        ensures
            (r.0, r.1@) == spec_start(self@, op),
    {
        match op {
            Operation::GetStatus => (
                Call::Read { what: Reading::Status, retry: true },
                Request::Get(Endpoint::PanelCondGet),
            ),
            Operation::ListDevices => (
                Call::Read { what: Reading::Devices, retry: true },
                Request::Get(Endpoint::DeviceListGet),
            ),
            Operation::ChangeMode { area, mode } => match &self.token {
                Some(t) => (Call::Post { area, mode, retry: true }, post(area, mode, t.clone())),
                None => (
                    Call::FetchToken { area, mode, post_retry: true },
                    Request::Get(Endpoint::TokenGet),
                ),
            },
        }
    }

    /// Takes the reply to the request of `call` and says what follows;
    /// caches a fetched token, and drops the cached one when a POST finds
    /// the session expired and retries.
    pub fn resume(&mut self, call: Call, reply: Reply) -> (r: Step)
        ensures
            (final(self)@, r@) == spec_resume(old(self)@, call, reply@),
    {
        let (status, body) = match reply {
            Reply::Failed(e) => return Step::Finished(Err(e)),
            Reply::Http { status, body } => (status, body),
        };
        match call {
            Call::Read { what, retry } => {
                let r = read_result(what, status, body.as_str());
                match r {
                    Err(e) => {
                        if retry && e.is_session_timeout() {
                            let endpoint = match what {
                                Reading::Status => Endpoint::PanelCondGet,
                                Reading::Devices => Endpoint::DeviceListGet,
                            };
                            Step::Send(Call::Read { what, retry: false }, Request::Get(endpoint))
                        } else {
                            Step::Finished(Err(e))
                        }
                    },
                    Ok(o) => Step::Finished(Ok(o)),
                }
            },
            Call::FetchToken { area, mode, post_retry } => {
                match envelope_result(status, body.as_str()) {
                    Ok(t) => {
                        self.cache(t.clone());
                        Step::Send(Call::Post { area, mode, retry: post_retry }, post(area, mode, t))
                    },
                    Err(e) => Step::Finished(Err(e)),
                }
            },
            Call::Post { area, mode, retry } => {
                match envelope_result(status, body.as_str()) {
                    Ok(_) => Step::Finished(Ok(Outcome::ModeChanged)),
                    Err(e) => {
                        if retry && e.is_session_timeout() {
                            self.invalidate();
                            Step::Send(
                                Call::FetchToken { area, mode, post_retry: false },
                                Request::Get(Endpoint::TokenGet),
                            )
                        } else {
                            Step::Finished(Err(e))
                        }
                    },
                }
            },
        }
    }
}

} // verus!

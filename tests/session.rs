use alarmate::{
    Area, Call, Endpoint, Error, Mode, Operation, Outcome, Reply, Request, Session, Step,
};

const LOGIN_PAGE: &str = "<html><body><form action=\"/action/login\" method=\"post\"></form></body></html>";

fn http(status: u16, body: &str) -> Reply {
    Reply::Http { status, body: body.to_string() }
}

/// Runs one operation against canned replies; returns the requests sent and the result.
fn run(
    session: &mut Session,
    op: Operation,
    replies: Vec<Reply>,
) -> (Vec<Request>, Option<Result<Outcome, Error>>) {
    let (mut call, first): (Call, Request) = session.start(op);
    let mut sent = Vec::new();
    let mut next = Some(first);
    let mut replies = replies.into_iter();
    while let Some(request) = next.take() {
        sent.push(request);
        let Some(reply) = replies.next() else { return (sent, None) };
        match session.resume(call, reply) {
            Step::Send(c, r) => {
                call = c;
                next = Some(r);
            }
            Step::Finished(result) => return (sent, Some(result)),
        }
    }
    (sent, None)
}

fn token_fetches(sent: &[Request]) -> usize {
    sent.iter().filter(|r| matches!(r, Request::Get(Endpoint::TokenGet))).count()
}

fn posts(sent: &[Request]) -> Vec<(u8, u8, String)> {
    sent.iter()
        .filter_map(|r| match r {
            Request::ChangeMode { mode, area, token } => Some((*mode, *area, token.clone())),
            _ => None,
        })
        .collect()
}

#[test]
fn get_status_retries_once_after_login_redirect() {
    let mut session = Session::new();
    let (sent, result) = run(
        &mut session,
        Operation::GetStatus,
        vec![
            http(200, LOGIN_PAGE),
            http(200, r#"{"forms":{"pcondform1":{"mode":0},"pcondform2":{"mode":1}}}"#),
        ],
    );
    assert_eq!(sent.len(), 2);
    assert!(sent.iter().all(|r| matches!(r, Request::Get(Endpoint::PanelCondGet))));
    match result {
        Some(Ok(Outcome::Status(modes))) => {
            assert_eq!(modes, ((Area::Area1, Mode::Disarmed), (Area::Area2, Mode::Armed)))
        }
        other => panic!("unexpected result {other:?}"),
    }
    assert!(!session.has_token());
}

#[test]
fn change_mode_refetches_token_after_session_timeout() {
    let mut session = Session::new();
    let (sent, result) = run(
        &mut session,
        Operation::ChangeMode { area: Area::Area1, mode: Mode::Armed },
        vec![
            http(200, r#"{"result":1,"message":"tok1"}"#),
            http(200, LOGIN_PAGE),
            http(200, r#"{"result":1,"message":"tok2"}"#),
            http(200, r#"{"result":1,"message":"ok"}"#),
        ],
    );
    assert!(matches!(result, Some(Ok(Outcome::ModeChanged))));
    assert_eq!(token_fetches(&sent), 2);
    assert_eq!(
        posts(&sent),
        vec![(1, 1, "tok1".to_string()), (1, 1, "tok2".to_string())]
    );
    assert_eq!(sent.len(), 4);
    assert!(session.has_token());
}

#[test]
fn cached_token_is_reused_by_later_mode_changes() {
    let mut session = Session::new();
    let (sent, result) = run(
        &mut session,
        Operation::ChangeMode { area: Area::Area2, mode: Mode::Home1 },
        vec![
            http(200, r#"{"result":1,"message":"tok9"}"#),
            http(200, r#"{"result":1,"message":"ok"}"#),
        ],
    );
    assert!(matches!(result, Some(Ok(Outcome::ModeChanged))));
    assert_eq!(token_fetches(&sent), 1);
    for mode in [Mode::Disarmed, Mode::Home3] {
        let (sent, result) = run(
            &mut session,
            Operation::ChangeMode { area: Area::Area1, mode },
            vec![http(200, r#"{"result":1,"message":"ok"}"#)],
        );
        assert!(matches!(result, Some(Ok(Outcome::ModeChanged))));
        assert_eq!(token_fetches(&sent), 0);
        assert_eq!(posts(&sent), vec![(mode.code(), 1, "tok9".to_string())]);
    }
}

#[test]
fn second_session_timeout_on_post_is_final() {
    let mut session = Session::new();
    let (sent, result) = run(
        &mut session,
        Operation::ChangeMode { area: Area::Area1, mode: Mode::Disarmed },
        vec![
            http(200, r#"{"result":1,"message":"a"}"#),
            http(200, LOGIN_PAGE),
            http(200, r#"{"result":1,"message":"b"}"#),
            http(200, LOGIN_PAGE),
            http(200, r#"{"result":1,"message":"ok"}"#),
        ],
    );
    assert!(matches!(result, Some(Err(Error::SessionTimeout))));
    assert_eq!(sent.len(), 4);
}

#[test]
fn read_retry_is_used_once() {
    let mut session = Session::new();
    let (sent, result) = run(
        &mut session,
        Operation::ListDevices,
        vec![http(200, LOGIN_PAGE), http(200, LOGIN_PAGE), http(200, r#"{"senrows":[]}"#)],
    );
    assert!(matches!(result, Some(Err(Error::SessionTimeout))));
    assert_eq!(sent.len(), 2);
    assert!(sent.iter().all(|r| matches!(r, Request::Get(Endpoint::DeviceListGet))));
}

#[test]
fn session_timeout_on_token_fetch_is_final() {
    let mut session = Session::new();
    let (sent, result) = run(
        &mut session,
        Operation::ChangeMode { area: Area::Area2, mode: Mode::Home2 },
        vec![
            http(200, LOGIN_PAGE),
            http(200, r#"{"result":1,"message":"t"}"#),
            http(200, r#"{"result":1,"message":"ok"}"#),
        ],
    );
    assert!(matches!(result, Some(Err(Error::SessionTimeout))));
    assert_eq!(sent.len(), 1);
    assert!(!session.has_token());
}

#[test]
fn session_timeout_on_refetch_after_post_retry_is_final() {
    let mut session = Session::new();
    let (sent, result) = run(
        &mut session,
        Operation::ChangeMode { area: Area::Area1, mode: Mode::Armed },
        vec![
            http(200, r#"{"result":1,"message":"tok1"}"#),
            http(200, LOGIN_PAGE),
            http(200, LOGIN_PAGE),
            http(200, r#"{"result":1,"message":"tok2"}"#),
            http(200, r#"{"result":1,"message":"ok"}"#),
        ],
    );
    assert!(matches!(result, Some(Err(Error::SessionTimeout))));
    assert_eq!(token_fetches(&sent), 2);
    assert_eq!(posts(&sent).len(), 1);
}

#[test]
fn unauthorized_is_not_retried() {
    let mut session = Session::new();
    let (sent, result) =
        run(&mut session, Operation::GetStatus, vec![http(401, LOGIN_PAGE), http(200, "{}")]);
    assert!(matches!(result, Some(Err(Error::Unauthorized))));
    assert_eq!(sent.len(), 1);
}

#[test]
fn failed_requests_end_the_operation() {
    let mut session = Session::new();
    let (sent, result) = run(
        &mut session,
        Operation::ChangeMode { area: Area::Area1, mode: Mode::Armed },
        vec![Reply::Failed(Error::Http("connection refused".to_string()))],
    );
    assert_eq!(result.unwrap().err(), Some(Error::Http("connection refused".to_string())));
    assert_eq!(sent.len(), 1);
    let (_, result) = run(
        &mut session,
        Operation::ListDevices,
        vec![Reply::Failed(Error::InvalidHeader)],
    );
    assert_eq!(result.unwrap().err(), Some(Error::InvalidHeader));
}

#[test]
fn panel_error_on_token_fetch_ends_the_operation() {
    let mut session = Session::new();
    let (sent, result) = run(
        &mut session,
        Operation::ChangeMode { area: Area::Area1, mode: Mode::Armed },
        vec![http(200, r#"{"result":0,"message":"denied"}"#)],
    );
    assert_eq!(result.unwrap().err(), Some(Error::Panel("denied".to_string())));
    assert_eq!(sent.len(), 1);
    assert!(!session.has_token());
}

#[test]
fn panel_error_on_post_keeps_the_token() {
    let mut session = Session::new();
    let (_, result) = run(
        &mut session,
        Operation::ChangeMode { area: Area::Area1, mode: Mode::Armed },
        vec![
            http(200, r#"{"result":1,"message":"tok"}"#),
            http(200, r#"{"result":0,"message":"zone open"}"#),
        ],
    );
    assert_eq!(result.unwrap().err(), Some(Error::Panel("zone open".to_string())));
    assert!(session.has_token());
}

#[test]
fn list_devices_returns_devices() {
    let mut session = Session::new();
    let body = r#"{"senrows":[{"sid":"RF:1","type":"9","name":"Hall PIR","area":2,"status_ex":"1","cond_ok":1,"battery_ok":0,"tamper_ok":1}]}"#;
    let (sent, result) = run(&mut session, Operation::ListDevices, vec![http(200, body)]);
    assert_eq!(sent.len(), 1);
    match result {
        Some(Ok(Outcome::Devices(ds))) => {
            assert_eq!(ds.len(), 1);
            assert_eq!(ds[0].name(), "Hall PIR");
            assert_eq!(ds[0].kind(), alarmate::DeviceKind::MotionDetector);
            assert_eq!(ds[0].area(), Area::Area2);
            assert_eq!(ds[0].state(), alarmate::State::Open);
        }
        other => panic!("unexpected result {other:?}"),
    }
}

#[test]
fn endpoints_name_their_actions() {
    assert_eq!(Endpoint::TokenGet.action(), "tokenGet");
    assert_eq!(Endpoint::PanelCondGet.action(), "panelCondGet");
    assert_eq!(Endpoint::DeviceListGet.action(), "deviceListGet");
    assert_eq!(Endpoint::PanelCondPost.action(), "panelCondPost");
}

#[test]
fn invalidate_drops_the_cached_token() {
    let mut session = Session::new();
    let (_, result) = run(
        &mut session,
        Operation::ChangeMode { area: Area::Area1, mode: Mode::Armed },
        vec![
            http(200, r#"{"result":1,"message":"tok"}"#),
            http(200, r#"{"result":1,"message":"ok"}"#),
        ],
    );
    assert!(matches!(result, Some(Ok(Outcome::ModeChanged))));
    assert!(session.has_token());
    session.invalidate();
    assert!(!session.has_token());
    let (sent, _) = run(
        &mut session,
        Operation::ChangeMode { area: Area::Area1, mode: Mode::Armed },
        vec![],
    );
    assert!(matches!(sent[0], Request::Get(Endpoint::TokenGet)));
}

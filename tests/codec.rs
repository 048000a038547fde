use alarmate::panel::Status as Condition;
use alarmate::response::Response;
use alarmate::result::Result as LegacyEnvelope;
use alarmate::{
    decode_envelope, ApiResponse, Area, DecodeError, Device, DeviceKind, Error, Field, List, Mode,
    State, Status,
};

const DEVICE: &str = r#"{"sid":"RF:0a1b","type":4,"name":"Front door","area":"1","status_ex":0,"cond_ok":"1","battery_ok":1,"tamper_ok":0}"#;

#[test]
fn envelope_success_carries_message() {
    let r = decode_envelope::<Response>(200, r#"{"result":1,"message":"tok123"}"#).unwrap();
    assert_eq!(r.result(), Status::Success);
    assert_eq!(r.message(), "tok123");
    assert_eq!(r.ok(), Ok("tok123".to_string()));
}

#[test]
fn envelope_error_unwraps_to_panel_error() {
    let r = decode_envelope::<Response>(200, r#"{"result":0,"message":"bad creds"}"#).unwrap();
    assert_eq!(r.result(), Status::Error);
    assert_eq!(r.ok(), Err(Error::Panel("bad creds".to_string())));
}

#[test]
fn legacy_envelope_unwraps_the_same_way() {
    let ok = decode_envelope::<LegacyEnvelope>(200, r#"{"result":1,"message":"done"}"#).unwrap();
    assert_eq!(ok.ok(), Ok("done".to_string()));
    let bad = decode_envelope::<LegacyEnvelope>(200, r#"{"result":0,"message":"no"}"#).unwrap();
    assert_eq!(bad.ok(), Err(Error::Panel("no".to_string())));
}

#[test]
fn unauthorized_whatever_the_body() {
    for body in [r#"{"result":1,"message":"tok123"}"#, "", "<html>/action/login</html>", "junk"] {
        let r = decode_envelope::<Response>(401, body);
        assert!(matches!(r, Err(Error::Unauthorized)), "body {body:?}");
    }
}

#[test]
fn login_redirect_is_session_timeout() {
    let body = "<html><head></head><body><a href=\"/action/login\">Login</a></body></html>";
    assert!(matches!(decode_envelope::<Response>(200, body), Err(Error::SessionTimeout)));
    assert!(matches!(decode_envelope::<Condition>(200, body), Err(Error::SessionTimeout)));
    assert!(matches!(decode_envelope::<List>(200, body), Err(Error::SessionTimeout)));
}

#[test]
fn tabs_between_tokens_are_stripped() {
    let r = decode_envelope::<Response>(200, "{\t\"result\":\t1,\t\"message\":\t\"ok\"\t}").unwrap();
    assert_eq!(r.message(), "ok");
}

#[test]
fn tabs_inside_strings_are_stripped_too() {
    let r = decode_envelope::<Response>(200, "{\"result\":1,\"message\":\"a\tb\"}").unwrap();
    assert_eq!(r.message(), "ab");
}

#[test]
fn other_failure_status_is_unexpected() {
    let r = decode_envelope::<Response>(500, "internal\terror");
    assert_eq!(
        r.err(),
        Some(Error::UnexpectedResponse { status: 500, body: "internal\terror".to_string() })
    );
    assert!(matches!(
        decode_envelope::<Response>(302, ""),
        Err(Error::UnexpectedResponse { status: 302, .. })
    ));
}

#[test]
fn malformed_body_is_deserialize_error() {
    assert_eq!(
        decode_envelope::<Response>(200, "not json").err(),
        Some(Error::Deserialize(DecodeError::NotAnObject))
    );
    assert_eq!(
        decode_envelope::<Response>(200, r#"{"result":1}"#).err(),
        Some(Error::Deserialize(DecodeError::MissingField(Field::Message)))
    );
    assert_eq!(
        decode_envelope::<Response>(200, r#"{"result":1,"message":5}"#).err(),
        Some(Error::Deserialize(DecodeError::NotAString))
    );
    assert_eq!(
        decode_envelope::<Response>(200, r#"{"result":7,"message":"x"}"#).err(),
        Some(Error::Deserialize(DecodeError::UnknownCode(7)))
    );
    assert_eq!(
        decode_envelope::<Response>(200, r#"{"result":true,"message":"x"}"#).err(),
        Some(Error::Deserialize(DecodeError::NotANumber))
    );
}

#[test]
fn codes_may_come_as_numeric_strings() {
    let r = decode_envelope::<Response>(200, r#"{"result":"1","message":"x"}"#).unwrap();
    assert_eq!(r.result(), Status::Success);
    assert_eq!(Mode::decode("\"2\""), Ok(Mode::Home1));
    assert_eq!(Mode::decode("\"+3\""), Ok(Mode::Home2));
    assert_eq!(Mode::decode("\"-1\""), Err(DecodeError::NotANumber));
    assert_eq!(Mode::decode("-1"), Err(DecodeError::NotANumber));
    assert_eq!(Mode::decode("1.0"), Err(DecodeError::NotANumber));
    assert_eq!(Mode::decode("\"\""), Err(DecodeError::NotANumber));
    assert_eq!(Mode::decode("\"99999999999999999999\""), Err(DecodeError::NotANumber));
    assert_eq!(Mode::decode(" 2\n"), Ok(Mode::Home1));
    assert_eq!(Mode::decode("02"), Err(DecodeError::NotANumber));
    assert_eq!(Mode::decode("+2"), Err(DecodeError::NotANumber));
    assert_eq!(Mode::decode("2e0"), Err(DecodeError::NotANumber));
    assert_eq!(Mode::decode("0"), Ok(Mode::Disarmed));
}

#[test]
fn mode_codes_round_trip() {
    for c in 0u64..=4 {
        let m = Mode::decode(&c.to_string()).unwrap();
        assert_eq!(m.code() as u64, c);
        let m = Mode::decode(&format!("\"{c}\"")).unwrap();
        assert_eq!(m.code() as u64, c);
        assert_eq!(Mode::from_code(c), Some(m));
    }
    assert_eq!(Mode::decode("5"), Err(DecodeError::UnknownCode(5)));
}

#[test]
fn unknown_device_kind_fails() {
    assert_eq!(DeviceKind::from_code(999), None);
    assert_eq!(DeviceKind::decode("999"), Err(DecodeError::UnknownCode(999)));
    assert_eq!(DeviceKind::decode("\"999\""), Err(DecodeError::UnknownCode(999)));
    assert_eq!(DeviceKind::decode("1"), Err(DecodeError::UnknownCode(1)));
    assert_eq!(DeviceKind::decode("93"), Ok(DeviceKind::Shocksensor));
    let body = DEVICE.replace(r#""type":4"#, r#""type":999"#);
    let r = decode_envelope::<List>(200, &format!(r#"{{"senrows":[{body}]}}"#));
    assert_eq!(r.err(), Some(Error::Deserialize(DecodeError::UnknownCode(999))));
}

#[test]
fn enum_codes_are_the_wire_numbers() {
    assert_eq!(Area::Area1.code(), 1);
    assert_eq!(Area::Area2.code(), 2);
    assert_eq!(Area::from_code(0), None);
    assert_eq!(Status::Error.code(), 0);
    assert_eq!(Status::Success.code(), 1);
    assert_eq!(State::Open.code(), 1);
    assert_eq!(State::from_code(0), Some(State::Closed));
    assert_eq!(DeviceKind::DoorContact.code(), 4);
    assert_eq!(DeviceKind::ThermostatRcs_.code(), 71);
}

#[test]
fn condition_envelope_gives_both_modes() {
    let body = r#"{"forms":{"pcondform1":{"mode":0},"pcondform2":{"mode":"1"}}}"#;
    let c = decode_envelope::<Condition>(200, body).unwrap();
    assert_eq!(c.ok(), Ok(((Area::Area1, Mode::Disarmed), (Area::Area2, Mode::Armed))));
    let missing = r#"{"forms":{"pcondform1":{"mode":0}}}"#;
    assert_eq!(
        decode_envelope::<Condition>(200, missing).err(),
        Some(Error::Deserialize(DecodeError::MissingField(Field::Form2)))
    );
}

#[test]
fn device_list_is_decoded_in_order() {
    let second = DEVICE.replace("RF:0a1b", "RF:ffff").replace("Front door", "Hall");
    let body = format!("{{\"senrows\":[{DEVICE},\t{second}],\"extra\":null}}");
    let devices = decode_envelope::<List>(200, &body).unwrap().ok().unwrap();
    assert_eq!(devices.len(), 2);
    let d: &Device = &devices[0];
    assert_eq!(d.sid(), "RF:0a1b");
    assert_eq!(d.kind(), DeviceKind::DoorContact);
    assert_eq!(d.name(), "Front door");
    assert_eq!(d.area(), Area::Area1);
    assert_eq!(d.state(), State::Closed);
    assert_eq!(d.condition(), Status::Success);
    assert_eq!(d.battery(), Status::Success);
    assert_eq!(d.tamper(), Status::Error);
    assert_eq!(devices[1].sid(), "RF:ffff");
    assert_eq!(devices[1].name(), "Hall");
}

#[test]
fn device_list_errors() {
    assert_eq!(
        decode_envelope::<List>(200, r#"{"senrows":{}}"#).err(),
        Some(Error::Deserialize(DecodeError::NotAnArray))
    );
    assert_eq!(
        decode_envelope::<List>(200, r#"{"rows":[]}"#).err(),
        Some(Error::Deserialize(DecodeError::MissingField(Field::Rows)))
    );
    let empty = decode_envelope::<List>(200, r#"{"senrows":[]}"#).unwrap().ok().unwrap();
    assert!(empty.is_empty());
    let no_name = DEVICE.replace(r#""name":"Front door","#, "");
    assert_eq!(
        Device::decode(&no_name).err(),
        Some(DecodeError::MissingField(Field::Name))
    );
}

#[test]
fn decoders_read_members_not_raw_text() {
    let r = Response::decode(r#"  {"message":"m","result":1}  "#).unwrap();
    assert_eq!(r.message(), "m");
    let escaped = Response::decode(r#"{"result":1,"message":"a\"bA"}"#).unwrap();
    assert_eq!(escaped.message(), "a\"bA");
}

#[test]
fn session_timeout_is_recognised() {
    assert!(Error::SessionTimeout.is_session_timeout());
    assert!(!Error::Unauthorized.is_session_timeout());
    assert!(!Error::Panel("x".to_string()).is_session_timeout());
}

use vstd::prelude::*;

use crate::constants::{Area, DeviceKind, State, Status};
use crate::codec::ApiResponse;
use crate::errors::{decoded, DecodeError, Error, Field};
use crate::json::{
    array, member, object, spec_array, spec_member, spec_object, spec_text, text_of, texts_view,
};

verus! {

/// Holds information about a Lupusec Alarm / Smarthome device
#[derive(Debug)]
pub struct Device {
    sid: String,
    kind: DeviceKind,
    name: String,
    area: Area,
    state: State,
    condition: Status,
    battery: Status,
    tamper: Status,
}

pub struct DeviceView {
    pub sid: Seq<char>,
    pub kind: DeviceKind,
    pub name: Seq<char>,
    pub area: Area,
    pub state: State,
    pub condition: Status,
    pub battery: Status,
    pub tamper: Status,
}

impl View for Device {
    type V = DeviceView;

    closed spec fn view(&self) -> DeviceView {
        DeviceView {
            sid: self.sid@,
            kind: self.kind,
            name: self.name@,
            area: self.area,
            state: self.state,
            condition: self.condition,
            battery: self.battery,
            tamper: self.tamper,
        }
    }
}

/// The text member `f` among `ms`.
pub open spec fn text_member(ms: Seq<(Seq<char>, Seq<char>)>, f: Field) -> Result<Seq<char>, DecodeError> {
    match spec_member(ms, f) {
        Err(e) => Err(e),
        Ok(t) => spec_text(t),
    }
}

/// The status member `f` among `ms`.
pub open spec fn status_member(ms: Seq<(Seq<char>, Seq<char>)>, f: Field) -> Result<Status, DecodeError> {
    match spec_member(ms, f) {
        Err(e) => Err(e),
        Ok(t) => Status::spec_decode(t),
    }
}

/// The device record `{sid, type, name, area, status_ex, cond_ok,
/// battery_ok, tamper_ok}` among the members `ms`; the first member that
/// fails, in that order, gives the error.
pub open spec fn spec_device(ms: Seq<(Seq<char>, Seq<char>)>) -> Result<DeviceView, DecodeError> {
    let sid = text_member(ms, Field::Sid);
    let kind = match spec_member(ms, Field::Kind) {
        Err(e) => Err(e),
        Ok(t) => DeviceKind::spec_decode(t),
    };
    let name = text_member(ms, Field::Name);
    let area = match spec_member(ms, Field::Area) {
        Err(e) => Err(e),
        Ok(t) => Area::spec_decode(t),
    };
    let state = match spec_member(ms, Field::State) {
        Err(e) => Err(e),
        Ok(t) => State::spec_decode(t),
    };
    let condition = status_member(ms, Field::Condition);
    let battery = status_member(ms, Field::Battery);
    let tamper = status_member(ms, Field::Tamper);
    if sid is Err {
        Err(sid->Err_0)
    } else if kind is Err {
        Err(kind->Err_0)
    } else if name is Err {
        Err(name->Err_0)
    } else if area is Err {
        Err(area->Err_0)
    } else if state is Err {
        Err(state->Err_0)
    } else if condition is Err {
        Err(condition->Err_0)
    } else if battery is Err {
        Err(battery->Err_0)
    } else if tamper is Err {
        Err(tamper->Err_0)
    } else {
        Ok(
            DeviceView {
                sid: sid->Ok_0,
                kind: kind->Ok_0,
                name: name->Ok_0,
                area: area->Ok_0,
                state: state->Ok_0,
                condition: condition->Ok_0,
                battery: battery->Ok_0,
                tamper: tamper->Ok_0,
            },
        )
    }
}

/// Every device record written in `texts`, or the error of the first one
/// that fails.
pub open spec fn spec_devices(texts: Seq<Seq<char>>) -> Result<Seq<DeviceView>, DecodeError>
    decreases texts.len(),
{
    if texts.len() == 0 {
        Ok(Seq::empty())
    } else {
        match spec_devices(texts.drop_last()) {
            Err(e) => Err(e),
            Ok(ds) => match Device::spec_decode(texts.last()) {
                Err(e) => Err(e),
                Ok(d) => Ok(ds.push(d)),
            },
        }
    }
}

/// The device list envelope `{senrows: [device, ...]}` written in `text`.
pub open spec fn spec_decode_list(text: Seq<char>) -> Result<Seq<DeviceView>, DecodeError> {
    match spec_object(text) {
        Err(e) => Err(e),
        Ok(ms) => match spec_member(ms, Field::Rows) {
            Err(e) => Err(e),
            Ok(rt) => match spec_array(rt) {
                Err(e) => Err(e),
                Ok(texts) => spec_devices(texts),
            },
        },
    }
}

/// A list with a record that fails fails as a whole.
pub proof fn lemma_devices_fail_if_one_fails(texts: Seq<Seq<char>>, i: int)
    requires
        0 <= i < texts.len(),
        Device::spec_decode(texts[i]) is Err,
    ensures
        spec_devices(texts) is Err,
    decreases texts.len(),
{
    if i < texts.len() - 1 {
        assert(texts.drop_last()[i] == texts[i]);
        lemma_devices_fail_if_one_fails(texts.drop_last(), i);
    }
}

/// A record whose kind code stands for no kind of device fails to decode.
pub proof fn lemma_unknown_kind_fails_the_record(text: Seq<char>, dms: Seq<(Seq<char>, Seq<char>)>, kt: Seq<char>, c: u64)
    requires
        spec_object(text) == Ok::<Seq<(Seq<char>, Seq<char>)>, DecodeError>(dms),
        spec_member(dms, Field::Kind) == Ok::<Seq<char>, DecodeError>(kt),
        crate::json::spec_code(kt) == Ok::<u64, DecodeError>(c),
        forall|k: DeviceKind| #[trigger] k.spec_code() != c,
    ensures
        Device::spec_decode(text) is Err,
{
    crate::constants::lemma_unknown_device_kind_fails(kt, c);
}

/// Once a record fails, the records after it do not change the error.
proof fn lemma_devices_first_error(texts: Seq<Seq<char>>, k: int)
    requires
        0 <= k <= texts.len(),
        spec_devices(texts.take(k)) is Err,
    ensures
        spec_devices(texts) == spec_devices(texts.take(k)),
    decreases texts.len() - k,
{
    if k < texts.len() {
        assert(texts.take(k + 1).drop_last() == texts.take(k));
        lemma_devices_first_error(texts, k + 1);
    } else {
        assert(texts.take(k) == texts);
    }
}

fn decode_text_member(ms: &Vec<(String, String)>, f: Field) -> (r: Result<String, DecodeError>)
    ensures
        decoded(r) == text_member(crate::json::members_view(ms@), f),
{
    let t = member(ms, f)?;
    text_of(t.as_str())
}

fn decode_status_member(ms: &Vec<(String, String)>, f: Field) -> (r: Result<Status, DecodeError>)
    ensures
        r == status_member(crate::json::members_view(ms@), f),
{
    let t = member(ms, f)?;
    Status::decode(t.as_str())
}

impl Device {
    /// The sensor id
    pub fn sid(&self) -> (r: &str)
        ensures
            r@ == self@.sid,
    {
        self.sid.as_str()
    }

    /// The kind of device
    pub fn kind(&self) -> (r: DeviceKind)
        ensures
            r == self@.kind,
    {
        self.kind
    }

    /// The device's name
    pub fn name(&self) -> (r: &str)
        ensures
            r@ == self@.name,
    {
        self.name.as_str()
    }

    /// The area the device belongs to
    pub fn area(&self) -> (r: Area)
        ensures
            r == self@.area,
    {
        self.area
    }

    /// Whether the sensor is open or closed
    pub fn state(&self) -> (r: State)
        ensures
            r == self@.state,
    {
        self.state
    }

    /// The device's condition
    pub fn condition(&self) -> (r: Status)
        ensures
            r == self@.condition,
    {
        self.condition
    }

    /// The state of the device's battery
    pub fn battery(&self) -> (r: Status)
        ensures
            r == self@.battery,
    {
        self.battery
    }

    /// The state of the device's tamper contact
    pub fn tamper(&self) -> (r: Status)
        ensures
            r == self@.tamper,
    {
        self.tamper
    }

    /// The device record written in `text`.
    pub open spec fn spec_decode(text: Seq<char>) -> Result<DeviceView, DecodeError> {
        match spec_object(text) {
            Err(e) => Err(e),
            Ok(ms) => spec_device(ms),
        }
    }

    /// Reads the device record written in `text`.
    pub fn decode(text: &str) -> (r: Result<Device, DecodeError>)
        ensures
            decoded(r) == Device::spec_decode(text@),
    {
        let ms = object(text)?;
        let sid = decode_text_member(&ms, Field::Sid)?;
        let kind = DeviceKind::decode(member(&ms, Field::Kind)?.as_str())?;
        let name = decode_text_member(&ms, Field::Name)?;
        let area = Area::decode(member(&ms, Field::Area)?.as_str())?;
        let state = State::decode(member(&ms, Field::State)?.as_str())?;
        let condition = decode_status_member(&ms, Field::Condition)?;
        let battery = decode_status_member(&ms, Field::Battery)?;
        let tamper = decode_status_member(&ms, Field::Tamper)?;
        Ok(Device { sid, kind, name, area, state, condition, battery, tamper })
    }
}

/// The device list envelope `{senrows: [device, ...]}`.
#[derive(Debug)]
pub struct List {
    list: Vec<Device>,
}

pub open spec fn devices_view(v: Seq<Device>) -> Seq<DeviceView> {
    v.map_values(|d: Device| d@)
}

impl View for List {
    type V = Seq<DeviceView>;

    closed spec fn view(&self) -> Seq<DeviceView> {
        devices_view(self.list@)
    }
}

impl ApiResponse for List {
    open spec fn spec_decode(text: Seq<char>) -> Result<Seq<DeviceView>, DecodeError> {
        spec_decode_list(text)
    }

    /// Reads the device list envelope written in `text`.
    fn decode(text: &str) -> (r: Result<List, DecodeError>)
    {
        let ms = object(text)?;
        let rt = member(&ms, Field::Rows)?;
        let texts = array(rt.as_str())?;
        let ghost all = texts_view(texts@);
        let mut list: Vec<Device> = Vec::new();
        let mut i: usize = 0;
        assert(List::spec_decode(text@) == spec_devices(all));
        assert(all.take(0) == Seq::<Seq<char>>::empty());
        assert(devices_view(list@) == Seq::<DeviceView>::empty());
        while i < texts.len()
            invariant
                i <= texts@.len(),
                all == texts_view(texts@),
                List::spec_decode(text@) == spec_devices(all),
                spec_devices(all.take(i as int)) == Ok::<_, DecodeError>(devices_view(list@)),
            decreases texts@.len() - i,
        {
            assert(all.take(i + 1).drop_last() == all.take(i as int));
            assert(all.take(i + 1).last() == texts@[i as int]@);
            match Device::decode(texts[i].as_str()) {
                Ok(d) => {
                    let ghost before = list@;
                    let ghost dv = d@;
                    list.push(d);
                    assert(devices_view(list@) == devices_view(before).push(dv));
                },
                Err(e) => {
                    proof {
                        lemma_devices_first_error(all, i + 1);
                    }
                    return Err(e);
                },
            }
            i = i + 1;
        }
        assert(all.take(i as int) == all);
        Ok(List { list })
    }
}

impl List {

    /// The devices of the list.
    pub fn ok(self) -> (r: Result<Vec<Device>, Error>)
        ensures
            r matches Ok(v) && devices_view(v@) == self@,
    {
        Ok(self.list)
    }
}

} // verus!

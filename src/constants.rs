use vstd::prelude::*;

use crate::errors::DecodeError;
use crate::json::{code_of, spec_code};

verus! {

/// Possible modes of an area
#[derive(Clone, Copy, Debug, PartialEq, Eq, Structural)]
pub enum Mode {
    /// Disarmed
    Disarmed,
    /// Armed
    Armed,
    /// Home 1
    Home1,
    /// Home 2
    Home2,
    /// Home 3
    Home3,
}

impl View for Mode {
    type V = Mode;

    open spec fn view(&self) -> Mode {
        *self
    }
}

impl Mode {
    /// The number that stands for the mode on the wire.
    pub open spec fn spec_code(self) -> u8 {
        match self {
            Mode::Disarmed => 0,
            Mode::Armed => 1,
            Mode::Home1 => 2,
            Mode::Home2 => 3,
            Mode::Home3 => 4,
        }
    }

    /// The mode that a wire number stands for, if any.
    pub open spec fn spec_from_code(c: u64) -> Option<Mode> {
        if c == 0 {
            Some(Mode::Disarmed)
        } else if c == 1 {
            Some(Mode::Armed)
        } else if c == 2 {
            Some(Mode::Home1)
        } else if c == 3 {
            Some(Mode::Home2)
        } else if c == 4 {
            Some(Mode::Home3)
        } else {
            None
        }
    }

    pub fn code(&self) -> (r: u8)
        ensures
            r == self.spec_code(),
    {
        match self {
            Mode::Disarmed => 0,
            Mode::Armed => 1,
            Mode::Home1 => 2,
            Mode::Home2 => 3,
            Mode::Home3 => 4,
        }
    }

    /// The mode written in `text`: its code as a JSON number or as a
    /// JSON string, which must stand for a variant.
    pub open spec fn spec_decode(text: Seq<char>) -> Result<Mode, DecodeError> {
        match spec_code(text) {
            Ok(c) => match Mode::spec_from_code(c) {
                Some(v) => Ok(v),
                None => Err(DecodeError::UnknownCode(c)),
            },
            Err(e) => Err(e),
        }
    }

    pub fn decode(text: &str) -> (r: Result<Mode, DecodeError>)
        ensures
            r == Mode::spec_decode(text@),
    {
        let c = code_of(text)?;
        match Mode::from_code(c) {
            Some(v) => Ok(v),
            None => Err(DecodeError::UnknownCode(c)),
        }
    }

    pub fn from_code(c: u64) -> (r: Option<Mode>)
        ensures
            r == Mode::spec_from_code(c),
    {
        match c {
            0 => Some(Mode::Disarmed),
            1 => Some(Mode::Armed),
            2 => Some(Mode::Home1),
            3 => Some(Mode::Home2),
            4 => Some(Mode::Home3),
            _ => None,
        }
    }
}

/// Areas of an alarm panel
#[derive(Clone, Copy, Debug, PartialEq, Eq, Structural)]
pub enum Area {
    /// Area 1
    Area1,
    /// Area 2
    Area2,
}

impl View for Area {
    type V = Area;

    open spec fn view(&self) -> Area {
        *self
    }
}

impl Area {
    /// The number that stands for the area on the wire.
    pub open spec fn spec_code(self) -> u8 {
        match self {
            Area::Area1 => 1,
            Area::Area2 => 2,
        }
    }

    /// The area that a wire number stands for, if any.
    pub open spec fn spec_from_code(c: u64) -> Option<Area> {
        if c == 1 {
            Some(Area::Area1)
        } else if c == 2 {
            Some(Area::Area2)
        } else {
            None
        }
    }

    pub fn code(&self) -> (r: u8)
        ensures
            r == self.spec_code(),
    {
        match self {
            Area::Area1 => 1,
            Area::Area2 => 2,
        }
    }

    /// The area written in `text`: its code as a JSON number or as a
    /// JSON string, which must stand for a variant.
    pub open spec fn spec_decode(text: Seq<char>) -> Result<Area, DecodeError> {
        match spec_code(text) {
            Ok(c) => match Area::spec_from_code(c) {
                Some(v) => Ok(v),
                None => Err(DecodeError::UnknownCode(c)),
            },
            Err(e) => Err(e),
        }
    }

    pub fn decode(text: &str) -> (r: Result<Area, DecodeError>)
        ensures
            r == Area::spec_decode(text@),
    {
        let c = code_of(text)?;
        match Area::from_code(c) {
            Some(v) => Ok(v),
            None => Err(DecodeError::UnknownCode(c)),
        }
    }

    pub fn from_code(c: u64) -> (r: Option<Area>)
        ensures
            r == Area::spec_from_code(c),
    {
        match c {
            1 => Some(Area::Area1),
            2 => Some(Area::Area2),
            _ => None,
        }
    }
}

/// Possible status of an API response
#[derive(Clone, Copy, Debug, PartialEq, Eq, Structural)]
pub enum Status {
    /// Error
    Error,
    /// Success (sent as 1)
    Success,
}

impl View for Status {
    type V = Status;

    open spec fn view(&self) -> Status {
        *self
    }
}

impl Status {
    /// The number that stands for the status on the wire.
    pub open spec fn spec_code(self) -> u8 {
        match self {
            Status::Error => 0,
            Status::Success => 1,
        }
    }

    /// The status that a wire number stands for, if any.
    pub open spec fn spec_from_code(c: u64) -> Option<Status> {
        if c == 0 {
            Some(Status::Error)
        } else if c == 1 {
            Some(Status::Success)
        } else {
            None
        }
    }

    pub fn code(&self) -> (r: u8)
        ensures
            r == self.spec_code(),
    {
        match self {
            Status::Error => 0,
            Status::Success => 1,
        }
    }

    /// The status written in `text`: its code as a JSON number or as a
    /// JSON string, which must stand for a variant.
    pub open spec fn spec_decode(text: Seq<char>) -> Result<Status, DecodeError> {
        match spec_code(text) {
            Ok(c) => match Status::spec_from_code(c) {
                Some(v) => Ok(v),
                None => Err(DecodeError::UnknownCode(c)),
            },
            Err(e) => Err(e),
        }
    }

    pub fn decode(text: &str) -> (r: Result<Status, DecodeError>)
        ensures
            r == Status::spec_decode(text@),
    {
        let c = code_of(text)?;
        match Status::from_code(c) {
            Some(v) => Ok(v),
            None => Err(DecodeError::UnknownCode(c)),
        }
    }

    pub fn from_code(c: u64) -> (r: Option<Status>)
        ensures
            r == Status::spec_from_code(c),
    {
        match c {
            0 => Some(Status::Error),
            1 => Some(Status::Success),
            _ => None,
        }
    }
}

/// State of a binary sensor
#[derive(Clone, Copy, Debug, PartialEq, Eq, Structural)]
pub enum State {
    /// Closed
    Closed,
    /// Open
    Open,
}

impl View for State {
    type V = State;

    open spec fn view(&self) -> State {
        *self
    }
}

impl State {
    /// The number that stands for the state on the wire.
    pub open spec fn spec_code(self) -> u8 {
        match self {
            State::Closed => 0,
            State::Open => 1,
        }
    }

    /// The state that a wire number stands for, if any.
    pub open spec fn spec_from_code(c: u64) -> Option<State> {
        if c == 0 {
            Some(State::Closed)
        } else if c == 1 {
            Some(State::Open)
        } else {
            None
        }
    }

    pub fn code(&self) -> (r: u8)
        ensures
            r == self.spec_code(),
    {
        match self {
            State::Closed => 0,
            State::Open => 1,
        }
    }

    /// The state written in `text`: its code as a JSON number or as a
    /// JSON string, which must stand for a variant.
    pub open spec fn spec_decode(text: Seq<char>) -> Result<State, DecodeError> {
        match spec_code(text) {
            Ok(c) => match State::spec_from_code(c) {
                Some(v) => Ok(v),
                None => Err(DecodeError::UnknownCode(c)),
            },
            Err(e) => Err(e),
        }
    }

    pub fn decode(text: &str) -> (r: Result<State, DecodeError>)
        ensures
            r == State::spec_decode(text@),
    {
        let c = code_of(text)?;
        match State::from_code(c) {
            Some(v) => Ok(v),
            None => Err(DecodeError::UnknownCode(c)),
        }
    }

    pub fn from_code(c: u64) -> (r: Option<State>)
        ensures
            r == State::spec_from_code(c),
    {
        match c {
            0 => Some(State::Closed),
            1 => Some(State::Open),
            _ => None,
        }
    }
}

/// Every mode code decodes to a mode that encodes back to the same code.
pub proof fn lemma_mode_code_round_trip(c: u64)
    requires
        c <= 4,
    ensures
        Mode::spec_from_code(c) is Some,
        Mode::spec_from_code(c)->0.spec_code() == c,
{
}

/// Encoding a mode and decoding its code gives the mode back.
pub proof fn lemma_mode_round_trip(m: Mode)
    ensures
        Mode::spec_from_code(m.spec_code() as u64) == Some(m),
{
}

/// Enumeration of Lupusec Alarm & Smarthome devices (incomplete)
#[derive(Clone, Copy, Debug, PartialEq, Eq, Structural)]
pub enum DeviceKind {
    /// Remote Control
    RemoteControl1,
    /// Night Switch
    NightSwitch,
    /// Door Contact
    DoorContact,
    /// water sensor
    WaterSensor,
    /// Panic Button
    PanicButton1,
    /// Panic Button
    PanicButton2,
    /// KHL
    KHL,
    /// Motion Detector
    MotionDetector,
    /// outdoor motion detector
    OutdoorMotionDetector,
    /// Smoke / Heat detector
    SmokedetectorAndHeatDetector,
    /// GAS Detector
    GasDetector,
    /// CO Detector
    CoDetector,
    /// heat detector
    HeatDetector1,
    /// Keypad
    Keypad1,
    /// Tag Reader
    TagReader1,
    /// Keypad
    Keypad2,
    /// Keypad
    Keypad3,
    /// glass break sensor
    GlassBreakSensor,
    /// Temperature sensor
    TemperatureSensor1,
    /// Med Alarm Detectors
    MedAlarmDetectors,
    /// Mini indoor siren / status indicator
    MiniindoorsirenAndStatusIndicator,
    /// Siren
    Siren,
    /// Power Switch
    PowerSwitch1,
    /// Power Switch
    PowerSwitch2,
    /// Repeater
    Repeater,
    /// PIR Camera
    PirCamera,
    /// Out View
    OutView,
    /// Remote Control
    RemoteControl2,
    /// PCT
    PCT,
    /// Sensor Input
    SensorInput,
    /// Sudden Motion Sensor
    SuddenMotionSensor1,
    /// NT
    NT,
    /// UT
    UT,
    /// Keypad
    Keypad4,
    /// Tag Reader
    TagReader2,
    /// Glass break detector
    GlassBreakDetector,
    /// Temperature sensor
    TemperatureSensor2,
    /// Temperature sensor
    TemperatureSensor3,
    /// Temperature sensor
    TemperatureSensor4,
    /// WTGGPS
    WTGGPS,
    /// Dialer
    Dialer,
    /// indoor siren
    IndoorSiren,
    /// outdoor siren
    OutdoorSiren,
    /// HRRs
    HRRs,
    /// Power Switch meters
    PowerSwitchMeters,
    /// WTRV
    WTRV,
    /// Power Meter
    PowerMeter,
    /// Thermostat (Danfoss)
    ThermostatDanfoss,
    /// UPIC
    UPIC,
    /// Dimmer
    Dimmer1,
    /// Room sensor
    RoomSensor,
    /// Radon sensor
    RadonSensor,
    /// thermostat (Horstmann)
    ThermostatHorstmann,
    /// Door Lock
    DoorLock,
    /// heat detector
    HeatDetector2,
    /// Sudden Motion Sensor
    SuddenMotionSensor2,
    /// Sudden Motion Sensor
    SuddenMotionSensor3,
    /// Remote Switch
    RemoteSwitch,
    /// Heat Meter
    HeatMeter,
    /// Water Meter
    WaterMeter,
    /// gas meters
    GasMeters,
    /// Dimmer
    Dimmer2,
    /// Smoke Detector
    SmokeDetector,
    /// Thermostat (Elko)
    ThermostatElko,
    /// IP Camera
    IpCamera,
    /// Door Lock (Secure)
    DoorlockSecure,
    /// Thermostat (RCS)
    ThermostatRcs_,
    /// Door Lock (Yale)
    DoorlockYale,
    /// Thermostat
    Thermostat,
    /// Hue
    Hue,
    /// Temperature Sensor
    TemperatureSensor5,
    /// Shutter
    Shutter,
    /// Lightsensor
    Lightsensor,
    /// Radiator Thermostat
    RadiatorThermostat,
    /// Awning
    Awning,
    /// Smart Switch
    SmartSwitch,
    /// Shocksensor
    Shocksensor,
}

impl View for DeviceKind {
    type V = DeviceKind;

    open spec fn view(&self) -> DeviceKind {
        *self
    }
}

impl DeviceKind {
    /// The number that stands for the kind of device on the wire.
    pub open spec fn spec_code(self) -> u8 {
        match self {
            DeviceKind::RemoteControl1 => 2,
            DeviceKind::NightSwitch => 3,
            DeviceKind::DoorContact => 4,
            DeviceKind::WaterSensor => 5,
            DeviceKind::PanicButton1 => 6,
            DeviceKind::PanicButton2 => 7,
            DeviceKind::KHL => 8,
            DeviceKind::MotionDetector => 9,
            DeviceKind::OutdoorMotionDetector => 10,
            DeviceKind::SmokedetectorAndHeatDetector => 11,
            DeviceKind::GasDetector => 12,
            DeviceKind::CoDetector => 13,
            DeviceKind::HeatDetector1 => 14,
            DeviceKind::Keypad1 => 15,
            DeviceKind::TagReader1 => 16,
            DeviceKind::Keypad2 => 17,
            DeviceKind::Keypad3 => 18,
            DeviceKind::GlassBreakSensor => 19,
            DeviceKind::TemperatureSensor1 => 20,
            DeviceKind::MedAlarmDetectors => 21,
            DeviceKind::MiniindoorsirenAndStatusIndicator => 22,
            DeviceKind::Siren => 23,
            DeviceKind::PowerSwitch1 => 24,
            DeviceKind::PowerSwitch2 => 25,
            DeviceKind::Repeater => 26,
            DeviceKind::PirCamera => 27,
            DeviceKind::OutView => 29,
            DeviceKind::RemoteControl2 => 31,
            DeviceKind::PCT => 32,
            DeviceKind::SensorInput => 33,
            DeviceKind::SuddenMotionSensor1 => 34,
            DeviceKind::NT => 35,
            DeviceKind::UT => 36,
            DeviceKind::Keypad4 => 37,
            DeviceKind::TagReader2 => 38,
            DeviceKind::GlassBreakDetector => 39,
            DeviceKind::TemperatureSensor2 => 40,
            DeviceKind::TemperatureSensor3 => 41,
            DeviceKind::TemperatureSensor4 => 42,
            DeviceKind::WTGGPS => 43,
            DeviceKind::Dialer => 44,
            DeviceKind::IndoorSiren => 45,
            DeviceKind::OutdoorSiren => 46,
            DeviceKind::HRRs => 47,
            DeviceKind::PowerSwitchMeters => 48,
            DeviceKind::WTRV => 49,
            DeviceKind::PowerMeter => 50,
            DeviceKind::ThermostatDanfoss => 51,
            DeviceKind::UPIC => 52,
            DeviceKind::Dimmer1 => 53,
            DeviceKind::RoomSensor => 54,
            DeviceKind::RadonSensor => 55,
            DeviceKind::ThermostatHorstmann => 56,
            DeviceKind::DoorLock => 57,
            DeviceKind::HeatDetector2 => 58,
            DeviceKind::SuddenMotionSensor2 => 59,
            DeviceKind::SuddenMotionSensor3 => 60,
            DeviceKind::RemoteSwitch => 61,
            DeviceKind::HeatMeter => 62,
            DeviceKind::WaterMeter => 63,
            DeviceKind::GasMeters => 64,
            DeviceKind::Dimmer2 => 66,
            DeviceKind::SmokeDetector => 67,
            DeviceKind::ThermostatElko => 68,
            DeviceKind::IpCamera => 69,
            DeviceKind::DoorlockSecure => 70,
            DeviceKind::ThermostatRcs_ => 71,
            DeviceKind::DoorlockYale => 72,
            DeviceKind::Thermostat => 73,
            DeviceKind::Hue => 74,
            DeviceKind::TemperatureSensor5 => 75,
            DeviceKind::Shutter => 76,
            DeviceKind::Lightsensor => 78,
            DeviceKind::RadiatorThermostat => 79,
            DeviceKind::Awning => 80,
            DeviceKind::SmartSwitch => 81,
            DeviceKind::Shocksensor => 93,
        }
    }

    /// The kind of device that a wire number stands for, if any.
    pub open spec fn spec_from_code(c: u64) -> Option<DeviceKind> {
        if c == 2 {
            Some(DeviceKind::RemoteControl1)
        } else if c == 3 {
            Some(DeviceKind::NightSwitch)
        } else if c == 4 {
            Some(DeviceKind::DoorContact)
        } else if c == 5 {
            Some(DeviceKind::WaterSensor)
        } else if c == 6 {
            Some(DeviceKind::PanicButton1)
        } else if c == 7 {
            Some(DeviceKind::PanicButton2)
        } else if c == 8 {
            Some(DeviceKind::KHL)
        } else if c == 9 {
            Some(DeviceKind::MotionDetector)
        } else if c == 10 {
            Some(DeviceKind::OutdoorMotionDetector)
        } else if c == 11 {
            Some(DeviceKind::SmokedetectorAndHeatDetector)
        } else if c == 12 {
            Some(DeviceKind::GasDetector)
        } else if c == 13 {
            Some(DeviceKind::CoDetector)
        } else if c == 14 {
            Some(DeviceKind::HeatDetector1)
        } else if c == 15 {
            Some(DeviceKind::Keypad1)
        } else if c == 16 {
            Some(DeviceKind::TagReader1)
        } else if c == 17 {
            Some(DeviceKind::Keypad2)
        } else if c == 18 {
            Some(DeviceKind::Keypad3)
        } else if c == 19 {
            Some(DeviceKind::GlassBreakSensor)
        } else if c == 20 {
            Some(DeviceKind::TemperatureSensor1)
        } else if c == 21 {
            Some(DeviceKind::MedAlarmDetectors)
        } else if c == 22 {
            Some(DeviceKind::MiniindoorsirenAndStatusIndicator)
        } else if c == 23 {
            Some(DeviceKind::Siren)
        } else if c == 24 {
            Some(DeviceKind::PowerSwitch1)
        } else if c == 25 {
            Some(DeviceKind::PowerSwitch2)
        } else if c == 26 {
            Some(DeviceKind::Repeater)
        } else if c == 27 {
            Some(DeviceKind::PirCamera)
        } else if c == 29 {
            Some(DeviceKind::OutView)
        } else if c == 31 {
            Some(DeviceKind::RemoteControl2)
        } else if c == 32 {
            Some(DeviceKind::PCT)
        } else if c == 33 {
            Some(DeviceKind::SensorInput)
        } else if c == 34 {
            Some(DeviceKind::SuddenMotionSensor1)
        } else if c == 35 {
            Some(DeviceKind::NT)
        } else if c == 36 {
            Some(DeviceKind::UT)
        } else if c == 37 {
            Some(DeviceKind::Keypad4)
        } else if c == 38 {
            Some(DeviceKind::TagReader2)
        } else if c == 39 {
            Some(DeviceKind::GlassBreakDetector)
        } else if c == 40 {
            Some(DeviceKind::TemperatureSensor2)
        } else if c == 41 {
            Some(DeviceKind::TemperatureSensor3)
        } else if c == 42 {
            Some(DeviceKind::TemperatureSensor4)
        } else if c == 43 {
            Some(DeviceKind::WTGGPS)
        } else if c == 44 {
            Some(DeviceKind::Dialer)
        } else if c == 45 {
            Some(DeviceKind::IndoorSiren)
        } else if c == 46 {
            Some(DeviceKind::OutdoorSiren)
        } else if c == 47 {
            Some(DeviceKind::HRRs)
        } else if c == 48 {
            Some(DeviceKind::PowerSwitchMeters)
        } else if c == 49 {
            Some(DeviceKind::WTRV)
        } else if c == 50 {
            Some(DeviceKind::PowerMeter)
        } else if c == 51 {
            Some(DeviceKind::ThermostatDanfoss)
        } else if c == 52 {
            Some(DeviceKind::UPIC)
        } else if c == 53 {
            Some(DeviceKind::Dimmer1)
        } else if c == 54 {
            Some(DeviceKind::RoomSensor)
        } else if c == 55 {
            Some(DeviceKind::RadonSensor)
        } else if c == 56 {
            Some(DeviceKind::ThermostatHorstmann)
        } else if c == 57 {
            Some(DeviceKind::DoorLock)
        } else if c == 58 {
            Some(DeviceKind::HeatDetector2)
        } else if c == 59 {
            Some(DeviceKind::SuddenMotionSensor2)
        } else if c == 60 {
            Some(DeviceKind::SuddenMotionSensor3)
        } else if c == 61 {
            Some(DeviceKind::RemoteSwitch)
        } else if c == 62 {
            Some(DeviceKind::HeatMeter)
        } else if c == 63 {
            Some(DeviceKind::WaterMeter)
        } else if c == 64 {
            Some(DeviceKind::GasMeters)
        } else if c == 66 {
            Some(DeviceKind::Dimmer2)
        } else if c == 67 {
            Some(DeviceKind::SmokeDetector)
        } else if c == 68 {
            Some(DeviceKind::ThermostatElko)
        } else if c == 69 {
            Some(DeviceKind::IpCamera)
        } else if c == 70 {
            Some(DeviceKind::DoorlockSecure)
        } else if c == 71 {
            Some(DeviceKind::ThermostatRcs_)
        } else if c == 72 {
            Some(DeviceKind::DoorlockYale)
        } else if c == 73 {
            Some(DeviceKind::Thermostat)
        } else if c == 74 {
            Some(DeviceKind::Hue)
        } else if c == 75 {
            Some(DeviceKind::TemperatureSensor5)
        } else if c == 76 {
            Some(DeviceKind::Shutter)
        } else if c == 78 {
            Some(DeviceKind::Lightsensor)
        } else if c == 79 {
            Some(DeviceKind::RadiatorThermostat)
        } else if c == 80 {
            Some(DeviceKind::Awning)
        } else if c == 81 {
            Some(DeviceKind::SmartSwitch)
        } else if c == 93 {
            Some(DeviceKind::Shocksensor)
        } else {
            None
        }
    }

    pub fn code(&self) -> (r: u8)
        ensures
            r == self.spec_code(),
    {
        match self {
            DeviceKind::RemoteControl1 => 2,
            DeviceKind::NightSwitch => 3,
            DeviceKind::DoorContact => 4,
            DeviceKind::WaterSensor => 5,
            DeviceKind::PanicButton1 => 6,
            DeviceKind::PanicButton2 => 7,
            DeviceKind::KHL => 8,
            DeviceKind::MotionDetector => 9,
            DeviceKind::OutdoorMotionDetector => 10,
            DeviceKind::SmokedetectorAndHeatDetector => 11,
            DeviceKind::GasDetector => 12,
            DeviceKind::CoDetector => 13,
            DeviceKind::HeatDetector1 => 14,
            DeviceKind::Keypad1 => 15,
            DeviceKind::TagReader1 => 16,
            DeviceKind::Keypad2 => 17,
            DeviceKind::Keypad3 => 18,
            DeviceKind::GlassBreakSensor => 19,
            DeviceKind::TemperatureSensor1 => 20,
            DeviceKind::MedAlarmDetectors => 21,
            DeviceKind::MiniindoorsirenAndStatusIndicator => 22,
            DeviceKind::Siren => 23,
            DeviceKind::PowerSwitch1 => 24,
            DeviceKind::PowerSwitch2 => 25,
            DeviceKind::Repeater => 26,
            DeviceKind::PirCamera => 27,
            DeviceKind::OutView => 29,
            DeviceKind::RemoteControl2 => 31,
            DeviceKind::PCT => 32,
            DeviceKind::SensorInput => 33,
            DeviceKind::SuddenMotionSensor1 => 34,
            DeviceKind::NT => 35,
            DeviceKind::UT => 36,
            DeviceKind::Keypad4 => 37,
            DeviceKind::TagReader2 => 38,
            DeviceKind::GlassBreakDetector => 39,
            DeviceKind::TemperatureSensor2 => 40,
            DeviceKind::TemperatureSensor3 => 41,
            DeviceKind::TemperatureSensor4 => 42,
            DeviceKind::WTGGPS => 43,
            DeviceKind::Dialer => 44,
            DeviceKind::IndoorSiren => 45,
            DeviceKind::OutdoorSiren => 46,
            DeviceKind::HRRs => 47,
            DeviceKind::PowerSwitchMeters => 48,
            DeviceKind::WTRV => 49,
            DeviceKind::PowerMeter => 50,
            DeviceKind::ThermostatDanfoss => 51,
            DeviceKind::UPIC => 52,
            DeviceKind::Dimmer1 => 53,
            DeviceKind::RoomSensor => 54,
            DeviceKind::RadonSensor => 55,
            DeviceKind::ThermostatHorstmann => 56,
            DeviceKind::DoorLock => 57,
            DeviceKind::HeatDetector2 => 58,
            DeviceKind::SuddenMotionSensor2 => 59,
            DeviceKind::SuddenMotionSensor3 => 60,
            DeviceKind::RemoteSwitch => 61,
            DeviceKind::HeatMeter => 62,
            DeviceKind::WaterMeter => 63,
            DeviceKind::GasMeters => 64,
            DeviceKind::Dimmer2 => 66,
            DeviceKind::SmokeDetector => 67,
            DeviceKind::ThermostatElko => 68,
            DeviceKind::IpCamera => 69,
            DeviceKind::DoorlockSecure => 70,
            DeviceKind::ThermostatRcs_ => 71,
            DeviceKind::DoorlockYale => 72,
            DeviceKind::Thermostat => 73,
            DeviceKind::Hue => 74,
            DeviceKind::TemperatureSensor5 => 75,
            DeviceKind::Shutter => 76,
            DeviceKind::Lightsensor => 78,
            DeviceKind::RadiatorThermostat => 79,
            DeviceKind::Awning => 80,
            DeviceKind::SmartSwitch => 81,
            DeviceKind::Shocksensor => 93,
        }
    }

    /// The kind of device written in `text`: its code as a JSON number or as a
    /// JSON string, which must stand for a variant.
    pub open spec fn spec_decode(text: Seq<char>) -> Result<DeviceKind, DecodeError> {
        match spec_code(text) {
            Ok(c) => match DeviceKind::spec_from_code(c) {
                Some(v) => Ok(v),
                None => Err(DecodeError::UnknownCode(c)),
            },
            Err(e) => Err(e),
        }
    }

    pub fn decode(text: &str) -> (r: Result<DeviceKind, DecodeError>)
        ensures
            r == DeviceKind::spec_decode(text@),
    {
        let c = code_of(text)?;
        match DeviceKind::from_code(c) {
            Some(v) => Ok(v),
            None => Err(DecodeError::UnknownCode(c)),
        }
    }

    pub fn from_code(c: u64) -> (r: Option<DeviceKind>)
        ensures
            r == DeviceKind::spec_from_code(c),
    {
        match c {
            2 => Some(DeviceKind::RemoteControl1),
            3 => Some(DeviceKind::NightSwitch),
            4 => Some(DeviceKind::DoorContact),
            5 => Some(DeviceKind::WaterSensor),
            6 => Some(DeviceKind::PanicButton1),
            7 => Some(DeviceKind::PanicButton2),
            8 => Some(DeviceKind::KHL),
            9 => Some(DeviceKind::MotionDetector),
            10 => Some(DeviceKind::OutdoorMotionDetector),
            11 => Some(DeviceKind::SmokedetectorAndHeatDetector),
            12 => Some(DeviceKind::GasDetector),
            13 => Some(DeviceKind::CoDetector),
            14 => Some(DeviceKind::HeatDetector1),
            15 => Some(DeviceKind::Keypad1),
            16 => Some(DeviceKind::TagReader1),
            17 => Some(DeviceKind::Keypad2),
            18 => Some(DeviceKind::Keypad3),
            19 => Some(DeviceKind::GlassBreakSensor),
            20 => Some(DeviceKind::TemperatureSensor1),
            21 => Some(DeviceKind::MedAlarmDetectors),
            22 => Some(DeviceKind::MiniindoorsirenAndStatusIndicator),
            23 => Some(DeviceKind::Siren),
            24 => Some(DeviceKind::PowerSwitch1),
            25 => Some(DeviceKind::PowerSwitch2),
            26 => Some(DeviceKind::Repeater),
            27 => Some(DeviceKind::PirCamera),
            29 => Some(DeviceKind::OutView),
            31 => Some(DeviceKind::RemoteControl2),
            32 => Some(DeviceKind::PCT),
            33 => Some(DeviceKind::SensorInput),
            34 => Some(DeviceKind::SuddenMotionSensor1),
            35 => Some(DeviceKind::NT),
            36 => Some(DeviceKind::UT),
            37 => Some(DeviceKind::Keypad4),
            38 => Some(DeviceKind::TagReader2),
            39 => Some(DeviceKind::GlassBreakDetector),
            40 => Some(DeviceKind::TemperatureSensor2),
            41 => Some(DeviceKind::TemperatureSensor3),
            42 => Some(DeviceKind::TemperatureSensor4),
            43 => Some(DeviceKind::WTGGPS),
            44 => Some(DeviceKind::Dialer),
            45 => Some(DeviceKind::IndoorSiren),
            46 => Some(DeviceKind::OutdoorSiren),
            47 => Some(DeviceKind::HRRs),
            48 => Some(DeviceKind::PowerSwitchMeters),
            49 => Some(DeviceKind::WTRV),
            50 => Some(DeviceKind::PowerMeter),
            51 => Some(DeviceKind::ThermostatDanfoss),
            52 => Some(DeviceKind::UPIC),
            53 => Some(DeviceKind::Dimmer1),
            54 => Some(DeviceKind::RoomSensor),
            55 => Some(DeviceKind::RadonSensor),
            56 => Some(DeviceKind::ThermostatHorstmann),
            57 => Some(DeviceKind::DoorLock),
            58 => Some(DeviceKind::HeatDetector2),
            59 => Some(DeviceKind::SuddenMotionSensor2),
            60 => Some(DeviceKind::SuddenMotionSensor3),
            61 => Some(DeviceKind::RemoteSwitch),
            62 => Some(DeviceKind::HeatMeter),
            63 => Some(DeviceKind::WaterMeter),
            64 => Some(DeviceKind::GasMeters),
            66 => Some(DeviceKind::Dimmer2),
            67 => Some(DeviceKind::SmokeDetector),
            68 => Some(DeviceKind::ThermostatElko),
            69 => Some(DeviceKind::IpCamera),
            70 => Some(DeviceKind::DoorlockSecure),
            71 => Some(DeviceKind::ThermostatRcs_),
            72 => Some(DeviceKind::DoorlockYale),
            73 => Some(DeviceKind::Thermostat),
            74 => Some(DeviceKind::Hue),
            75 => Some(DeviceKind::TemperatureSensor5),
            76 => Some(DeviceKind::Shutter),
            78 => Some(DeviceKind::Lightsensor),
            79 => Some(DeviceKind::RadiatorThermostat),
            80 => Some(DeviceKind::Awning),
            81 => Some(DeviceKind::SmartSwitch),
            93 => Some(DeviceKind::Shocksensor),
            _ => None,
        }
    }
}

/// Decoding a mode code (0 to 4, as a number or a numeric string) and
/// encoding the mode again gives the code back.
pub proof fn lemma_mode_decode_round_trip(text: Seq<char>, c: u64)
    requires
        spec_code(text) == Ok::<u64, DecodeError>(c),
        c <= 4,
    ensures
        Mode::spec_decode(text) matches Ok(m) && m.spec_code() == c,
{
}

/// A kind-of-device code that stands for no variant fails to decode: no
/// default kind is put in its place.
pub proof fn lemma_unknown_device_kind_fails(text: Seq<char>, c: u64)
    requires
        spec_code(text) == Ok::<u64, DecodeError>(c),
        forall|k: DeviceKind| #[trigger] k.spec_code() != c,
    ensures
        DeviceKind::spec_decode(text) == Err::<DeviceKind, DecodeError>(DecodeError::UnknownCode(c)),
{
    lemma_unknown_device_kind_rejected(c);
}

/// A number that stands for no kind of device never decodes to one.
pub proof fn lemma_unknown_device_kind_rejected(c: u64)
    requires
        forall|k: DeviceKind| #[trigger] k.spec_code() != c,
    ensures
        DeviceKind::spec_from_code(c) is None,
{
    if let Some(k) = DeviceKind::spec_from_code(c) {
        assert(k.spec_code() == c);
    }
}


} // verus!

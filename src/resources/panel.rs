use vstd::prelude::*;

use crate::constants::{Area, Mode};
use crate::codec::ApiResponse;
use crate::errors::{DecodeError, Error, Field};
use crate::codec::{is_success, spec_decode_reply};
use crate::errors::ErrorView;
use crate::json::{member, object, spec_code, spec_member, spec_object, Members};
use crate::text::without_tabs;

verus! {

/// The mode of each of the two areas, in area order.
pub type Modes = ((Area, Mode), (Area, Mode));

/// The panel condition envelope `{forms: {pcondform1: {mode}, pcondform2: {mode}}}`.
#[derive(Clone, Copy, Debug, PartialEq, Eq, Structural)]
pub struct Status {
    forms: Forms,
}

#[derive(Clone, Copy, Debug, PartialEq, Eq, Structural)]
/// The two condition forms of the envelope.
pub struct Forms {
    pcondform1: PCondForm,
    pcondform2: PCondForm,
}

#[derive(Clone, Copy, Debug, PartialEq, Eq, Structural)]
/// One condition form: the mode of one area.
pub struct PCondForm {
    mode: Mode,
}

/// The mode of one condition form `{mode}` written in `text`.
pub open spec fn spec_decode_form(text: Seq<char>) -> Result<Mode, DecodeError> {
    match spec_object(text) {
        Err(e) => Err(e),
        Ok(ms) => match spec_member(ms, Field::Mode) {
            Err(e) => Err(e),
            Ok(t) => Mode::spec_decode(t),
        },
    }
}

/// The modes of the two areas in the condition envelope written in `text`.
pub open spec fn spec_decode_condition(text: Seq<char>) -> Result<(Mode, Mode), DecodeError> {
    match spec_object(text) {
        Err(e) => Err(e),
        Ok(ms) => match spec_member(ms, Field::Forms) {
            Err(e) => Err(e),
            Ok(ft) => match spec_object(ft) {
                Err(e) => Err(e),
                Ok(fs) => match spec_member(fs, Field::Form1) {
                    Err(e) => Err(e),
                    Ok(t1) => match spec_decode_form(t1) {
                        Err(e) => Err(e),
                        Ok(m1) => match spec_member(fs, Field::Form2) {
                            Err(e) => Err(e),
                            Ok(t2) => match spec_decode_form(t2) {
                                Err(e) => Err(e),
                                Ok(m2) => Ok((m1, m2)),
                            },
                        },
                    },
                },
            },
        },
    }
}

/// The modes pair of an area-ordered report.
pub open spec fn spec_modes(m1: Mode, m2: Mode) -> Modes {
    ((Area::Area1, m1), (Area::Area2, m2))
}

fn decode_form(text: &str) -> (r: Result<Mode, DecodeError>)
    ensures
        r == spec_decode_form(text@),
{
    let ms = object(text)?;
    let t = member(&ms, Field::Mode)?;
    Mode::decode(t.as_str())
}

impl View for Status {
    type V = (Mode, Mode);

    closed spec fn view(&self) -> (Mode, Mode) {
        (self.forms.pcondform1.mode, self.forms.pcondform2.mode)
    }
}

impl ApiResponse for Status {
    open spec fn spec_decode(text: Seq<char>) -> Result<(Mode, Mode), DecodeError> {
        spec_decode_condition(text)
    }

    /// Reads the condition envelope written in `text`.
    fn decode(text: &str) -> (r: Result<Status, DecodeError>)
    {
        let ms = object(text)?;
        let ft = member(&ms, Field::Forms)?;
        let fs = object(ft.as_str())?;
        let t1 = member(&fs, Field::Form1)?;
        let m1 = decode_form(t1.as_str())?;
        let t2 = member(&fs, Field::Form2)?;
        let m2 = decode_form(t2.as_str())?;
        Ok(Status { forms: Forms { pcondform1: PCondForm { mode: m1 }, pcondform2: PCondForm { mode: m2 } } })
    }
}

impl Status {

    /// The mode of area 1 and of area 2.
    pub fn ok(self) -> (r: Result<Modes, Error>)
        ensures
            r == Ok::<Modes, Error>(spec_modes(self@.0, self@.1)),
    {
        Ok(((Area::Area1, self.forms.pcondform1.mode), (Area::Area2, self.forms.pcondform2.mode)))
    }
}

/// Decoding a condition envelope whose two forms carry mode codes `c1` and
/// `c2` (0 to 4, each a JSON number or a numeric string) gives the two
/// areas in order, with modes that encode back to `c1` and `c2`.
pub proof fn lemma_condition_round_trip(
    status: u16,
    body: Seq<char>,
    ms: Members,
    ft: Seq<char>,
    fs: Members,
    t1: Seq<char>,
    f1: Members,
    mt1: Seq<char>,
    c1: u64,
    t2: Seq<char>,
    f2: Members,
    mt2: Seq<char>,
    c2: u64,
)
    requires
        is_success(status),
        spec_object(without_tabs(body)) == Ok::<Members, DecodeError>(ms),
        spec_member(ms, Field::Forms) == Ok::<Seq<char>, DecodeError>(ft),
        spec_object(ft) == Ok::<Members, DecodeError>(fs),
        spec_member(fs, Field::Form1) == Ok::<Seq<char>, DecodeError>(t1),
        spec_object(t1) == Ok::<Members, DecodeError>(f1),
        spec_member(f1, Field::Mode) == Ok::<Seq<char>, DecodeError>(mt1),
        spec_code(mt1) == Ok::<u64, DecodeError>(c1),
        spec_member(fs, Field::Form2) == Ok::<Seq<char>, DecodeError>(t2),
        spec_object(t2) == Ok::<Members, DecodeError>(f2),
        spec_member(f2, Field::Mode) == Ok::<Seq<char>, DecodeError>(mt2),
        spec_code(mt2) == Ok::<u64, DecodeError>(c2),
        c1 <= 4,
        c2 <= 4,
    ensures
        spec_decode_reply::<Status>(status, body) matches Ok::<(Mode, Mode), ErrorView>(p) && ({
            let modes = spec_modes(p.0, p.1);
            &&& modes.0.0 == Area::Area1
            &&& modes.1.0 == Area::Area2
            &&& modes.0.1.spec_code() == c1
            &&& modes.1.1.spec_code() == c2
        }),
{
}

} // verus!

//! Raw input records of the kernel's event device: the fixed-length record,
//! its numeric codes as a closed set, and what the raw values of the hat
//! switch, the triggers and the sticks call for.

use vstd::prelude::*;
use vstd::slice::slice_subrange;
use byteorder::{BigEndian, ByteOrder};
use crate::config::{Action, Key, PointerButton};
use crate::fixed::{scale_saturating, scale_toward_zero};

verus! {

/// The length of one record, in bytes.
pub const RECORD_LEN: usize = 24;

/// What a numeric code of a record stands for.
#[derive(Clone, Copy, Debug, PartialEq, Eq, Structural)]
pub enum RawInput {
    AbsX,
    AbsY,
    AbsZ,
    AbsRx,
    AbsRy,
    AbsRz,
    HatX,
    HatY,
    ShoulderLeft,
    ShoulderRight,
    Select,
    /// A code that stands for nothing known.
    Unrecognized(u16),
}

/// One record: its code, its signed value and its state byte.
#[derive(Clone, Copy, Debug, PartialEq, Eq, Structural)]
pub struct RawRecord {
    pub code: u16,
    pub value: i16,
    pub state: u8,
}

/// What the records read so far have left behind: whether the run goes on,
/// the last raw value of each stick axis and trigger, and whether each
/// shoulder button is down.
#[derive(Clone, Copy, Debug, PartialEq, Eq)]
pub struct RawState {
    pub running: bool,
    pub x: i16,
    pub y: i16,
    pub rx: i16,
    pub ry: i16,
    pub z: i16,
    pub rz: i16,
    pub tr: bool,
    pub tl: bool,
}

/// What one update does: the two pointer moves, the actions of the two
/// triggers and the scroll steps, in the order in which they are made.
#[derive(Clone, Copy, Debug, PartialEq, Eq)]
pub struct RawUpdate {
    /// The horizontal move, in pixels, from the right stick.
    pub move_x: i32,
    /// The vertical move, in pixels, from the right stick.
    pub move_y: i32,
    /// What the right trigger does to the right pointer button.
    pub right: Option<Action>,
    /// What the left trigger does to the left pointer button.
    pub left: Option<Action>,
    /// The scroll steps, from the vertical axis of the left stick.
    pub scroll: i32,
}

impl RawState {
    /// The state after `record`: a stick axis takes the record's value, a
    /// trigger its state byte; a shoulder button is down where the state byte
    /// is 1; Select ends the run. The hat switch and the codes that stand for
    /// nothing known leave the state as it was.
    pub open spec fn after(self, record: RawRecord) -> RawState {
        match input_of_code(record.code) {
            RawInput::AbsX => RawState { x: record.value, ..self },
            RawInput::AbsY => RawState { y: record.value, ..self },
            RawInput::AbsRx => RawState { rx: record.value, ..self },
            RawInput::AbsRy => RawState { ry: record.value, ..self },
            RawInput::AbsZ => RawState { z: record.state as i16, ..self },
            RawInput::AbsRz => RawState { rz: record.state as i16, ..self },
            RawInput::ShoulderLeft => RawState { tl: record.state == 1, ..self },
            RawInput::ShoulderRight => RawState { tr: record.state == 1, ..self },
            RawInput::Select => RawState { running: false, ..self },
            _ => self,
        }
    }

    /// What an update does in this state.
    pub open spec fn update(self) -> RawUpdate {
        RawUpdate {
            move_x: stick_pixels(self.rx) as i32,
            move_y: stick_pixels(self.ry) as i32,
            right: trigger_edge(self.rz, PointerButton::Right),
            left: trigger_edge(self.z, PointerButton::Left),
            scroll: scroll_steps(self.y) as i32,
        }
    }

    /// The state before any record: the run goes on, every axis is at zero and
    /// no button is down.
    pub fn new() -> (state: RawState)
        ensures
            state == (RawState {
                running: true,
                x: 0,
                y: 0,
                rx: 0,
                ry: 0,
                z: 0,
                rz: 0,
                tr: false,
                tl: false,
            }),
    {
        RawState { running: true, x: 0, y: 0, rx: 0, ry: 0, z: 0, rz: 0, tr: false, tl: false }
    }
}

/// The signed 16-bit number whose big-endian bytes are `high`, `low`.
pub open spec fn be_i16(high: u8, low: u8) -> int {
    if high >= 128 {
        high * 256 + low - 65536
    } else {
        high * 256 + low
    }
}

/// What the code `code` stands for.
pub open spec fn input_of_code(code: u16) -> RawInput {
    if code == 0 {
        RawInput::AbsX
    } else if code == 1 {
        RawInput::AbsY
    } else if code == 2 {
        RawInput::AbsZ
    } else if code == 3 {
        RawInput::AbsRx
    } else if code == 4 {
        RawInput::AbsRy
    } else if code == 5 {
        RawInput::AbsRz
    } else if code == 16 {
        RawInput::HatX
    } else if code == 17 {
        RawInput::HatY
    } else if code == 310 {
        RawInput::ShoulderLeft
    } else if code == 311 {
        RawInput::ShoulderRight
    } else if code == 314 {
        RawInput::Select
    } else {
        RawInput::Unrecognized(code)
    }
}

/// The record held in the first bytes of `bytes`: the code in bytes 18 and
/// 19, low byte first; the state in byte 20; the value in bytes 21 and 22,
/// high byte first.
pub open spec fn record_of(bytes: Seq<u8>) -> RawRecord {
    RawRecord {
        code: (bytes[19] * 256 + bytes[18]) as u16,
        value: be_i16(bytes[21], bytes[22]) as i16,
        state: bytes[20],
    }
}

/// The key that the hat switch clicks when one of its axes reports `state`:
/// 1 is right or down, 255 is left or up. Anything else clicks nothing.
pub open spec fn hat_click(input: RawInput, state: u8) -> Option<Action> {
    match input {
        RawInput::HatX => if state == 1 {
            Some(Action::Click(Key::RightArrow))
        } else if state == 255 {
            Some(Action::Click(Key::LeftArrow))
        } else {
            None
        },
        RawInput::HatY => if state == 1 {
            Some(Action::Click(Key::DownArrow))
        } else if state == 255 {
            Some(Action::Click(Key::UpArrow))
        } else {
            None
        },
        _ => None,
    }
}

/// What the raw level of a trigger calls for: above 128 the pointer button
/// goes down, from 1 to 128 it comes up, and a trigger that reports nothing
/// leaves it alone.
pub open spec fn trigger_edge(level: i16, button: PointerButton) -> Option<Action> {
    if level > 128 {
        Some(Action::ButtonPress(button))
    } else if level > 0 {
        Some(Action::ButtonRelease(button))
    } else {
        None
    }
}

/// The pixels per update that a raw stick value stands for: twenty at full
/// deflection, rounded toward zero.
pub open spec fn stick_pixels(value: i16) -> int {
    scale_toward_zero(value as int, 5, 8192)
}

/// The scroll steps per update that a raw stick value stands for: one and a
/// half at full deflection, rounded toward zero.
pub open spec fn scroll_steps(value: i16) -> int {
    scale_toward_zero(value as int, 3, 65536)
}

/// `byteorder::BigEndian::read_i16` (the `ByteOrder` trait): reads the first
/// two bytes of `buf` as a signed 16-bit number, high byte first. It panics on
/// fewer than two bytes, which the precondition rules out.
#[verifier::external_body]
fn read_be_i16(buf: &[u8]) -> (value: i16)
    requires
        buf@.len() >= 2,
    ensures
        value == be_i16(buf@[0], buf@[1]),
{
    BigEndian::read_i16(buf)
}

/// Says what a numeric code stands for; a code outside the known set comes
/// back as unrecognized, with the code.
pub fn classify(code: u16) -> (input: RawInput)
    ensures
        input == input_of_code(code),
{
    match code {
        0 => RawInput::AbsX,
        1 => RawInput::AbsY,
        2 => RawInput::AbsZ,
        3 => RawInput::AbsRx,
        4 => RawInput::AbsRy,
        5 => RawInput::AbsRz,
        16 => RawInput::HatX,
        17 => RawInput::HatY,
        310 => RawInput::ShoulderLeft,
        311 => RawInput::ShoulderRight,
        314 => RawInput::Select,
        _ => RawInput::Unrecognized(code),
    }
}

/// Decodes one record from `buf`; none where `buf` is shorter than a record.
pub fn decode_record(buf: &[u8]) -> (record: Option<RawRecord>)
    ensures
        record == if buf@.len() < RECORD_LEN {
            None
        } else {
            Some(record_of(buf@))
        },
{
    if buf.len() < RECORD_LEN {
        return None;
    }
    let value: i16 = read_be_i16(slice_subrange(buf, 21, 23));
    let high: u16 = buf[19] as u16;
    let low: u16 = buf[18] as u16;
    let code: u16 = high * 256 + low;
    Some(RawRecord { code, value, state: buf[20] })
}

/// The arrow-key click that a record of the hat switch calls for, if any.
pub fn hat_action(record: &RawRecord) -> (action: Option<Action>)
    ensures
        action == hat_click(input_of_code(record.code), record.state),
{
    match classify(record.code) {
        RawInput::HatX => {
            if record.state == 1 {
                Some(Action::Click(Key::RightArrow))
            } else if record.state == 255 {
                Some(Action::Click(Key::LeftArrow))
            } else {
                None
            }
        },
        RawInput::HatY => {
            if record.state == 1 {
                Some(Action::Click(Key::DownArrow))
            } else if record.state == 255 {
                Some(Action::Click(Key::UpArrow))
            } else {
                None
            }
        },
        _ => None,
    }
}

/// Takes one record into the state, and returns the arrow-key click that
/// the record calls for, if it is one of the hat switch.
pub fn apply(state: &mut RawState, record: &RawRecord) -> (click: Option<Action>)
    ensures
        *final(state) == old(state).after(*record),
        click == hat_click(input_of_code(record.code), record.state),
{
    match classify(record.code) {
        RawInput::AbsX => {
            state.x = record.value;
        },
        RawInput::AbsY => {
            state.y = record.value;
        },
        RawInput::AbsRx => {
            state.rx = record.value;
        },
        RawInput::AbsRy => {
            state.ry = record.value;
        },
        RawInput::AbsZ => {
            state.z = record.state as i16;
        },
        RawInput::AbsRz => {
            state.rz = record.state as i16;
        },
        RawInput::ShoulderLeft => {
            state.tl = record.state == 1;
        },
        RawInput::ShoulderRight => {
            state.tr = record.state == 1;
        },
        RawInput::Select => {
            state.running = false;
        },
        RawInput::HatX | RawInput::HatY | RawInput::Unrecognized(_) => {},
    }
    hat_action(record)
}

/// What an update does in the state `state`.
pub fn update_of(state: &RawState) -> (out: RawUpdate)
    ensures
        out == state.update(),
{
    RawUpdate {
        move_x: pixels_of(state.rx),
        move_y: pixels_of(state.ry),
        right: trigger_action(state.rz, PointerButton::Right),
        left: trigger_action(state.z, PointerButton::Left),
        scroll: steps_of(state.y),
    }
}

/// The pointer-button action that the raw level of a trigger calls for, if
/// any.
pub fn trigger_action(level: i16, button: PointerButton) -> (action: Option<Action>)
    ensures
        action == trigger_edge(level, button),
{
    if level > 128 {
        Some(Action::ButtonPress(button))
    } else if level > 0 {
        Some(Action::ButtonRelease(button))
    } else {
        None
    }
}

/// The pixels to move the pointer by in one update, from a raw stick value.
pub fn pixels_of(value: i16) -> (pixels: i32)
    ensures
        pixels == stick_pixels(value),
        -20 <= pixels <= 20,
{
    let scaled: i64 = scale_saturating(value as i64, 5, 8192, 20);
    scaled as i32
}

/// The steps to scroll by in one update, from a raw stick value.
pub fn steps_of(value: i16) -> (steps: i32)
    ensures
        steps == scroll_steps(value),
        -1 <= steps <= 1,
{
    let scaled: i64 = scale_saturating(value as i64, 3, 65536, 1);
    scaled as i32
}

} // verus!

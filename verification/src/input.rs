//! Decoding of the device's input stream: fixed records of sixteen bytes,
//! of which only a key going down counts.

use crate::display::color::{decode_i32, decode_u16, dword_of, signed_of, word_of, ByteOrder};
use vstd::prelude::*;

verus! {

/// Length of one input record in bytes.
pub const INPUT_EVENT_SIZE: usize = 16;

/// Event class of keys and buttons.
pub const EV_KEY: u16 = 0x01;

/// Value of a key event when the key goes down. Zero is a release, two a
/// repeat.
pub const KEY_PRESSED: i32 = 1;

pub const KEY_UP: u16 = 103;

pub const KEY_DOWN: u16 = 108;

pub const KEY_LEFT: u16 = 105;

pub const KEY_RIGHT: u16 = 106;

pub const BTN_FORWARD: u16 = 305;

pub const BTN_BACK: u16 = 304;

pub const KEY_POWER: u16 = 116;

/// Input device that is read when none is named.
pub const DEFAULT_INPUT_DEVICE: &'static str = "/dev/input/event0";

/// A button of the pager.
#[derive(Debug, Clone, Copy, PartialEq, Eq, Structural)]
pub enum Button {
    Up,
    Down,
    Left,
    Right,
    Forward,
    Back,
    Power,
}

/// The fields of an input record that matter: its class, its code and its
/// value. The two time stamps in front of them are not kept.
#[derive(Debug, Clone, Copy, PartialEq, Eq, Structural)]
pub struct InputEvent {
    pub type_: u16,
    pub code: u16,
    pub value: i32,
}

/// The event that a record of sixteen bytes holds: two time stamps of four
/// bytes, then the class and the code in two bytes each, then the value in
/// four.
pub open spec fn event_of(record: Seq<u8>, order: ByteOrder) -> InputEvent
    recommends
        record.len() == 16,
{
    InputEvent {
        type_: word_of(record[8], record[9], order),
        code: word_of(record[10], record[11], order),
        value: signed_of(dword_of(record.subrange(12, 16), order)),
    }
}

/// The button that a key code stands for, if any.
pub open spec fn button_of(code: u16) -> Option<Button> {
    if code == KEY_UP {
        Some(Button::Up)
    } else if code == KEY_DOWN {
        Some(Button::Down)
    } else if code == KEY_LEFT {
        Some(Button::Left)
    } else if code == KEY_RIGHT {
        Some(Button::Right)
    } else if code == BTN_FORWARD {
        Some(Button::Forward)
    } else if code == BTN_BACK {
        Some(Button::Back)
    } else if code == KEY_POWER {
        Some(Button::Power)
    } else {
        None
    }
}

/// Whether what was read is one whole record of a key going down.
pub open spec fn is_key_press(record: Seq<u8>, order: ByteOrder) -> bool {
    record.len() == 16 && event_of(record, order).type_ == EV_KEY && event_of(
        record,
        order,
    ).value == KEY_PRESSED
}

/// The button that was pressed according to what was read, if what was read
/// is a whole record of a known button going down.
pub open spec fn pressed_button(record: Seq<u8>, order: ByteOrder) -> Option<Button> {
    if is_key_press(record, order) {
        button_of(event_of(record, order).code)
    } else {
        None
    }
}

/// Decodes one record.
pub fn decode_event(record: &[u8], order: ByteOrder) -> (event: InputEvent)
    requires
        record@.len() == 16,
    ensures
        event == event_of(record@, order),
{
    let type_ = decode_u16(record[8], record[9], order);
    let code = decode_u16(record[10], record[11], order);
    let value = decode_i32(record[12], record[13], record[14], record[15], order);
    assert(record@.subrange(12, 16) =~= seq![record@[12], record@[13], record@[14], record@[15]]);
    InputEvent { type_, code, value }
}

/// The decoder of the device's button stream.
pub struct Input {
    /// Byte order of the records, which is that of the machine they come
    /// from.
    pub byte_order: ByteOrder,
}

impl Input {
    /// A decoder for records in the given byte order.
    pub fn new(byte_order: ByteOrder) -> (input: Input)
        ensures
            input.byte_order == byte_order,
    {
        Input { byte_order }
    }

    /// The button pressed according to the bytes just read, if they are one
    /// whole record of a known button going down. Anything else (a short
    /// read, another event class, a release, a repeat, an unknown code) is
    /// dropped.
    pub fn poll(&self, record: &[u8]) -> (button: Option<Button>)
        ensures
            button == pressed_button(record@, self.byte_order),
    {
        if record.len() != INPUT_EVENT_SIZE {
            return None;
        }
        let event = decode_event(record, self.byte_order);
        if event.type_ == EV_KEY && event.value == KEY_PRESSED {
            self.map_key(event.code)
        } else {
            None
        }
    }

    /// The button that a key code stands for, if any.
    pub fn map_key(&self, code: u16) -> (button: Option<Button>)
        ensures
            button == button_of(code),
    {
        if code == KEY_UP {
            Some(Button::Up)
        } else if code == KEY_DOWN {
            Some(Button::Down)
        } else if code == KEY_LEFT {
            Some(Button::Left)
        } else if code == KEY_RIGHT {
            Some(Button::Right)
        } else if code == BTN_FORWARD {
            Some(Button::Forward)
        } else if code == BTN_BACK {
            Some(Button::Back)
        } else if code == KEY_POWER {
            Some(Button::Power)
        } else {
            None
        }
    }
}

} // verus!

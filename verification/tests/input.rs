use openpager::display::ByteOrder;
use openpager::input::{decode_event, Button, Input, InputEvent, BTN_BACK, BTN_FORWARD, EV_KEY,
    INPUT_EVENT_SIZE, KEY_DOWN, KEY_LEFT, KEY_POWER, KEY_RIGHT, KEY_UP};
use openpager::platform::{Action, DevicePlatform};

fn record(class: u16, code: u16, value: i32) -> [u8; 16] {
    let mut bytes = [0u8; 16];
    bytes[0..4].copy_from_slice(&0x1122_3344u32.to_le_bytes());
    bytes[4..8].copy_from_slice(&0x5566_7788u32.to_le_bytes());
    bytes[8..10].copy_from_slice(&class.to_le_bytes());
    bytes[10..12].copy_from_slice(&code.to_le_bytes());
    bytes[12..16].copy_from_slice(&value.to_le_bytes());
    bytes
}

fn record_be(class: u16, code: u16, value: i32) -> [u8; 16] {
    let mut bytes = [0u8; 16];
    bytes[8..10].copy_from_slice(&class.to_be_bytes());
    bytes[10..12].copy_from_slice(&code.to_be_bytes());
    bytes[12..16].copy_from_slice(&value.to_be_bytes());
    bytes
}

#[test]
fn key_codes_are_those_of_the_device() {
    assert_eq!(INPUT_EVENT_SIZE, 16);
    assert_eq!(EV_KEY, 1);
    assert_eq!(KEY_UP, 103);
    assert_eq!(KEY_DOWN, 108);
    assert_eq!(KEY_LEFT, 105);
    assert_eq!(KEY_RIGHT, 106);
    assert_eq!(BTN_FORWARD, 305);
    assert_eq!(BTN_BACK, 304);
    assert_eq!(KEY_POWER, 116);
}

#[test]
fn decode_event_reads_class_code_and_value() {
    let event = decode_event(&record(1, 103, 1), ByteOrder::LittleEndian);
    assert_eq!(event, InputEvent { type_: 1, code: 103, value: 1 });
    let event = decode_event(&record(3, 0x1234, -5), ByteOrder::LittleEndian);
    assert_eq!(event, InputEvent { type_: 3, code: 0x1234, value: -5 });
    let event = decode_event(&record_be(1, 305, 2), ByteOrder::BigEndian);
    assert_eq!(event, InputEvent { type_: 1, code: 305, value: 2 });
}

#[test]
fn key_down_record_decodes_to_up() {
    let device = DevicePlatform::new(2, 2, ByteOrder::LittleEndian);
    assert_eq!(device.poll(&record(EV_KEY, KEY_UP, 1)), Some(Action::Up));
    assert_eq!(device.poll(&record(EV_KEY, KEY_UP, 0)), None);
}

#[test]
fn device_maps_buttons_to_actions() {
    let device = DevicePlatform::new(2, 2, ByteOrder::LittleEndian);
    assert_eq!(device.poll(&record(EV_KEY, KEY_DOWN, 1)), Some(Action::Down));
    assert_eq!(device.poll(&record(EV_KEY, BTN_FORWARD, 1)), Some(Action::Select));
    assert_eq!(device.poll(&record(EV_KEY, BTN_BACK, 1)), Some(Action::Back));
    assert_eq!(device.poll(&record(EV_KEY, KEY_POWER, 1)), Some(Action::Back));
    assert_eq!(device.poll(&record(EV_KEY, KEY_LEFT, 1)), None);
    assert_eq!(device.poll(&record(EV_KEY, KEY_RIGHT, 1)), None);
    assert_eq!(device.poll(&record(EV_KEY, 0, 1)), None);
    assert_eq!(device.poll(&record(EV_KEY, 30, 1)), None);
}

#[test]
fn device_drops_what_is_not_a_key_press() {
    let device = DevicePlatform::new(2, 2, ByteOrder::LittleEndian);
    assert_eq!(device.poll(&record(EV_KEY, KEY_UP, 2)), None);
    assert_eq!(device.poll(&record(EV_KEY, KEY_UP, -1)), None);
    assert_eq!(device.poll(&record(EV_KEY, KEY_UP, 257)), None);
    assert_eq!(device.poll(&record(0, KEY_UP, 1)), None);
    assert_eq!(device.poll(&record(2, KEY_UP, 1)), None);
    assert_eq!(device.poll(&record(0x0101, KEY_UP, 1)), None);
    assert_eq!(device.poll(&record(EV_KEY, KEY_UP, 1)[..15]), None);
    assert_eq!(device.poll(&[]), None);
    let mut long = record(EV_KEY, KEY_UP, 1).to_vec();
    long.push(0);
    assert_eq!(device.poll(&long), None);
}

#[test]
fn device_reads_records_in_its_byte_order() {
    let device = DevicePlatform::new(2, 2, ByteOrder::BigEndian);
    assert_eq!(device.poll(&record_be(EV_KEY, KEY_UP, 1)), Some(Action::Up));
    assert_eq!(device.poll(&record_be(EV_KEY, BTN_FORWARD, 1)), Some(Action::Select));
    assert_eq!(device.poll(&record(EV_KEY, KEY_UP, 1)), None);
    let device = DevicePlatform::new(2, 2, ByteOrder::LittleEndian);
    assert_eq!(device.poll(&record_be(EV_KEY, KEY_UP, 1)), None);
}

#[test]
fn input_maps_every_button() {
    let input = Input::new(ByteOrder::LittleEndian);
    assert_eq!(input.byte_order, ByteOrder::LittleEndian);
    assert_eq!(input.poll(&record(EV_KEY, KEY_UP, 1)), Some(Button::Up));
    assert_eq!(input.poll(&record(EV_KEY, KEY_DOWN, 1)), Some(Button::Down));
    assert_eq!(input.poll(&record(EV_KEY, KEY_LEFT, 1)), Some(Button::Left));
    assert_eq!(input.poll(&record(EV_KEY, KEY_RIGHT, 1)), Some(Button::Right));
    assert_eq!(input.poll(&record(EV_KEY, BTN_FORWARD, 1)), Some(Button::Forward));
    assert_eq!(input.poll(&record(EV_KEY, BTN_BACK, 1)), Some(Button::Back));
    assert_eq!(input.poll(&record(EV_KEY, KEY_POWER, 1)), Some(Button::Power));
    assert_eq!(input.poll(&record(EV_KEY, 1, 1)), None);
    assert_eq!(input.poll(&record(EV_KEY, KEY_UP, 0)), None);
    assert_eq!(input.poll(&record(EV_KEY, KEY_UP, 2)), None);
    assert_eq!(input.poll(&record(4, KEY_UP, 1)), None);
    assert_eq!(input.poll(&[0u8; 8]), None);
}

#[test]
fn map_key_knows_seven_codes() {
    let input = Input::new(ByteOrder::BigEndian);
    let mut known = 0;
    for code in 0..=u16::MAX {
        if input.map_key(code).is_some() {
            known += 1;
        }
    }
    assert_eq!(known, 7);
    assert_eq!(input.map_key(103), Some(Button::Up));
    assert_eq!(input.map_key(104), None);
}

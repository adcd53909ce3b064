use openpager::platform::power::{BATTERY_STATE_FILE, DEFAULT_CAPACITY};
use openpager::platform::read_battery;

/// The same reading done with the standard library's line and number
/// parsing.
fn reference(content: &str) -> (u8, bool) {
    let mut capacity = 100u8;
    let mut charging = false;
    for line in content.lines() {
        if let Some(value) = line.strip_prefix("POWER_SUPPLY_CAPACITY=") {
            capacity = value.parse().unwrap_or(100);
        } else if let Some(value) = line.strip_prefix("POWER_SUPPLY_STATUS=") {
            charging = value == "Charging";
        }
    }
    (capacity, charging)
}

#[test]
fn battery_defaults() {
    assert_eq!(DEFAULT_CAPACITY, 100);
    assert_eq!(BATTERY_STATE_FILE, "/sys/class/power_supply/bq27546-0/uevent");
    assert_eq!(read_battery(b""), (100, false));
    assert_eq!(read_battery(b"\n\n"), (100, false));
    assert_eq!(read_battery(b"POWER_SUPPLY_NAME=bq27546-0\n"), (100, false));
}

#[test]
fn battery_state_of_a_driver_report() {
    let report = b"POWER_SUPPLY_NAME=bq27546-0\nPOWER_SUPPLY_STATUS=Charging\n\
POWER_SUPPLY_PRESENT=1\nPOWER_SUPPLY_VOLTAGE_NOW=3913000\nPOWER_SUPPLY_CAPACITY=57\n\
POWER_SUPPLY_CAPACITY_LEVEL=Normal\nPOWER_SUPPLY_TEMP=294\n";
    assert_eq!(read_battery(report), (57, true));
    let report = b"POWER_SUPPLY_STATUS=Discharging\nPOWER_SUPPLY_CAPACITY=7\n";
    assert_eq!(read_battery(report), (7, false));
}

#[test]
fn battery_capacity_numbers() {
    assert_eq!(read_battery(b"POWER_SUPPLY_CAPACITY=0"), (0, false));
    assert_eq!(read_battery(b"POWER_SUPPLY_CAPACITY=255"), (255, false));
    assert_eq!(read_battery(b"POWER_SUPPLY_CAPACITY=256"), (100, false));
    assert_eq!(read_battery(b"POWER_SUPPLY_CAPACITY=+42"), (42, false));
    assert_eq!(read_battery(b"POWER_SUPPLY_CAPACITY=-1"), (100, false));
    assert_eq!(read_battery(b"POWER_SUPPLY_CAPACITY="), (100, false));
    assert_eq!(read_battery(b"POWER_SUPPLY_CAPACITY=+"), (100, false));
    assert_eq!(read_battery(b"POWER_SUPPLY_CAPACITY=0000000099"), (99, false));
    assert_eq!(read_battery(b"POWER_SUPPLY_CAPACITY=99999999999999999999999"), (100, false));
    assert_eq!(read_battery(b"POWER_SUPPLY_CAPACITY=5 "), (100, false));
    assert_eq!(read_battery(b"POWER_SUPPLY_CAPACITY=5\r\n"), (5, false));
    assert_eq!(read_battery(b"POWER_SUPPLY_CAPACITY=5\r"), (100, false));
    assert_eq!(read_battery(b"POWER_SUPPLY_CAPACITY=12\nPOWER_SUPPLY_CAPACITY=34\n"), (34, false));
    assert_eq!(read_battery(b"POWER_SUPPLY_CAPACITY=12\nPOWER_SUPPLY_CAPACITY=x\n"), (100, false));
}

#[test]
fn battery_status_words() {
    assert_eq!(read_battery(b"POWER_SUPPLY_STATUS=Charging"), (100, true));
    assert_eq!(read_battery(b"POWER_SUPPLY_STATUS=charging"), (100, false));
    assert_eq!(read_battery(b"POWER_SUPPLY_STATUS=Charging "), (100, false));
    assert_eq!(read_battery(b"POWER_SUPPLY_STATUS=Full"), (100, false));
    assert_eq!(read_battery(b"POWER_SUPPLY_STATUS=Charging\nPOWER_SUPPLY_STATUS=Full\n"), (100, false));
    assert_eq!(read_battery(b" POWER_SUPPLY_STATUS=Charging"), (100, false));
    assert_eq!(read_battery(b"POWER_SUPPLY_STATUS=Charging\r\n"), (100, true));
}

#[test]
fn battery_reading_agrees_with_the_standard_library() {
    let pieces = [
        "", "\n", "\r", "\r\n", "POWER_SUPPLY_CAPACITY=", "POWER_SUPPLY_STATUS=", "Charging",
        "Full", "0", "7", "42", "100", "255", "256", "300", "+", "-", "+9", "09", " ", "x",
        "POWER_SUPPLY_CAPACITY", "POWER_SUPPLY_CAPACITY_LEVEL=Normal", "=",
    ];
    let mut checked = 0;
    for a in pieces {
        for b in pieces {
            for c in pieces {
                for d in ["", "\n", "\r\n", "\n\r"] {
                    let text = format!("{a}{b}{c}{d}");
                    assert_eq!(read_battery(text.as_bytes()), reference(&text), "{text:?}");
                    checked += 1;
                }
            }
        }
    }
    assert_eq!(checked, 24 * 24 * 24 * 4);
}

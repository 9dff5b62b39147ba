//! The port configuration value: construction, data-bit counts, clones.

use frostbit::myserial::{DataBits, FlowControl, Parity, SerialPortInfo, StopBits};

#[test]
fn new_keeps_every_setting() {
    let info = SerialPortInfo::new(
        String::from("/dev/ttyUSB0"),
        57600,
        DataBits::Seven,
        Parity::Even,
        StopBits::Two,
        FlowControl::Software,
    );
    assert_eq!(info.name, "/dev/ttyUSB0");
    assert_eq!(info.speed, 57600);
    assert_eq!(info.data_bits, DataBits::Seven);
    assert_eq!(info.parity, Parity::Even);
    assert_eq!(info.stop_bits, StopBits::Two);
    assert_eq!(info.flow_control, FlowControl::Software);
}

#[test]
fn data_bits_count_their_bits() {
    assert_eq!(DataBits::Five.count(), 5);
    assert_eq!(DataBits::Six.count(), 6);
    assert_eq!(DataBits::Seven.count(), 7);
    assert_eq!(DataBits::Eight.count(), 8);
}

#[test]
fn clone_carries_the_same_settings() {
    let info = SerialPortInfo::new(
        String::from("COM3"),
        9600,
        DataBits::Eight,
        Parity::Off,
        StopBits::One,
        FlowControl::Hardware,
    );
    let copy = info.clone();
    assert_eq!(copy.name, info.name);
    assert_eq!(copy.speed, info.speed);
    assert_eq!(copy.data_bits, info.data_bits);
    assert_eq!(copy.parity, info.parity);
    assert_eq!(copy.stop_bits, info.stop_bits);
    assert_eq!(copy.flow_control, info.flow_control);
}

//! Line settings for a serial port: the immutable configuration a session
//! is opened with.

use vstd::prelude::*;

verus! {

/// Number of data bits per character frame.
#[derive(Clone, Copy, PartialEq, Eq, Structural, Debug)]
pub enum DataBits {
    Five,
    Six,
    Seven,
    Eight,
}

impl DataBits {
    /// The number of bits each variant stands for.
    pub open spec fn spec_count(self) -> u8 {
        match self {
            DataBits::Five => 5,
            DataBits::Six => 6,
            DataBits::Seven => 7,
            DataBits::Eight => 8,
        }
    }

    /// The number of bits each variant stands for.
    pub fn count(self) -> (n: u8)
        ensures
            n == self.spec_count(),
    {
        match self {
            DataBits::Five => 5,
            DataBits::Six => 6,
            DataBits::Seven => 7,
            DataBits::Eight => 8,
        }
    }
}

/// Parity checking mode of the line.
#[derive(Clone, Copy, PartialEq, Eq, Structural, Debug)]
pub enum Parity {
    Off,
    Odd,
    Even,
}

/// Number of stop bits after each character frame.
#[derive(Clone, Copy, PartialEq, Eq, Structural, Debug)]
pub enum StopBits {
    One,
    Two,
}

/// Flow control applied on the line.
#[derive(Clone, Copy, PartialEq, Eq, Structural, Debug)]
pub enum FlowControl {
    Off,
    Software,
    Hardware,
}

/// The settings a connection is opened with: port name, baud rate and line
/// framing. Supplied once at connect time and never mutated by the worker.
#[derive(Debug)]
pub struct SerialPortInfo {
    pub name: String,
    pub speed: u32,
    pub data_bits: DataBits,
    pub parity: Parity,
    pub stop_bits: StopBits,
    pub flow_control: FlowControl,
}

impl SerialPortInfo {
    pub fn new(
        name: String,
        speed: u32,
        data_bits: DataBits,
        parity: Parity,
        stop_bits: StopBits,
        flow_control: FlowControl,
    ) -> (info: Self)
        ensures
            info.name@ == name@,
            info.speed == speed,
            info.data_bits == data_bits,
            info.parity == parity,
            info.stop_bits == stop_bits,
            info.flow_control == flow_control,
    {
        Self { name, speed, data_bits, parity, stop_bits, flow_control }
    }
}

impl Clone for SerialPortInfo {
    /// A clone carries exactly the same settings.
    fn clone(&self) -> (c: Self)
        ensures
            c == *self,
    {
        SerialPortInfo {
            name: self.name.clone(),
            speed: self.speed,
            data_bits: self.data_bits,
            parity: self.parity,
            stop_bits: self.stop_bits,
            flow_control: self.flow_control,
        }
    }
}

} // verus!

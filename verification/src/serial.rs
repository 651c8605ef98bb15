//! Where the bytes sent on the serial port go.
use vstd::prelude::*;

verus! {

/// A receiver of the bytes that the serial port sends.
pub trait Serializable {
    fn send(&mut self, value: u8);
}

/// A receiver that drops every byte.
pub struct DummySerialPort {}

impl DummySerialPort {
    pub fn new() -> (r: DummySerialPort) {
        DummySerialPort {}
    }
}

impl Serializable for DummySerialPort {
    fn send(&mut self, value: u8) {
    }
}

} // verus!

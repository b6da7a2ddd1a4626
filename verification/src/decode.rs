//! Records for protocol decoders above raw bytes. No decoder exists yet;
//! these are the shapes its results will have.

use vstd::prelude::*;

verus! {

/// One I2C transfer.
#[derive(Debug, Clone)]
pub struct I2cFrame {
    pub address: u8,
    pub rw: bool,
    pub data: Vec<u8>,
    pub acked: bool,
}

/// One SPI transfer.
#[derive(Debug, Clone)]
pub struct SpiFrame {
    pub cpol: bool,
    pub cpha: bool,
    pub bytes: Vec<u8>,
}

/// One UART character.
#[derive(Debug, Clone, Copy, PartialEq, Eq, Structural)]
pub struct UartChar {
    pub byte: u8,
    pub parity_ok: bool,
}

} // verus!

use vstd::prelude::*;

use embedded_hal::digital::PinState;

use crate::error::ErrorCode;

verus! {

// The methods that fill a `&mut [u8]` state that the slice keeps its length:
// no safe code can change the length of a slice behind a mutable reference,
// so every implementation meets it.

/// embedded-hal's logic level of a pin, `Low` or `High`: a plain enum whose
/// two variants the gateway builds and matches.
#[verifier::external_type_specification]
pub struct ExPinState(embedded_hal::digital::PinState);

/// A peripheral family.
#[derive(Clone, Copy, Debug, PartialEq, Eq, Structural)]
pub enum Family {
    Gpio,
    Spi,
    I2c,
    Uart,
}

/// Which families a backend provides, asked once when a session starts.
#[derive(Clone, Copy, Debug, PartialEq, Eq, Structural)]
pub struct Families {
    pub gpio: bool,
    pub spi: bool,
    pub i2c: bool,
    pub uart: bool,
}

impl Families {
    pub open spec fn has(self, f: Family) -> bool {
        match f {
            Family::Gpio => self.gpio,
            Family::Spi => self.spi,
            Family::I2c => self.i2c,
            Family::Uart => self.uart,
        }
    }
}

/// GPIO driver interface: pins opened in input or output mode.
///
/// A driver decides which of `set` and `get` it accepts in each mode; one that
/// refuses the mismatched call answers `Unsupported` or `InvalidArgument`.
pub trait Gpio {
    /// Opens `pin` of `port`, as an output when `output` holds; answers a
    /// non-negative handle.
    fn init(&mut self, port: i32, pin: i32, output: bool) -> Result<i32, ErrorCode>;

    fn deinit(&mut self, handle: i32) -> Result<(), ErrorCode>;

    fn set(&mut self, handle: i32, state: PinState) -> Result<(), ErrorCode>;

    fn get(&mut self, handle: i32) -> Result<PinState, ErrorCode>;
}

/// SPI driver interface. A pin argument of -1 asks for the driver's default.
pub trait Spi {
    fn init(&mut self, dev: u32, baud: u32, mosi: i32, miso: i32, sck: i32, cs: i32) -> Result<
        i32,
        ErrorCode,
    >;

    fn deinit(&mut self, handle: i32) -> Result<(), ErrorCode>;

    /// Fills `data` with bytes clocked in from the bus.
    fn read(&mut self, handle: i32, data: &mut [u8]) -> (r: Result<(), ErrorCode>)
        ensures
            final(data)@.len() == old(data)@.len(),
    ;

    fn write(&mut self, handle: i32, data: &[u8]) -> Result<(), ErrorCode>;

    /// Clocks `write` out while clocking bytes into `read`.
    fn transfer(&mut self, handle: i32, read: &mut [u8], write: &[u8]) -> (r: Result<(), ErrorCode>)
        ensures
            final(read)@.len() == old(read)@.len(),
    ;

    /// Clocks `data` out and replaces it with the bytes clocked in.
    fn transfer_inplace(&mut self, handle: i32, data: &mut [u8]) -> (r: Result<(), ErrorCode>)
        ensures
            final(data)@.len() == old(data)@.len(),
    ;
}

/// I2C driver interface. Target addresses are passed through unchecked: one
/// that no device answers is the driver's `Failed` or `NoDevice`.
pub trait I2c {
    fn init(&mut self, dev: u32, baud: u32, sda: i32, scl: i32) -> Result<i32, ErrorCode>;

    fn deinit(&mut self, handle: i32) -> Result<(), ErrorCode>;

    fn write(&mut self, handle: i32, addr: u16, data: &[u8]) -> Result<(), ErrorCode>;

    fn read(&mut self, handle: i32, addr: u16, buff: &mut [u8]) -> (r: Result<(), ErrorCode>)
        ensures
            final(buff)@.len() == old(buff)@.len(),
    ;

    /// Writes `data` to `addr`, then reads into `buff`, without releasing the
    /// bus in between.
    fn write_read(&mut self, handle: i32, addr: u16, data: &[u8], buff: &mut [u8]) -> (r: Result<
        (),
        ErrorCode,
    >)
        ensures
            final(buff)@.len() == old(buff)@.len(),
    ;
}

/// UART driver interface. `flags` is the driver's to interpret.
pub trait Uart {
    fn init(&mut self, dev: u32, baud: u32, tx: i32, rx: i32) -> Result<i32, ErrorCode>;

    fn deinit(&mut self, handle: i32) -> Result<(), ErrorCode>;

    fn write(&mut self, handle: i32, flags: u32, data: &[u8]) -> Result<(), ErrorCode>;

    fn read(&mut self, handle: i32, flags: u32, buff: &mut [u8]) -> (r: Result<(), ErrorCode>)
        ensures
            final(buff)@.len() == old(buff)@.len(),
    ;
}

/// A concrete driver. It implements every family interface and says which
/// families it actually provides; the gateway never calls into one it does
/// not, so the others may be written to answer `Unsupported`.
pub trait Backend: Gpio + Spi + I2c + Uart {
    fn families(&self) -> Families;
}

} // verus!

//! Host-side peripheral gateway for sandboxed guest modules.
//!
//! A guest drives GPIO, SPI, I2C and UART peripherals through a fixed set of
//! operations that pass only integers and (address, length) descriptors into
//! its own linear memory. The gateway checks every descriptor against that
//! memory, tracks the lifecycle of every handle a backend hands out, routes
//! each call to exactly one backend call, and reports failures as one of five
//! guest-visible error codes.
mod error;
mod buffer;
mod handles;
mod backend;
mod gateway;
mod gpio;
mod spi;
mod i2c;
mod uart;
mod laws;

pub use error::{ErrorCode, GatewayError, and_then, code_of, translate};
pub use buffer::{
    Access, BufferDescriptor, Region, buffer_check, disjoint, in_bounds, kept_outside,
    kept_outside_pins_bytes, pair_check, permits,
    region_of, resolve, resolve_pair, spliced, view, view_mut, view_pair,
};
pub use handles::{HandleTable, open_outcome};
pub use backend::{Backend, Families, Family, Gpio, I2c, Spi, Uart};
pub use gateway::{Context, handle_check, refused};
pub use gpio::{Mode, Value, is_output, pin_state_of, to_pin_state, to_value, value_of};
pub use spi::length_check;
pub use laws::{
    deinit_closes_for_good, handle_not_open_is_refused, out_of_bounds_never_reaches_backend,
    unbound_family_is_unsupported,
};

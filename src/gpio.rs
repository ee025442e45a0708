use vstd::prelude::*;

use embedded_hal::digital::PinState;

use crate::backend::{Backend, Family, Gpio};
use crate::error::{ErrorCode, translate};
use crate::gateway::{Context, refused};
use crate::handles::open_outcome;

verus! {

/// The mode a guest opens a pin in.
#[derive(Clone, Copy, Debug, PartialEq, Eq, Structural)]
pub enum Mode {
    Input,
    Output,
}

/// A logic level as the guest sees it.
#[derive(Clone, Copy, Debug, PartialEq, Eq, Structural)]
pub enum Value {
    Low,
    High,
}

pub open spec fn pin_state_of(v: Value) -> PinState {
    match v {
        Value::Low => PinState::Low,
        Value::High => PinState::High,
    }
}

pub open spec fn value_of(s: PinState) -> Value {
    match s {
        PinState::Low => Value::Low,
        PinState::High => Value::High,
    }
}

/// Whether a pin is opened as an output, as the driver takes the mode.
pub fn is_output(mode: Mode) -> (r: bool)
    ensures
        r == (mode == Mode::Output),
{
    match mode {
        Mode::Input => false,
        Mode::Output => true,
    }
}

/// The level a guest writes, as the driver takes it.
pub fn to_pin_state(v: Value) -> (r: PinState)
    ensures
        r == pin_state_of(v),
{
    match v {
        Value::Low => PinState::Low,
        Value::High => PinState::High,
    }
}

/// The level a driver read, as the guest sees it.
pub fn to_value(s: PinState) -> (r: Value)
    ensures
        r == value_of(s),
{
    match s {
        PinState::Low => Value::Low,
        PinState::High => Value::High,
    }
}

impl<B: Backend> Context<B> {
    /// Opens `pin` of `port` in `mode`. On success the handle is fresh and
    /// now open; on failure no handle table changes.
    pub fn gpio_init(&mut self, port: i32, pin: i32, mode: Mode) -> (r: Result<i32, ErrorCode>)
        requires
            old(self).wf(),
        ensures
            final(self).wf(),
            final(self).same_except(old(self), Family::Gpio),
            !old(self).bound().gpio ==> r == Err::<i32, ErrorCode>(ErrorCode::Unsupported)
                && *final(self) == *old(self),
            r matches Ok(h) ==> h >= 0 && !old(self).handles(Family::Gpio).contains(h)
                && final(self).handles(Family::Gpio) == old(self).handles(Family::Gpio).insert(h),
            r is Err ==> final(self).handles(Family::Gpio) == old(self).handles(Family::Gpio),
    {
        if !self.families.gpio {
            return Err(ErrorCode::Unsupported);
        }
        let answer = Gpio::init(&mut self.backend, port, pin, is_output(mode));
        self.gpio.record_open(answer)
    }

    /// Closes an open pin. A handle that is not open, including one already
    /// closed, is refused.
    pub fn gpio_deinit(&mut self, handle: i32) -> (r: Result<(), ErrorCode>)
        requires
            old(self).wf(),
        ensures
            final(self).wf(),
            final(self).same_except(old(self), Family::Gpio),
            old(self).admits(Family::Gpio, handle) is Err ==> r == refused::<()>(
                old(self).admits(Family::Gpio, handle),
            ) && *final(self) == *old(self),
            r is Ok ==> old(self).handles(Family::Gpio).contains(handle) && final(self).handles(
                Family::Gpio,
            ) == old(self).handles(Family::Gpio).remove(handle),
            r is Err ==> final(self).handles(Family::Gpio) == old(self).handles(Family::Gpio),
    {
        if let Err(e) = self.screen(Family::Gpio, handle) {
            return Err(translate(e));
        }
        let answer = Gpio::deinit(&mut self.backend, handle);
        self.gpio.record_close(handle, answer)
    }

    /// Drives an open pin to `value`.
    pub fn gpio_set(&mut self, handle: i32, value: Value) -> (r: Result<(), ErrorCode>)
        requires
            old(self).wf(),
        ensures
            final(self).wf(),
            final(self).settled(old(self), Family::Gpio, old(self).admits(Family::Gpio, handle), r),
    {
        if let Err(e) = self.screen(Family::Gpio, handle) {
            return Err(translate(e));
        }
        Gpio::set(&mut self.backend, handle, to_pin_state(value))
    }

    /// Reads the level of an open pin.
    pub fn gpio_get(&mut self, handle: i32) -> (r: Result<Value, ErrorCode>)
        requires
            old(self).wf(),
        ensures
            final(self).wf(),
            final(self).settled(old(self), Family::Gpio, old(self).admits(Family::Gpio, handle), r),
    {
        if let Err(e) = self.screen(Family::Gpio, handle) {
            return Err(translate(e));
        }
        match Gpio::get(&mut self.backend, handle) {
            Ok(s) => Ok(to_value(s)),
            Err(e) => Err(e),
        }
    }
}

} // verus!

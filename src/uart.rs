use vstd::prelude::*;

use crate::backend::{Backend, Family, Uart};
use crate::buffer::{
    Access, BufferDescriptor, kept_outside, region_of, resolve, view, view_mut,
};
use crate::error::{ErrorCode, translate};
use crate::gateway::{Context, refused};

verus! {

impl<B: Backend> Context<B> {
    /// Opens UART port `dev` at `baud` on pins `tx` and `rx`. On success the
    /// handle is fresh and now open; on failure no handle table changes.
    pub fn uart_init(&mut self, dev: u32, baud: u32, tx: i32, rx: i32) -> (r: Result<i32, ErrorCode>)
        requires
            old(self).wf(),
        ensures
            final(self).wf(),
            final(self).same_except(old(self), Family::Uart),
            !old(self).bound().uart ==> r == Err::<i32, ErrorCode>(ErrorCode::Unsupported)
                && *final(self) == *old(self),
            r matches Ok(h) ==> h >= 0 && !old(self).handles(Family::Uart).contains(h)
                && final(self).handles(Family::Uart) == old(self).handles(Family::Uart).insert(h),
            r is Err ==> final(self).handles(Family::Uart) == old(self).handles(Family::Uart),
    {
        if !self.families.uart {
            return Err(ErrorCode::Unsupported);
        }
        let answer = Uart::init(&mut self.backend, dev, baud, tx, rx);
        self.uart.record_open(answer)
    }

    /// Closes an open UART port. A handle that is not open, including one
    /// already closed, is refused.
    pub fn uart_deinit(&mut self, handle: i32) -> (r: Result<(), ErrorCode>)
        requires
            old(self).wf(),
        ensures
            final(self).wf(),
            final(self).same_except(old(self), Family::Uart),
            old(self).admits(Family::Uart, handle) is Err ==> r == refused::<()>(
                old(self).admits(Family::Uart, handle),
            ) && *final(self) == *old(self),
            r is Ok ==> old(self).handles(Family::Uart).contains(handle) && final(self).handles(
                Family::Uart,
            ) == old(self).handles(Family::Uart).remove(handle),
            r is Err ==> final(self).handles(Family::Uart) == old(self).handles(Family::Uart),
    {
        if let Err(e) = self.screen(Family::Uart, handle) {
            return Err(translate(e));
        }
        let answer = Uart::deinit(&mut self.backend, handle);
        self.uart.record_close(handle, answer)
    }

    /// Sends the guest's readable buffer `data`. `flags` goes to the driver
    /// as it is, its bits kept.
    pub fn uart_write(&mut self, mem: &[u8], handle: i32, flags: i32, data: BufferDescriptor) -> (r:
        Result<(), ErrorCode>)
        requires
            old(self).wf(),
        ensures
            final(self).wf(),
            final(self).settled(
                old(self),
                Family::Uart,
                old(self).single_check(Family::Uart, handle, data, Access::Read, mem@.len() as int),
                r,
            ),
    {
        if let Err(e) = self.screen(Family::Uart, handle) {
            return Err(translate(e));
        }
        let g = match resolve(mem.len(), data, Access::Read) {
            Ok(g) => g,
            Err(e) => return Err(translate(e)),
        };
        Uart::write(&mut self.backend, handle, flags as u32, view(mem, g))
    }

    /// Receives into the guest's writable buffer `buff`. `flags` goes to the
    /// driver as it is, its bits kept. Only the bytes of `buff` can change in
    /// guest memory.
    pub fn uart_read(&mut self, mem: &mut [u8], handle: i32, flags: i32, buff: BufferDescriptor) -> (r:
        Result<(), ErrorCode>)
        requires
            old(self).wf(),
        ensures
            final(self).wf(),
            final(self).settled(
                old(self),
                Family::Uart,
                old(self).single_check(Family::Uart, handle, buff, Access::Write, old(mem)@.len() as int),
                r,
            ),
            old(self).single_check(Family::Uart, handle, buff, Access::Write, old(mem)@.len() as int) is Err
                ==> final(mem)@ == old(mem)@,
            old(self).single_check(Family::Uart, handle, buff, Access::Write, old(mem)@.len() as int) is Ok
                ==> kept_outside(old(mem)@, final(mem)@, region_of(buff)),
    {
        if let Err(e) = self.screen(Family::Uart, handle) {
            return Err(translate(e));
        }
        let g = match resolve(mem.len(), buff, Access::Write) {
            Ok(g) => g,
            Err(e) => return Err(translate(e)),
        };
        let b = view_mut(mem, g);
        Uart::read(&mut self.backend, handle, flags as u32, b)
    }
}

} // verus!

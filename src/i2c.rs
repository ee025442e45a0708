use vstd::prelude::*;

use crate::backend::{Backend, Family, I2c};
use crate::buffer::{
    Access, BufferDescriptor, kept_outside, region_of, resolve, resolve_pair, view, view_mut,
    view_pair,
};
use crate::error::{ErrorCode, translate};
use crate::gateway::{Context, refused};

verus! {

impl<B: Backend> Context<B> {
    /// Opens I2C port `dev` at `baud` on pins `sda` and `scl`. On success the
    /// handle is fresh and now open; on failure no handle table changes.
    pub fn i2c_init(&mut self, dev: u32, baud: u32, sda: i32, scl: i32) -> (r: Result<i32, ErrorCode>)
        requires
            old(self).wf(),
        ensures
            final(self).wf(),
            final(self).same_except(old(self), Family::I2c),
            !old(self).bound().i2c ==> r == Err::<i32, ErrorCode>(ErrorCode::Unsupported)
                && *final(self) == *old(self),
            r matches Ok(h) ==> h >= 0 && !old(self).handles(Family::I2c).contains(h)
                && final(self).handles(Family::I2c) == old(self).handles(Family::I2c).insert(h),
            r is Err ==> final(self).handles(Family::I2c) == old(self).handles(Family::I2c),
    {
        if !self.families.i2c {
            return Err(ErrorCode::Unsupported);
        }
        let answer = I2c::init(&mut self.backend, dev, baud, sda, scl);
        self.i2c.record_open(answer)
    }

    /// Closes an open I2C port. A handle that is not open, including one
    /// already closed, is refused.
    pub fn i2c_deinit(&mut self, handle: i32) -> (r: Result<(), ErrorCode>)
        requires
            old(self).wf(),
        ensures
            final(self).wf(),
            final(self).same_except(old(self), Family::I2c),
            old(self).admits(Family::I2c, handle) is Err ==> r == refused::<()>(
                old(self).admits(Family::I2c, handle),
            ) && *final(self) == *old(self),
            r is Ok ==> old(self).handles(Family::I2c).contains(handle) && final(self).handles(
                Family::I2c,
            ) == old(self).handles(Family::I2c).remove(handle),
            r is Err ==> final(self).handles(Family::I2c) == old(self).handles(Family::I2c),
    {
        if let Err(e) = self.screen(Family::I2c, handle) {
            return Err(translate(e));
        }
        let answer = I2c::deinit(&mut self.backend, handle);
        self.i2c.record_close(handle, answer)
    }

    /// Writes the guest's readable buffer `data` to the device at `addr`.
    /// The address is passed on unchecked.
    pub fn i2c_write(&mut self, mem: &[u8], handle: i32, addr: u16, data: BufferDescriptor) -> (r:
        Result<(), ErrorCode>)
        requires
            old(self).wf(),
        ensures
            final(self).wf(),
            final(self).settled(
                old(self),
                Family::I2c,
                old(self).single_check(Family::I2c, handle, data, Access::Read, mem@.len() as int),
                r,
            ),
    {
        if let Err(e) = self.screen(Family::I2c, handle) {
            return Err(translate(e));
        }
        let g = match resolve(mem.len(), data, Access::Read) {
            Ok(g) => g,
            Err(e) => return Err(translate(e)),
        };
        I2c::write(&mut self.backend, handle, addr, view(mem, g))
    }

    /// Reads from the device at `addr` into the guest's writable buffer
    /// `buff`. Only the bytes of `buff` can change in guest memory.
    pub fn i2c_read(&mut self, mem: &mut [u8], handle: i32, addr: u16, buff: BufferDescriptor) -> (r:
        Result<(), ErrorCode>)
        requires
            old(self).wf(),
        ensures
            final(self).wf(),
            final(self).settled(
                old(self),
                Family::I2c,
                old(self).single_check(Family::I2c, handle, buff, Access::Write, old(mem)@.len() as int),
                r,
            ),
            old(self).single_check(Family::I2c, handle, buff, Access::Write, old(mem)@.len() as int) is Err
                ==> final(mem)@ == old(mem)@,
            old(self).single_check(Family::I2c, handle, buff, Access::Write, old(mem)@.len() as int) is Ok
                ==> kept_outside(old(mem)@, final(mem)@, region_of(buff)),
    {
        if let Err(e) = self.screen(Family::I2c, handle) {
            return Err(translate(e));
        }
        let g = match resolve(mem.len(), buff, Access::Write) {
            Ok(g) => g,
            Err(e) => return Err(translate(e)),
        };
        let b = view_mut(mem, g);
        I2c::read(&mut self.backend, handle, addr, b)
    }

    /// Writes the guest's readable buffer `data` to the device at `addr`,
    /// then reads into its writable buffer `buff`, as one transaction. The
    /// two must not overlap. Only the bytes of `buff` can change in guest
    /// memory.
    pub fn i2c_write_read(
        &mut self,
        mem: &mut [u8],
        handle: i32,
        addr: u16,
        data: BufferDescriptor,
        buff: BufferDescriptor,
    ) -> (r: Result<(), ErrorCode>)
        requires
            old(self).wf(),
        ensures
            final(self).wf(),
            final(self).settled(
                old(self),
                Family::I2c,
                old(self).pair_call_check(Family::I2c, handle, data, buff, old(mem)@.len() as int),
                r,
            ),
            old(self).pair_call_check(Family::I2c, handle, data, buff, old(mem)@.len() as int) is Err
                ==> final(mem)@ == old(mem)@,
            old(self).pair_call_check(Family::I2c, handle, data, buff, old(mem)@.len() as int) is Ok
                ==> kept_outside(old(mem)@, final(mem)@, region_of(buff)),
    {
        if let Err(e) = self.screen(Family::I2c, handle) {
            return Err(translate(e));
        }
        let (src, dst) = match resolve_pair(mem.len(), data, buff) {
            Ok(p) => p,
            Err(e) => return Err(translate(e)),
        };
        let (d, b) = view_pair(mem, src, dst);
        I2c::write_read(&mut self.backend, handle, addr, d, b)
    }
}

} // verus!

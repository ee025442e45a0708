use vstd::prelude::*;

use crate::backend::{Backend, Family, Spi};
use crate::buffer::{
    Access, BufferDescriptor, kept_outside, region_of, resolve, resolve_pair, view, view_mut,
    view_pair,
};
use crate::error::{ErrorCode, GatewayError, and_then, translate};
use crate::gateway::{Context, refused};

verus! {

/// A full-duplex transfer moves as many bytes in as out.
pub open spec fn length_check(read: BufferDescriptor, write: BufferDescriptor) -> Result<
    (),
    GatewayError,
> {
    if read.len == write.len {
        Ok(())
    } else {
        Err(GatewayError::LengthMismatch)
    }
}

impl<B: Backend> Context<B> {
    /// Opens SPI device `dev` at `baud`; a pin of -1 asks for the driver's
    /// default. On success the handle is fresh and now open; on failure no
    /// handle table changes.
    pub fn spi_init(&mut self, dev: u32, baud: u32, mosi: i32, miso: i32, sck: i32, cs: i32) -> (r:
        Result<i32, ErrorCode>)
        requires
            old(self).wf(),
        ensures
            final(self).wf(),
            final(self).same_except(old(self), Family::Spi),
            !old(self).bound().spi ==> r == Err::<i32, ErrorCode>(ErrorCode::Unsupported)
                && *final(self) == *old(self),
            r matches Ok(h) ==> h >= 0 && !old(self).handles(Family::Spi).contains(h)
                && final(self).handles(Family::Spi) == old(self).handles(Family::Spi).insert(h),
            r is Err ==> final(self).handles(Family::Spi) == old(self).handles(Family::Spi),
    {
        if !self.families.spi {
            return Err(ErrorCode::Unsupported);
        }
        let answer = Spi::init(&mut self.backend, dev, baud, mosi, miso, sck, cs);
        self.spi.record_open(answer)
    }

    /// Closes an open SPI device. A handle that is not open, including one
    /// already closed, is refused.
    pub fn spi_deinit(&mut self, handle: i32) -> (r: Result<(), ErrorCode>)
        requires
            old(self).wf(),
        ensures
            final(self).wf(),
            final(self).same_except(old(self), Family::Spi),
            old(self).admits(Family::Spi, handle) is Err ==> r == refused::<()>(
                old(self).admits(Family::Spi, handle),
            ) && *final(self) == *old(self),
            r is Ok ==> old(self).handles(Family::Spi).contains(handle) && final(self).handles(
                Family::Spi,
            ) == old(self).handles(Family::Spi).remove(handle),
            r is Err ==> final(self).handles(Family::Spi) == old(self).handles(Family::Spi),
    {
        if let Err(e) = self.screen(Family::Spi, handle) {
            return Err(translate(e));
        }
        let answer = Spi::deinit(&mut self.backend, handle);
        self.spi.record_close(handle, answer)
    }

    /// Reads from the bus into the guest's buffer `data`, which must be
    /// writable. Only the bytes of `data` can change in guest memory.
    pub fn spi_read(&mut self, mem: &mut [u8], handle: i32, data: BufferDescriptor) -> (r: Result<
        (),
        ErrorCode,
    >)
        requires
            old(self).wf(),
        ensures
            final(self).wf(),
            final(self).settled(
                old(self),
                Family::Spi,
                old(self).single_check(Family::Spi, handle, data, Access::Write, old(mem)@.len() as int),
                r,
            ),
            old(self).single_check(Family::Spi, handle, data, Access::Write, old(mem)@.len() as int) is Err
                ==> final(mem)@ == old(mem)@,
            old(self).single_check(Family::Spi, handle, data, Access::Write, old(mem)@.len() as int) is Ok
                ==> kept_outside(old(mem)@, final(mem)@, region_of(data)),
    {
        if let Err(e) = self.screen(Family::Spi, handle) {
            return Err(translate(e));
        }
        let g = match resolve(mem.len(), data, Access::Write) {
            Ok(g) => g,
            Err(e) => return Err(translate(e)),
        };
        let d = view_mut(mem, g);
        Spi::read(&mut self.backend, handle, d)
    }

    /// Writes the guest's buffer `data`, which must be readable, to the bus.
    pub fn spi_write(&mut self, mem: &[u8], handle: i32, data: BufferDescriptor) -> (r: Result<
        (),
        ErrorCode,
    >)
        requires
            old(self).wf(),
        ensures
            final(self).wf(),
            final(self).settled(
                old(self),
                Family::Spi,
                old(self).single_check(Family::Spi, handle, data, Access::Read, mem@.len() as int),
                r,
            ),
    {
        if let Err(e) = self.screen(Family::Spi, handle) {
            return Err(translate(e));
        }
        let g = match resolve(mem.len(), data, Access::Read) {
            Ok(g) => g,
            Err(e) => return Err(translate(e)),
        };
        Spi::write(&mut self.backend, handle, view(mem, g))
    }

    /// Clocks the guest's readable buffer `write` out while clocking bytes
    /// into its writable buffer `read`. The two must not overlap and must be
    /// of one length. Only the bytes of `read` can change in guest memory.
    pub fn spi_transfer(
        &mut self,
        mem: &mut [u8],
        handle: i32,
        read: BufferDescriptor,
        write: BufferDescriptor,
    ) -> (r: Result<(), ErrorCode>)
        requires
            old(self).wf(),
        ensures
            final(self).wf(),
            final(self).settled(
                old(self),
                Family::Spi,
                and_then(
                    old(self).pair_call_check(Family::Spi, handle, write, read, old(mem)@.len() as int),
                    length_check(read, write),
                ),
                r,
            ),
            and_then(
                old(self).pair_call_check(Family::Spi, handle, write, read, old(mem)@.len() as int),
                length_check(read, write),
            ) is Err ==> final(mem)@ == old(mem)@,
            and_then(
                old(self).pair_call_check(Family::Spi, handle, write, read, old(mem)@.len() as int),
                length_check(read, write),
            ) is Ok ==> kept_outside(old(mem)@, final(mem)@, region_of(read)),
    {
        if let Err(e) = self.screen(Family::Spi, handle) {
            return Err(translate(e));
        }
        let (src, dst) = match resolve_pair(mem.len(), write, read) {
            Ok(p) => p,
            Err(e) => return Err(translate(e)),
        };
        if read.len != write.len {
            return Err(translate(GatewayError::LengthMismatch));
        }
        let (w, r) = view_pair(mem, src, dst);
        Spi::transfer(&mut self.backend, handle, r, w)
    }

    /// Clocks the guest's buffer `data` out and replaces it with the bytes
    /// clocked in: one region, which must be readable and writable, serves
    /// both directions. Only the bytes of `data` can change in guest memory.
    pub fn spi_transfer_inplace(&mut self, mem: &mut [u8], handle: i32, data: BufferDescriptor) -> (r:
        Result<(), ErrorCode>)
        requires
            old(self).wf(),
        ensures
            final(self).wf(),
            final(self).settled(
                old(self),
                Family::Spi,
                old(self).single_check(Family::Spi, handle, data, Access::ReadWrite, old(mem)@.len() as int),
                r,
            ),
            old(self).single_check(Family::Spi, handle, data, Access::ReadWrite, old(mem)@.len() as int)
                is Err ==> final(mem)@ == old(mem)@,
            old(self).single_check(Family::Spi, handle, data, Access::ReadWrite, old(mem)@.len() as int)
                is Ok ==> kept_outside(old(mem)@, final(mem)@, region_of(data)),
    {
        if let Err(e) = self.screen(Family::Spi, handle) {
            return Err(translate(e));
        }
        let g = match resolve(mem.len(), data, Access::ReadWrite) {
            Ok(g) => g,
            Err(e) => return Err(translate(e)),
        };
        let d = view_mut(mem, g);
        Spi::transfer_inplace(&mut self.backend, handle, d)
    }
}

} // verus!

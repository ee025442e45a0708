use vstd::prelude::*;

use crate::backend::{Backend, Families, Family};
use crate::buffer::{Access, BufferDescriptor, buffer_check, pair_check};
use crate::error::{ErrorCode, GatewayError, and_then, code_of};
use crate::handles::HandleTable;

verus! {

/// The state of one guest session: the backend it owns for its whole
/// lifetime, the families that backend provides, and the open handles of
/// each family.
///
/// A session's calls run one at a time; one backend shared by two sessions
/// is not supported.
pub struct Context<B> {
    pub(crate) backend: B,
    pub(crate) families: Families,
    pub(crate) gpio: HandleTable,
    pub(crate) spi: HandleTable,
    pub(crate) i2c: HandleTable,
    pub(crate) uart: HandleTable,
}

/// Why a call on handle `h` of a family is refused before the backend is
/// asked: the family is not bound, or the handle is not open.
pub open spec fn handle_check(bound: bool, open: Set<i32>, h: i32) -> Result<(), GatewayError> {
    if !bound {
        Err(GatewayError::FamilyUnbound)
    } else if !open.contains(h) {
        Err(GatewayError::HandleNotOpen)
    } else {
        Ok(())
    }
}

/// The result a guest sees for the refusal `c`. Only a failed check is a
/// refusal; a passed one has no code of its own and is given `Unexpected`.
pub open spec fn refused<T>(c: Result<(), GatewayError>) -> Result<T, ErrorCode> {
    match c {
        Err(e) => Err(code_of(e)),
        Ok(_) => Err(ErrorCode::Unexpected),
    }
}

impl<B> Context<B> {
    /// Every family's table is well formed.
    pub open(crate) spec fn wf(&self) -> bool {
        &&& self.gpio.wf()
        &&& self.spi.wf()
        &&& self.i2c.wf()
        &&& self.uart.wf()
    }

    /// The families bound for this session.
    pub open(crate) spec fn bound(&self) -> Families {
        self.families
    }

    /// The open handles of family `f`.
    pub open(crate) spec fn handles(&self, f: Family) -> Set<i32> {
        match f {
            Family::Gpio => self.gpio@,
            Family::Spi => self.spi@,
            Family::I2c => self.i2c@,
            Family::Uart => self.uart@,
        }
    }

    /// The backend's own state.
    pub open(crate) spec fn backend_state(&self) -> B {
        self.backend
    }

    /// `self` and `other` bind the same families, and every family other
    /// than `f` has the same open handles.
    pub open spec fn same_except(&self, other: &Self, f: Family) -> bool {
        &&& self.bound() == other.bound()
        &&& forall|g: Family| g != f ==> #[trigger] self.handles(g) == other.handles(g)
    }

    /// Why a call on handle `h` of family `f` is refused, if it is.
    pub open spec fn admits(&self, f: Family, h: i32) -> Result<(), GatewayError> {
        handle_check(self.bound().has(f), self.handles(f), h)
    }

    /// Why a call on handle `h` of `f` with the one buffer `d`, used with
    /// access `a`, is refused, if it is: the handle first, then the buffer.
    pub open spec fn single_check(
        &self,
        f: Family,
        h: i32,
        d: BufferDescriptor,
        a: Access,
        mem_len: int,
    ) -> Result<(), GatewayError> {
        and_then(self.admits(f, h), buffer_check(d, a, mem_len))
    }

    /// Why a call on handle `h` of `f` with a read-only source `src` and a
    /// writable destination `dst` is refused, if it is.
    pub open spec fn pair_call_check(
        &self,
        f: Family,
        h: i32,
        src: BufferDescriptor,
        dst: BufferDescriptor,
        mem_len: int,
    ) -> Result<(), GatewayError> {
        and_then(self.admits(f, h), pair_check(src, dst, mem_len))
    }

    /// What holds after a call on family `f` that makes the checks `check`
    /// and then at most one backend call: no handle table changes, a refusal
    /// is reported as its code with nothing changed and the backend not
    /// called, and success means every check passed.
    pub open spec fn settled<T>(
        &self,
        before: &Self,
        f: Family,
        check: Result<(), GatewayError>,
        r: Result<T, ErrorCode>,
    ) -> bool {
        &&& self.same_except(before, f)
        &&& self.handles(f) == before.handles(f)
        &&& (check is Err ==> r == refused::<T>(check) && *self == *before)
        &&& (r is Ok ==> check is Ok)
    }

    /// The families bound for this session.
    pub fn families(&self) -> (r: Families)
        ensures
            r == self.bound(),
    {
        self.families
    }

    /// Whether `h` is an open handle of family `f`.
    pub fn is_open(&self, f: Family, h: i32) -> (r: bool)
        ensures
            r == self.handles(f).contains(h),
    {
        match f {
            Family::Gpio => self.gpio.is_open(h),
            Family::Spi => self.spi.is_open(h),
            Family::I2c => self.i2c.is_open(h),
            Family::Uart => self.uart.is_open(h),
        }
    }

    /// The backend, to inspect between calls.
    pub fn backend(&self) -> (r: &B)
        ensures
            *r == self.backend_state(),
    {
        &self.backend
    }

    /// Ends the session, handing the backend back.
    pub fn into_backend(self) -> (r: B)
        ensures
            r == self.backend_state(),
    {
        self.backend
    }

    /// The check made before every call on an open handle.
    pub(crate) fn screen(&self, f: Family, h: i32) -> (r: Result<(), GatewayError>)
        ensures
            r == self.admits(f, h),
    {
        if !self.has(f) {
            return Err(GatewayError::FamilyUnbound);
        }
        if !self.is_open(f, h) {
            return Err(GatewayError::HandleNotOpen);
        }
        Ok(())
    }

    fn has(&self, f: Family) -> (r: bool)
        ensures
            r == self.bound().has(f),
    {
        match f {
            Family::Gpio => self.families.gpio,
            Family::Spi => self.families.spi,
            Family::I2c => self.families.i2c,
            Family::Uart => self.families.uart,
        }
    }
}

impl<B: Backend> Context<B> {
    /// Starts a session on `backend`, binding the families it provides. No
    /// handle is open.
    pub fn new(backend: B) -> (r: Context<B>)
        ensures
            r.wf(),
            r.backend_state() == backend,
            forall|f: Family| #[trigger] r.handles(f) == Set::<i32>::empty(),
    {
        let families = backend.families();
        Context {
            backend,
            families,
            gpio: HandleTable::new(),
            spi: HandleTable::new(),
            i2c: HandleTable::new(),
            uart: HandleTable::new(),
        }
    }
}

} // verus!

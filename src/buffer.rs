use vstd::prelude::*;

use crate::error::{GatewayError, and_then};

verus! {

/// The access a guest grants on a buffer, or an operation asks for.
#[derive(Clone, Copy, Debug, PartialEq, Eq, Structural)]
pub enum Access {
    Read,
    Write,
    ReadWrite,
}

/// An untrusted (address, length) pair naming bytes of guest memory, with
/// the access the guest grants on them.
#[derive(Clone, Copy, Debug, PartialEq, Eq, Structural)]
pub struct BufferDescriptor {
    pub ptr: u32,
    pub len: u32,
    pub access: Access,
}

/// A checked range `start..end` of guest memory.
#[derive(Clone, Copy, Debug, PartialEq, Eq, Structural)]
pub struct Region {
    pub start: usize,
    pub end: usize,
}

impl Region {
    /// The region lies inside a memory of `mem_len` bytes.
    pub open spec fn within(self, mem_len: int) -> bool {
        self.start <= self.end <= mem_len
    }
}

/// A grant covers a request when it is the same access or read-write.
pub open spec fn permits(granted: Access, requested: Access) -> bool {
    granted == Access::ReadWrite || granted == requested
}

/// The descriptor's bytes lie entirely inside a memory of `mem_len` bytes.
pub open spec fn in_bounds(desc: BufferDescriptor, mem_len: int) -> bool {
    desc.ptr as int + desc.len as int <= mem_len
}

/// Why a buffer is refused: it does not lie in a memory of `mem_len` bytes,
/// or it does not grant the access the operation needs.
pub open spec fn buffer_check(d: BufferDescriptor, requested: Access, mem_len: int) -> Result<
    (),
    GatewayError,
> {
    if !in_bounds(d, mem_len) {
        Err(GatewayError::OutOfBounds)
    } else if !permits(d.access, requested) {
        Err(GatewayError::AccessDenied)
    } else {
        Ok(())
    }
}

/// The bytes a descriptor names.
pub open spec fn region_of(d: BufferDescriptor) -> Region {
    Region { start: d.ptr as usize, end: (d.ptr + d.len) as usize }
}

/// Two regions share no byte.
pub open spec fn disjoint(a: Region, b: Region) -> bool {
    a.end <= b.start || b.end <= a.start
}

/// Why the pair of a read-only source `src` and a writable destination `dst`
/// is refused: either buffer on its own, or their overlap.
pub open spec fn pair_check(src: BufferDescriptor, dst: BufferDescriptor, mem_len: int) -> Result<
    (),
    GatewayError,
> {
    and_then(
        buffer_check(src, Access::Read, mem_len),
        and_then(
            buffer_check(dst, Access::Write, mem_len),
            if disjoint(region_of(src), region_of(dst)) {
                Ok(())
            } else {
                Err(GatewayError::Aliased)
            },
        ),
    )
}

/// `mem` with the bytes of `g` replaced by `inner`.
pub open spec fn spliced(mem: Seq<u8>, g: Region, inner: Seq<u8>) -> Seq<u8> {
    mem.subrange(0, g.start as int) + inner + mem.subrange(g.end as int, mem.len() as int)
}

/// `new` is `old` with the bytes of `g` replaced by as many other bytes:
/// same length, and every byte outside `g` kept.
pub open spec fn kept_outside(old: Seq<u8>, new: Seq<u8>, g: Region) -> bool {
    exists|v: Seq<u8>| v.len() == g.end - g.start && new == #[trigger] spliced(old, g, v)
}

/// What `kept_outside` pins: the length of guest memory, and each byte
/// before and after the region.
pub proof fn kept_outside_pins_bytes(old: Seq<u8>, new: Seq<u8>, g: Region)
    requires
        g.within(old.len() as int),
        kept_outside(old, new, g),
    ensures
        new.len() == old.len(),
        forall|i: int| 0 <= i < old.len() && !(g.start <= i < g.end) ==> #[trigger] new[i] == old[i],
{
    let v = choose|v: Seq<u8>| v.len() == g.end - g.start && new == #[trigger] spliced(old, g, v);
    assert forall|i: int| 0 <= i < old.len() && !(g.start <= i < g.end) implies #[trigger] new[i]
        == old[i] by {
        if i < g.start {
            assert(new[i] == old.subrange(0, g.start as int)[i]);
        } else {
            assert(new[i] == old.subrange(g.end as int, old.len() as int)[i - g.end]);
        }
    }
}

/// Checks a descriptor against the guest memory's length and the access an
/// operation needs, before any byte is touched.
pub fn resolve(mem_len: usize, desc: BufferDescriptor, requested: Access) -> (r: Result<
    Region,
    GatewayError,
>)
    ensures
        r is Ok <==> buffer_check(desc, requested, mem_len as int) is Ok,
        r matches Err(e) ==> buffer_check(desc, requested, mem_len as int) == Err::<(), _>(e),
        r matches Ok(g) ==> g == region_of(desc) && g.within(mem_len as int),
{
    let ptr = desc.ptr as usize;
    let len = desc.len as usize;
    if ptr > mem_len || len > mem_len - ptr {
        return Err(GatewayError::OutOfBounds);
    }
    let granted = match (desc.access, requested) {
        (Access::ReadWrite, _) => true,
        (Access::Read, Access::Read) => true,
        (Access::Write, Access::Write) => true,
        _ => false,
    };
    if !granted {
        return Err(GatewayError::AccessDenied);
    }
    Ok(Region { start: ptr, end: ptr + len })
}

/// Checks a read-only source and a writable destination of one operation:
/// each on its own, then that they share no byte.
pub fn resolve_pair(mem_len: usize, src: BufferDescriptor, dst: BufferDescriptor) -> (r: Result<
    (Region, Region),
    GatewayError,
>)
    ensures
        r is Ok <==> pair_check(src, dst, mem_len as int) is Ok,
        r matches Err(e) ==> pair_check(src, dst, mem_len as int) == Err::<(), _>(e),
        r matches Ok(p) ==> p.0 == region_of(src) && p.1 == region_of(dst) && p.0.within(
            mem_len as int,
        ) && p.1.within(mem_len as int) && disjoint(p.0, p.1),
{
    let s = match resolve(mem_len, src, Access::Read) {
        Ok(g) => g,
        Err(e) => return Err(e),
    };
    let d = match resolve(mem_len, dst, Access::Write) {
        Ok(g) => g,
        Err(e) => return Err(e),
    };
    if !(s.end <= d.start || d.end <= s.start) {
        return Err(GatewayError::Aliased);
    }
    Ok((s, d))
}

/// A read-only view of a region of guest memory, without copying.
pub fn view(mem: &[u8], region: Region) -> (r: &[u8])
    requires
        region.within(mem@.len() as int),
    ensures
        r@ == mem@.subrange(region.start as int, region.end as int),
{
    &mem[region.start..region.end]
}

/// A writable view of a region of guest memory, without copying. Whatever is
/// written through the view lands in that region, and the bytes around it
/// are kept.
pub fn view_mut(mem: &mut [u8], region: Region) -> (r: &mut [u8])
    requires
        region.within(old(mem)@.len() as int),
    ensures
        r@ == old(mem)@.subrange(region.start as int, region.end as int),
        final(mem)@ == spliced(old(mem)@, region, final(r)@),
{
    let (_, rest) = mem.split_at_mut(region.start);
    let (inner, _) = rest.split_at_mut(region.end - region.start);
    inner
}

/// A read-only view of `src` and a writable view of `dst`, two disjoint
/// regions of guest memory, without copying. Only `dst` can change.
pub fn view_pair<'a>(mem: &'a mut [u8], src: Region, dst: Region) -> (r: (&'a [u8], &'a mut [u8]))
    requires
        src.within(old(mem)@.len() as int),
        dst.within(old(mem)@.len() as int),
        disjoint(src, dst),
    ensures
        r.0@ == old(mem)@.subrange(src.start as int, src.end as int),
        r.1@ == old(mem)@.subrange(dst.start as int, dst.end as int),
        final(mem)@ == spliced(old(mem)@, dst, final(r.1)@),
{
    if src.end <= dst.start {
        let (left, right) = mem.split_at_mut(dst.start);
        let (w, _) = right.split_at_mut(dst.end - dst.start);
        let left: &'a [u8] = left;
        (&left[src.start..src.end], w)
    } else {
        let (left, right) = mem.split_at_mut(src.start);
        let (_, rest) = left.split_at_mut(dst.start);
        let (w, _) = rest.split_at_mut(dst.end - dst.start);
        let right: &'a [u8] = right;
        (&right[0..src.end - src.start], w)
    }
}

} // verus!

use vstd::prelude::*;

use crate::backend::Family;
use crate::buffer::{Access, BufferDescriptor, in_bounds};
use crate::error::{ErrorCode, GatewayError};
use crate::gateway::{Context, refused};

verus! {

/// A handle that is not open in family `f` is refused by every operation of
/// that family but `init`, whatever buffers come with it: the guest sees
/// `InvalidArgument` when the family is bound and `Unsupported` when it is
/// not. A refused call leaves the session, backend included, as it was (see
/// `Context::settled`).
pub proof fn handle_not_open_is_refused<B>(ctx: Context<B>, f: Family, h: i32)
    requires
        !ctx.handles(f).contains(h),
    ensures
        ctx.admits(f, h) is Err,
        ctx.bound().has(f) ==> refused::<()>(ctx.admits(f, h)) == Err::<(), ErrorCode>(
            ErrorCode::InvalidArgument,
        ),
        !ctx.bound().has(f) ==> refused::<()>(ctx.admits(f, h)) == Err::<(), ErrorCode>(
            ErrorCode::Unsupported,
        ),
        forall|d: BufferDescriptor, a: Access, mem_len: int|
            #[trigger] ctx.single_check(f, h, d, a, mem_len) == ctx.admits(f, h),
        forall|src: BufferDescriptor, dst: BufferDescriptor, mem_len: int|
            #[trigger] ctx.pair_call_check(f, h, src, dst, mem_len) == ctx.admits(f, h),
{
}

/// A family the backend does not provide answers `Unsupported` to every
/// operation on any handle, before any buffer is looked at and without
/// asking the backend.
pub proof fn unbound_family_is_unsupported<B>(ctx: Context<B>, f: Family, h: i32)
    requires
        !ctx.bound().has(f),
    ensures
        refused::<()>(ctx.admits(f, h)) == Err::<(), ErrorCode>(ErrorCode::Unsupported),
        forall|d: BufferDescriptor, a: Access, mem_len: int|
            #[trigger] ctx.single_check(f, h, d, a, mem_len) == Err::<(), GatewayError>(
                GatewayError::FamilyUnbound,
            ),
        forall|src: BufferDescriptor, dst: BufferDescriptor, mem_len: int|
            #[trigger] ctx.pair_call_check(f, h, src, dst, mem_len) == Err::<(), GatewayError>(
                GatewayError::FamilyUnbound,
            ),
{
}

/// A handle that a successful `init` returned is open; once a successful
/// `deinit` has closed it, every operation on that handle value is refused
/// with `InvalidArgument`, a second `deinit` included.
///
/// `opened` is the session after `init` returned `h` in `before`, and
/// `closed` the session after `deinit(h)` succeeded in `opened`, as those
/// operations state it.
pub proof fn deinit_closes_for_good<B>(
    before: Context<B>,
    opened: Context<B>,
    closed: Context<B>,
    f: Family,
    h: i32,
)
    requires
        opened.bound() == before.bound(),
        opened.bound().has(f),
        opened.handles(f) == before.handles(f).insert(h),
        closed.bound() == opened.bound(),
        closed.handles(f) == opened.handles(f).remove(h),
    ensures
        opened.handles(f).contains(h),
        opened.admits(f, h) is Ok,
        !closed.handles(f).contains(h),
        closed.admits(f, h) == Err::<(), GatewayError>(GatewayError::HandleNotOpen),
        refused::<()>(closed.admits(f, h)) == Err::<(), ErrorCode>(ErrorCode::InvalidArgument),
        forall|d: BufferDescriptor, a: Access, mem_len: int|
            #[trigger] closed.single_check(f, h, d, a, mem_len) == closed.admits(f, h),
        forall|src: BufferDescriptor, dst: BufferDescriptor, mem_len: int|
            #[trigger] closed.pair_call_check(f, h, src, dst, mem_len) == closed.admits(f, h),
{
    handle_not_open_is_refused(closed, f, h);
}

/// A buffer that does not lie inside guest memory is refused, with
/// `InvalidArgument` once the handle is accepted, whether it comes alone or
/// as either buffer of a pair. A refused call leaves the session, backend
/// included, as it was (see `Context::settled`): the backend is never asked.
pub proof fn out_of_bounds_never_reaches_backend<B>(
    ctx: Context<B>,
    f: Family,
    h: i32,
    d: BufferDescriptor,
    mem_len: int,
)
    requires
        !in_bounds(d, mem_len),
    ensures
        forall|a: Access| #[trigger] ctx.single_check(f, h, d, a, mem_len) is Err,
        forall|a: Access|
            ctx.admits(f, h) is Ok ==> #[trigger] refused::<()>(
                ctx.single_check(f, h, d, a, mem_len),
            ) == Err::<(), ErrorCode>(ErrorCode::InvalidArgument),
        forall|other: BufferDescriptor| #[trigger]
            ctx.pair_call_check(f, h, d, other, mem_len) is Err,
        forall|other: BufferDescriptor| #[trigger]
            ctx.pair_call_check(f, h, other, d, mem_len) is Err,
        forall|other: BufferDescriptor|
            ctx.admits(f, h) is Ok ==> #[trigger] refused::<()>(
                ctx.pair_call_check(f, h, d, other, mem_len),
            ) == Err::<(), ErrorCode>(ErrorCode::InvalidArgument),
        forall|other: BufferDescriptor|
            ctx.admits(f, h) is Ok ==> #[trigger] refused::<()>(
                ctx.pair_call_check(f, h, other, d, mem_len),
            ) == Err::<(), ErrorCode>(ErrorCode::InvalidArgument),
{
}

} // verus!

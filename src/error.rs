use vstd::prelude::*;

verus! {

/// The error codes a guest can observe.
#[derive(Clone, Copy, Debug, PartialEq, Eq, Structural)]
pub enum ErrorCode {
    InvalidArgument,
    Unexpected,
    Failed,
    NoDevice,
    Unsupported,
}

/// The gateway's internal error taxonomy, richer than what a guest sees.
#[derive(Clone, Copy, Debug, PartialEq, Eq, Structural)]
pub enum GatewayError {
    /// A buffer descriptor that does not lie inside guest memory.
    OutOfBounds,
    /// A buffer descriptor that does not grant the access an operation needs.
    AccessDenied,
    /// Two buffers of one operation that overlap.
    Aliased,
    /// Two buffers of one full-duplex transfer whose lengths differ.
    LengthMismatch,
    /// A handle that is not open in its family's table, whether it was
    /// closed or never handed out.
    HandleNotOpen,
    /// A backend answer that contradicts the gateway's handle table.
    Inconsistent,
    /// A peripheral family the active backend does not provide.
    FamilyUnbound,
    /// A failure reported by the backend itself.
    Backend(ErrorCode),
}

/// The guest-visible code of each internal error.
pub open spec fn code_of(e: GatewayError) -> ErrorCode {
    match e {
        GatewayError::Aliased => ErrorCode::InvalidArgument,
        GatewayError::LengthMismatch => ErrorCode::InvalidArgument,
        GatewayError::OutOfBounds => ErrorCode::InvalidArgument,
        GatewayError::AccessDenied => ErrorCode::InvalidArgument,
        GatewayError::HandleNotOpen => ErrorCode::InvalidArgument,
        GatewayError::Inconsistent => ErrorCode::Unexpected,
        GatewayError::FamilyUnbound => ErrorCode::Unsupported,
        GatewayError::Backend(c) => c,
    }
}

/// The first refusal of two checks made in turn.
pub open spec fn and_then(a: Result<(), GatewayError>, b: Result<(), GatewayError>) -> Result<
    (),
    GatewayError,
> {
    if a is Err {
        a
    } else {
        b
    }
}

/// Maps an internal error to the code returned across the guest boundary.
/// Total: every internal error has exactly one code.
pub fn translate(e: GatewayError) -> (r: ErrorCode)
    ensures
        r == code_of(e),
{
    match e {
        GatewayError::Aliased => ErrorCode::InvalidArgument,
        GatewayError::LengthMismatch => ErrorCode::InvalidArgument,
        GatewayError::OutOfBounds => ErrorCode::InvalidArgument,
        GatewayError::AccessDenied => ErrorCode::InvalidArgument,
        GatewayError::HandleNotOpen => ErrorCode::InvalidArgument,
        GatewayError::Inconsistent => ErrorCode::Unexpected,
        GatewayError::FamilyUnbound => ErrorCode::Unsupported,
        GatewayError::Backend(c) => c,
    }
}

} // verus!

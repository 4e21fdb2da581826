//! Error kinds reported by every operation of the library.
use vstd::prelude::*;

verus! {

/// The stable error codes an operation can be rejected with.
#[derive(Clone, Copy, Debug, PartialEq, Eq, Structural)]
pub enum CustomErrorCode {
    ReserveDeltaMismatchError,
    RunwayFeeError,
    DisabledPeriodError,
    AmountIsZeroError,
    InitialReserveTooLargeError,
    BaseAndQuoteMatch,
    InvalidCreator,
    InvalidIdLength,
    PeriodLengthError,
    ZeroError,
    ArithmeticError,
    OverflowError,
    UnderflowError,
    CouponDateError,
    CouponClaimedError,
    InvalidRedeemer,
}

/// Turns the `None` of a checked integer operation into an `ArithmeticError`.
pub trait OrArithError<T>: Sized {
    /// The value carried, if any.
    spec fn arith_value(&self) -> Option<T>;

    fn or_arith_error(self) -> (r: Result<T, CustomErrorCode>)
        ensures
            r == (match self.arith_value() {
                Some(v) => Ok(v),
                None => Err(CustomErrorCode::ArithmeticError),
            }),
    ;
}

impl<T> OrArithError<T> for Option<T> {
    open spec fn arith_value(&self) -> Option<T> {
        *self
    }

    fn or_arith_error(self) -> (r: Result<T, CustomErrorCode>) {
        match self {
            Some(v) => Ok(v),
            None => Err(CustomErrorCode::ArithmeticError),
        }
    }
}

} // verus!

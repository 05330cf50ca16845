//! The errors of the library, each naming the check that failed.

use vstd::prelude::*;

verus! {

/// Why an operation was refused.
#[derive(Clone, Copy, Debug, PartialEq, Eq, Structural)]
pub enum MangoError {
    /// The registry holds no instrument with the identity asked for.
    NoSuchToken,
    /// The signer is neither owner nor delegate of the liquidator account.
    InvalidOwnerOrDelegate,
    /// The liquidator account is itself under liquidation.
    BeingLiquidated,
    /// The victim is not under liquidation and its maintenance health is not negative.
    HealthMustBeNegative,
    /// The victim holds no position in the market.
    PerpPositionDoesNotExist,
    /// The liquidator holds no position in the market and has no free slot for one.
    NoFreePerpPositionIndex,
    /// The victim's position still has open orders.
    HasOpenPerpOrders,
    /// The victim's base position is zero: there is nothing to take over.
    BasePositionIsZero,
    /// The victim is long and the requested bound is not positive.
    MaxBaseTransferMustBePositive,
    /// The victim is short and the requested bound is not negative.
    MaxBaseTransferMustBeNegative,
    /// Taking over one lot would not raise the victim's health.
    HealthPerLotNotPositive,
    /// A fixed-point or integer result does not fit its type.
    MathOverflow,
    /// After the transfer the liquidator's initial health is negative.
    HealthMustBePositive,
}

/// The classes into which the errors fall.
#[derive(Clone, Copy, Debug, PartialEq, Eq, Structural)]
pub enum ErrorKind {
    NotFound,
    Authorization,
    State,
    InvariantViolation,
    HealthViolation,
}

impl MangoError {
    pub open spec fn spec_kind(self) -> ErrorKind {
        match self {
            MangoError::NoSuchToken => ErrorKind::NotFound,
            MangoError::InvalidOwnerOrDelegate => ErrorKind::Authorization,
            MangoError::BeingLiquidated => ErrorKind::State,
            MangoError::HealthMustBeNegative => ErrorKind::State,
            MangoError::PerpPositionDoesNotExist => ErrorKind::State,
            MangoError::NoFreePerpPositionIndex => ErrorKind::State,
            MangoError::HasOpenPerpOrders => ErrorKind::State,
            MangoError::BasePositionIsZero => ErrorKind::InvariantViolation,
            MangoError::MaxBaseTransferMustBePositive => ErrorKind::InvariantViolation,
            MangoError::MaxBaseTransferMustBeNegative => ErrorKind::InvariantViolation,
            MangoError::HealthPerLotNotPositive => ErrorKind::InvariantViolation,
            MangoError::MathOverflow => ErrorKind::InvariantViolation,
            MangoError::HealthMustBePositive => ErrorKind::HealthViolation,
        }
    }

    /// The class of the error.
    pub fn kind(self) -> (k: ErrorKind)
        ensures
            k == self.spec_kind(),
    {
        match self {
            MangoError::NoSuchToken => ErrorKind::NotFound,
            MangoError::InvalidOwnerOrDelegate => ErrorKind::Authorization,
            MangoError::BeingLiquidated
            | MangoError::HealthMustBeNegative
            | MangoError::PerpPositionDoesNotExist
            | MangoError::NoFreePerpPositionIndex
            | MangoError::HasOpenPerpOrders => ErrorKind::State,
            MangoError::BasePositionIsZero
            | MangoError::MaxBaseTransferMustBePositive
            | MangoError::MaxBaseTransferMustBeNegative
            | MangoError::HealthPerLotNotPositive
            | MangoError::MathOverflow => ErrorKind::InvariantViolation,
            MangoError::HealthMustBePositive => ErrorKind::HealthViolation,
        }
    }
}

} // verus!

use mango_v4::error::{ErrorKind, MangoError};

#[test]
fn every_error_has_its_class() {
    let classes = [
        (MangoError::NoSuchToken, ErrorKind::NotFound),
        (MangoError::InvalidOwnerOrDelegate, ErrorKind::Authorization),
        (MangoError::BeingLiquidated, ErrorKind::State),
        (MangoError::HealthMustBeNegative, ErrorKind::State),
        (MangoError::PerpPositionDoesNotExist, ErrorKind::State),
        (MangoError::NoFreePerpPositionIndex, ErrorKind::State),
        (MangoError::HasOpenPerpOrders, ErrorKind::State),
        (MangoError::BasePositionIsZero, ErrorKind::InvariantViolation),
        (MangoError::MaxBaseTransferMustBePositive, ErrorKind::InvariantViolation),
        (MangoError::MaxBaseTransferMustBeNegative, ErrorKind::InvariantViolation),
        (MangoError::HealthPerLotNotPositive, ErrorKind::InvariantViolation),
        (MangoError::MathOverflow, ErrorKind::InvariantViolation),
        (MangoError::HealthMustBePositive, ErrorKind::HealthViolation),
    ];
    for (error, class) in classes {
        assert_eq!(error.kind(), class, "{:?}", error);
    }
}

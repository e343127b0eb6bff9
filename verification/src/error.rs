//! The errors of the program, with the numbers and messages that a failed transaction carries.
use vstd::prelude::*;

verus! {

/// The first number given to the variants of a program's own error enum.
pub const ERROR_CODE_OFFSET: u32 = 6000;

/// Refusal of a withdrawal before the shipment has arrived.
#[derive(Clone, Copy, Debug, PartialEq, Eq, Structural)]
pub enum CustomError {
    ShipmentNotArrived,
}

/// Refusals of the refund path.
#[derive(Clone, Copy, Debug, PartialEq, Eq, Structural)]
pub enum DisputeError {
    ShipmentNotArrived,
    ShipmentNotEligibleForRefund,
}

/// Refusals of filing and resolving a dispute.
#[derive(Clone, Copy, Debug, PartialEq, Eq, Structural)]
pub enum FiledDisputeError {
    ShipmentAlreadyDelivered,
    UnauthorizedResolver,
    NoActiveDispute,
    EmptyDisputeReason,
}

/// Refusal of the dispute instruction.
#[derive(Clone, Copy, Debug, PartialEq, Eq, Structural)]
pub enum ErrorCode {
    EmptyDisputeReason,
}

/// The account checks of the framework that the program's instructions can fail.
#[derive(Clone, Copy, Debug, PartialEq, Eq, Structural)]
pub enum FrameworkError {
    /// A stored address differs from the account passed for it.
    ConstraintHasOne,
    /// An account's address is not the one derived from its seeds.
    ConstraintSeeds,
    /// An account's data no longer fits in its space.
    AccountDidNotSerialize,
}

/// Every way in which an instruction of the program fails.
#[derive(Clone, Copy, Debug, PartialEq, Eq, Structural)]
pub enum LumiError {
    Custom(CustomError),
    Dispute(DisputeError),
    FiledDispute(FiledDisputeError),
    Program(ErrorCode),
    Framework(FrameworkError),
    /// No program address could be derived from an account's seeds (a seed longer than 32
    /// bytes, or no bump seed that gives an address): the framework aborts the transaction
    /// without an error number.
    ProgramAddressNotFound,
}

impl CustomError {
    /// The error number.
    pub fn code(&self) -> (r: u32)
        ensures
            r == ERROR_CODE_OFFSET,
    {
        ERROR_CODE_OFFSET
    }

    /// The error message.
    pub fn message(&self) -> (r: &'static str)
        ensures
            r@ == "Shipment has not yet arrived at the destination yet."@,
    {
        "Shipment has not yet arrived at the destination yet."
    }
}

impl DisputeError {
    /// The error number.
    pub fn code(&self) -> (r: u32)
        ensures
            r == ERROR_CODE_OFFSET + match self {
                DisputeError::ShipmentNotArrived => 0u32,
                DisputeError::ShipmentNotEligibleForRefund => 1u32,
            },
    {
        match self {
            DisputeError::ShipmentNotArrived => ERROR_CODE_OFFSET,
            DisputeError::ShipmentNotEligibleForRefund => ERROR_CODE_OFFSET + 1,
        }
    }

    /// The error message.
    pub fn message(&self) -> (r: &'static str)
        ensures
            r@ == match self {
                DisputeError::ShipmentNotArrived => "Shipment has not yet arrived at the destination."@,
                DisputeError::ShipmentNotEligibleForRefund => "Shipment not eligible for refund."@,
            },
    {
        match self {
            DisputeError::ShipmentNotArrived => "Shipment has not yet arrived at the destination.",
            DisputeError::ShipmentNotEligibleForRefund => "Shipment not eligible for refund.",
        }
    }
}

impl FiledDisputeError {
    /// The error number.
    pub fn code(&self) -> (r: u32)
        ensures
            r == ERROR_CODE_OFFSET + match self {
                FiledDisputeError::ShipmentAlreadyDelivered => 0u32,
                FiledDisputeError::UnauthorizedResolver => 1u32,
                FiledDisputeError::NoActiveDispute => 2u32,
                FiledDisputeError::EmptyDisputeReason => 3u32,
            },
    {
        match self {
            FiledDisputeError::ShipmentAlreadyDelivered => ERROR_CODE_OFFSET,
            FiledDisputeError::UnauthorizedResolver => ERROR_CODE_OFFSET + 1,
            FiledDisputeError::NoActiveDispute => ERROR_CODE_OFFSET + 2,
            FiledDisputeError::EmptyDisputeReason => ERROR_CODE_OFFSET + 3,
        }
    }

    /// The error message.
    pub fn message(&self) -> (r: &'static str)
        ensures
            r@ == match self {
                FiledDisputeError::ShipmentAlreadyDelivered => "This shipment has already been delivered."@,
                FiledDisputeError::UnauthorizedResolver => "You are not authorized to resolve this dispute."@,
                FiledDisputeError::NoActiveDispute => "No active dispute to resolve."@,
                FiledDisputeError::EmptyDisputeReason => "Dispute reason cannot be empty."@,
            },
    {
        match self {
            FiledDisputeError::ShipmentAlreadyDelivered => "This shipment has already been delivered.",
            FiledDisputeError::UnauthorizedResolver => "You are not authorized to resolve this dispute.",
            FiledDisputeError::NoActiveDispute => "No active dispute to resolve.",
            FiledDisputeError::EmptyDisputeReason => "Dispute reason cannot be empty.",
        }
    }
}

impl ErrorCode {
    /// The error number.
    pub fn code(&self) -> (r: u32)
        ensures
            r == ERROR_CODE_OFFSET,
    {
        ERROR_CODE_OFFSET
    }

    /// The error message.
    pub fn message(&self) -> (r: &'static str)
        ensures
            r@ == "Dispute reason cannot be empty."@,
    {
        "Dispute reason cannot be empty."
    }
}

/// Calls `u32::from` on the matching variant of `anchor_lang::error::ErrorCode`, whose
/// numbers the framework fixes in its source. Claimed: the numbers that source gives them.
#[verifier::external_body]
fn framework_code(e: FrameworkError) -> (r: u32)
    ensures
        r == match e {
            FrameworkError::ConstraintHasOne => 2001u32,
            FrameworkError::ConstraintSeeds => 2006u32,
            FrameworkError::AccountDidNotSerialize => 3004u32,
        },
{
    let code = match e {
        FrameworkError::ConstraintHasOne => anchor_lang::error::ErrorCode::ConstraintHasOne,
        FrameworkError::ConstraintSeeds => anchor_lang::error::ErrorCode::ConstraintSeeds,
        FrameworkError::AccountDidNotSerialize => anchor_lang::error::ErrorCode::AccountDidNotSerialize,
    };
    u32::from(code)
}

impl FrameworkError {
    /// The error number that the framework gives this check.
    pub fn code(&self) -> (r: u32)
        ensures
            r == match self {
                FrameworkError::ConstraintHasOne => 2001u32,
                FrameworkError::ConstraintSeeds => 2006u32,
                FrameworkError::AccountDidNotSerialize => 3004u32,
            },
    {
        framework_code(*self)
    }
}

impl LumiError {
    /// The error number that the failed transaction carries; `None` where the transaction
    /// aborts without one.
    pub fn error_code(&self) -> (r: Option<u32>)
        ensures
            r == match self {
                LumiError::Custom(_) => Some(ERROR_CODE_OFFSET),
                LumiError::Dispute(e) => Some(
                    (ERROR_CODE_OFFSET + match e {
                        DisputeError::ShipmentNotArrived => 0u32,
                        DisputeError::ShipmentNotEligibleForRefund => 1u32,
                    }) as u32,
                ),
                LumiError::FiledDispute(e) => Some(
                    (ERROR_CODE_OFFSET + match e {
                        FiledDisputeError::ShipmentAlreadyDelivered => 0u32,
                        FiledDisputeError::UnauthorizedResolver => 1u32,
                        FiledDisputeError::NoActiveDispute => 2u32,
                        FiledDisputeError::EmptyDisputeReason => 3u32,
                    }) as u32,
                ),
                LumiError::Program(_) => Some(ERROR_CODE_OFFSET),
                LumiError::Framework(e) => Some(
                    match e {
                        FrameworkError::ConstraintHasOne => 2001u32,
                        FrameworkError::ConstraintSeeds => 2006u32,
                        FrameworkError::AccountDidNotSerialize => 3004u32,
                    },
                ),
                LumiError::ProgramAddressNotFound => None,
            },
    {
        match self {
            LumiError::Custom(e) => Some(e.code()),
            LumiError::Dispute(e) => Some(e.code()),
            LumiError::FiledDispute(e) => Some(e.code()),
            LumiError::Program(e) => Some(e.code()),
            LumiError::Framework(e) => Some(e.code()),
            LumiError::ProgramAddressNotFound => None,
        }
    }
}

} // verus!

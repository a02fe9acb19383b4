use vstd::prelude::*;

use crate::psp22::{psp22_error_debug, OwnableError, PSP22Error, PSP22ErrorView};
use crate::text::{push_bytes_debug, str_debug, str_debug_text};

verus! {

/// Errors of the token contracts beyond those of PSP22.
#[derive(Debug, Clone, PartialEq, Eq)]
pub enum OtherError {
    /// Returned if caller is not contract owner.
    CallerNotOwner,
    /// Returned if stakeholder share is entirely paid out.
    StakeholderSharePaid,
    /// Returned if the stakeholder doesn't exist.
    StakeholderNotFound,
    /// Returned if stakeholder has not yet passed cliff.
    CliffNotPassed,
    /// Returned if it is too soon to payout for month.
    PayoutTooEarly,
    /// Returned if reward is too large.
    PaymentTooLarge,
    /// Returned if socket does not exist.
    NoSocket,
    /// Returned if port does not exist.
    NoPort,
    /// Returned if not contract.
    NotContract,
    /// Returned if only owner can add socket.
    PortLocked,
    /// Returned if port cap is surpassed.
    PortCapSurpassed,
    /// Returned if reward recipient is a contract.
    CannotRewardContract,
    /// Returned if socket contract does not match registered hash.
    UnsafeContract,
    /// Returned if application contract caller is not its operator.
    CallerNotOperator,
    /// Returned if transfer caller is the owner (only the pool-array token returns it).
    CallerIsOwner,
    /// Returned if checked add overflows.
    Overflow,
    /// Returned if checked sub underflows.
    Underflow,
    /// Returned if checked divide errors out.
    DivError,
    /// Returned if share is not greater than zero.
    ShareTooSmall,
    /// Returned if pool number provided is invalid.
    InvalidPool,
    /// Returned if port number provided is invalid.
    InvalidPort,
    /// Custom contract error.
    Custom(String),
}

/// What an `OtherError` says, with its text as a sequence.
pub enum OtherErrorView {
    CallerNotOwner,
    StakeholderSharePaid,
    StakeholderNotFound,
    CliffNotPassed,
    PayoutTooEarly,
    PaymentTooLarge,
    NoSocket,
    NoPort,
    NotContract,
    PortLocked,
    PortCapSurpassed,
    CannotRewardContract,
    UnsafeContract,
    CallerNotOperator,
    CallerIsOwner,
    Overflow,
    Underflow,
    DivError,
    ShareTooSmall,
    InvalidPool,
    InvalidPort,
    Custom(Seq<char>),
}

impl View for OtherError {
    type V = OtherErrorView;

    open spec fn view(&self) -> OtherErrorView {
        match self {
            OtherError::CallerNotOwner => OtherErrorView::CallerNotOwner,
            OtherError::StakeholderSharePaid => OtherErrorView::StakeholderSharePaid,
            OtherError::StakeholderNotFound => OtherErrorView::StakeholderNotFound,
            OtherError::CliffNotPassed => OtherErrorView::CliffNotPassed,
            OtherError::PayoutTooEarly => OtherErrorView::PayoutTooEarly,
            OtherError::PaymentTooLarge => OtherErrorView::PaymentTooLarge,
            OtherError::NoSocket => OtherErrorView::NoSocket,
            OtherError::NoPort => OtherErrorView::NoPort,
            OtherError::NotContract => OtherErrorView::NotContract,
            OtherError::PortLocked => OtherErrorView::PortLocked,
            OtherError::PortCapSurpassed => OtherErrorView::PortCapSurpassed,
            OtherError::CannotRewardContract => OtherErrorView::CannotRewardContract,
            OtherError::UnsafeContract => OtherErrorView::UnsafeContract,
            OtherError::CallerNotOperator => OtherErrorView::CallerNotOperator,
            OtherError::CallerIsOwner => OtherErrorView::CallerIsOwner,
            OtherError::Overflow => OtherErrorView::Overflow,
            OtherError::Underflow => OtherErrorView::Underflow,
            OtherError::DivError => OtherErrorView::DivError,
            OtherError::ShareTooSmall => OtherErrorView::ShareTooSmall,
            OtherError::InvalidPool => OtherErrorView::InvalidPool,
            OtherError::InvalidPort => OtherErrorView::InvalidPort,
            OtherError::Custom(s) => OtherErrorView::Custom(s@),
        }
    }
}

/// An `OtherError` result with its error taken by its view.
pub open spec fn other_result<T>(r: Result<T, OtherError>) -> Result<T, OtherErrorView> {
    match r {
        Ok(v) => Ok(v),
        Err(e) => Err(e@),
    }
}

/// The `Debug` text of an `OtherError`.
pub open spec fn other_error_debug(e: OtherErrorView) -> Seq<char> {
    match e {
        OtherErrorView::CallerNotOwner => "CallerNotOwner"@,
        OtherErrorView::StakeholderSharePaid => "StakeholderSharePaid"@,
        OtherErrorView::StakeholderNotFound => "StakeholderNotFound"@,
        OtherErrorView::CliffNotPassed => "CliffNotPassed"@,
        OtherErrorView::PayoutTooEarly => "PayoutTooEarly"@,
        OtherErrorView::PaymentTooLarge => "PaymentTooLarge"@,
        OtherErrorView::NoSocket => "NoSocket"@,
        OtherErrorView::NoPort => "NoPort"@,
        OtherErrorView::NotContract => "NotContract"@,
        OtherErrorView::PortLocked => "PortLocked"@,
        OtherErrorView::PortCapSurpassed => "PortCapSurpassed"@,
        OtherErrorView::CannotRewardContract => "CannotRewardContract"@,
        OtherErrorView::UnsafeContract => "UnsafeContract"@,
        OtherErrorView::CallerNotOperator => "CallerNotOperator"@,
        OtherErrorView::CallerIsOwner => "CallerIsOwner"@,
        OtherErrorView::Overflow => "Overflow"@,
        OtherErrorView::Underflow => "Underflow"@,
        OtherErrorView::DivError => "DivError"@,
        OtherErrorView::ShareTooSmall => "ShareTooSmall"@,
        OtherErrorView::InvalidPool => "InvalidPool"@,
        OtherErrorView::InvalidPort => "InvalidPort"@,
        OtherErrorView::Custom(s) => "Custom("@ + str_debug_text(s) + ")"@,
    }
}

/// The PSP22 error that an `OtherError` becomes: its `Debug` text as UTF-8 bytes.
pub open spec fn other_to_psp22(e: OtherErrorView) -> PSP22ErrorView {
    PSP22ErrorView::Custom(vstd::utf8::encode_utf8(other_error_debug(e)))
}

/// The `Debug` text of an ownership error.
pub open spec fn ownable_error_debug(e: OwnableError) -> Seq<char> {
    match e {
        OwnableError::CallerIsNotOwner => "CallerIsNotOwner"@,
        OwnableError::NewOwnerIsZero => "NewOwnerIsZero"@,
    }
}

/// The `OtherError` that a caller who is not the owner gets.
pub open spec fn not_owner_other_error() -> OtherErrorView {
    OtherErrorView::CallerNotOwner
}

impl OtherError {
    /// The `Debug` text of this error.
    pub fn debug_text(&self) -> (s: String)
        ensures
            s@ == other_error_debug(self@),
    {
        match self {
            OtherError::CallerNotOwner => String::from_str("CallerNotOwner"),
            OtherError::StakeholderSharePaid => String::from_str("StakeholderSharePaid"),
            OtherError::StakeholderNotFound => String::from_str("StakeholderNotFound"),
            OtherError::CliffNotPassed => String::from_str("CliffNotPassed"),
            OtherError::PayoutTooEarly => String::from_str("PayoutTooEarly"),
            OtherError::PaymentTooLarge => String::from_str("PaymentTooLarge"),
            OtherError::NoSocket => String::from_str("NoSocket"),
            OtherError::NoPort => String::from_str("NoPort"),
            OtherError::NotContract => String::from_str("NotContract"),
            OtherError::PortLocked => String::from_str("PortLocked"),
            OtherError::PortCapSurpassed => String::from_str("PortCapSurpassed"),
            OtherError::CannotRewardContract => String::from_str("CannotRewardContract"),
            OtherError::UnsafeContract => String::from_str("UnsafeContract"),
            OtherError::CallerNotOperator => String::from_str("CallerNotOperator"),
            OtherError::CallerIsOwner => String::from_str("CallerIsOwner"),
            OtherError::Overflow => String::from_str("Overflow"),
            OtherError::Underflow => String::from_str("Underflow"),
            OtherError::DivError => String::from_str("DivError"),
            OtherError::ShareTooSmall => String::from_str("ShareTooSmall"),
            OtherError::InvalidPool => String::from_str("InvalidPool"),
            OtherError::InvalidPort => String::from_str("InvalidPort"),
            OtherError::Custom(s) => {
                let mut t = String::from_str("Custom(");
                let inner = str_debug(s.as_str());
                t.append(inner.as_str());
                t.append(")");
                t
            },
        }
    }

    /// The PSP22 error that this error becomes: `Custom` with its `Debug` text.
    pub fn into_psp22(self) -> (r: PSP22Error)
        ensures
            r@ == other_to_psp22(self@),
    {
        let text = self.debug_text();
        PSP22Error::Custom(text.as_str().as_bytes_vec())
    }

    /// The error that an ownership error becomes: `Custom` with its `Debug` text.
    pub fn from_ownable(e: OwnableError) -> (r: OtherError)
        ensures
            r@ == OtherErrorView::Custom(ownable_error_debug(e)),
    {
        match e {
            OwnableError::CallerIsNotOwner => OtherError::Custom(String::from_str("CallerIsNotOwner")),
            OwnableError::NewOwnerIsZero => OtherError::Custom(String::from_str("NewOwnerIsZero")),
        }
    }
}

impl PSP22Error {
    /// The `OtherError` that a PSP22 error becomes: `Custom` with its `Debug` text.
    pub fn into_other(self) -> (r: OtherError)
        ensures
            r@ == OtherErrorView::Custom(psp22_error_debug(self@)),
    {
        let mut t = String::new();
        match &self {
            PSP22Error::Custom(b) => {
                t.append("Custom(");
                push_bytes_debug(&mut t, b);
                t.append(")");
            },
            PSP22Error::InsufficientBalance => t.append("InsufficientBalance"),
            PSP22Error::InsufficientAllowance => t.append("InsufficientAllowance"),
            PSP22Error::ZeroRecipientAddress => t.append("ZeroRecipientAddress"),
            PSP22Error::ZeroSenderAddress => t.append("ZeroSenderAddress"),
            PSP22Error::SafeTransferCheckFailed(b) => {
                t.append("SafeTransferCheckFailed(");
                push_bytes_debug(&mut t, b);
                t.append(")");
            },
        }
        OtherError::Custom(t)
    }
}

} // verus!

use vstd::prelude::*;

verus! {

#[derive(Debug, Copy, Clone, PartialEq, Eq, Structural)]
pub enum AttError {
    InvalidHandle,
    ReadNotPermitted,
    WriteNotPermitted,
    InvalidPdu,
    InsufficientAuthentication,
    RequestNotSupported,
    InvalidOffset,
    InsufficientAuthorization,
    PrepareQueueFull,
    AttributeNotFound,
    AttributeTooLong,
    InsufficientKeySize,
    InvalidAttributeValueLength,
    Unlikely,
    InsufficientEncryption,
    UnsupportedGroupType,
    InsufficientResources,
}

impl AttError {
    /// The ATT error code that stands for the error.
    pub open spec fn spec_code(self) -> u8 {
        match self {
            AttError::InvalidHandle => 0x01,
            AttError::ReadNotPermitted => 0x02,
            AttError::WriteNotPermitted => 0x03,
            AttError::InvalidPdu => 0x04,
            AttError::InsufficientAuthentication => 0x05,
            AttError::RequestNotSupported => 0x06,
            AttError::InvalidOffset => 0x07,
            AttError::InsufficientAuthorization => 0x08,
            AttError::PrepareQueueFull => 0x09,
            AttError::AttributeNotFound => 0x0A,
            AttError::AttributeTooLong => 0x0B,
            AttError::InsufficientKeySize => 0x0C,
            AttError::InvalidAttributeValueLength => 0x0D,
            AttError::Unlikely => 0x0E,
            AttError::InsufficientEncryption => 0x0F,
            AttError::UnsupportedGroupType => 0x10,
            AttError::InsufficientResources => 0x11,
        }
    }

    pub fn code(self) -> (r: u8)
        ensures
            r == self.spec_code(),
    {
        match self {
            AttError::InvalidHandle => 0x01,
            AttError::ReadNotPermitted => 0x02,
            AttError::WriteNotPermitted => 0x03,
            AttError::InvalidPdu => 0x04,
            AttError::InsufficientAuthentication => 0x05,
            AttError::RequestNotSupported => 0x06,
            AttError::InvalidOffset => 0x07,
            AttError::InsufficientAuthorization => 0x08,
            AttError::PrepareQueueFull => 0x09,
            AttError::AttributeNotFound => 0x0A,
            AttError::AttributeTooLong => 0x0B,
            AttError::InsufficientKeySize => 0x0C,
            AttError::InvalidAttributeValueLength => 0x0D,
            AttError::Unlikely => 0x0E,
            AttError::InsufficientEncryption => 0x0F,
            AttError::UnsupportedGroupType => 0x10,
            AttError::InsufficientResources => 0x11,
        }
    }
}

/// The ATT error codes that the Bluetooth Core Specification assigns: each error's code is its
/// position, from 0x01, in the order the errors are declared, so no two errors share a code
/// and the codes run from 0x01 to 0x11.
pub proof fn lemma_att_error_codes()
    ensures
        AttError::InvalidHandle.spec_code() == 0x01,
        AttError::ReadNotPermitted.spec_code() == 0x02,
        AttError::WriteNotPermitted.spec_code() == 0x03,
        AttError::InvalidPdu.spec_code() == 0x04,
        AttError::InsufficientAuthentication.spec_code() == 0x05,
        AttError::RequestNotSupported.spec_code() == 0x06,
        AttError::InvalidOffset.spec_code() == 0x07,
        AttError::InsufficientAuthorization.spec_code() == 0x08,
        AttError::PrepareQueueFull.spec_code() == 0x09,
        AttError::AttributeNotFound.spec_code() == 0x0A,
        AttError::AttributeTooLong.spec_code() == 0x0B,
        AttError::InsufficientKeySize.spec_code() == 0x0C,
        AttError::InvalidAttributeValueLength.spec_code() == 0x0D,
        AttError::Unlikely.spec_code() == 0x0E,
        AttError::InsufficientEncryption.spec_code() == 0x0F,
        AttError::UnsupportedGroupType.spec_code() == 0x10,
        AttError::InsufficientResources.spec_code() == 0x11,
        forall|a: AttError, b: AttError| #[trigger] a.spec_code() == #[trigger] b.spec_code() ==> a == b,
        forall|a: AttError| 0x01 <= #[trigger] a.spec_code() <= 0x11,
{
}

} // verus!

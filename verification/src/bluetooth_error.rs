use vstd::prelude::*;

verus! {

/// Bluetooth errors defined in the protocol.
#[derive(Debug, Copy, Clone, PartialEq, Eq, Structural)]
pub enum BluetoothError {
    Timeout,
    AuthFailure,
    PinOrKeyMissing,
    ClosedByPeer(RemoteShutdownReason),
    ClosedLocally,
    ConnectionLimitExceeded,
    PairingWithUnitKeyNotSupported,
    EncryptionNotAcceptable,
    Other(u8),
}

#[derive(Debug, Copy, Clone, PartialEq, Eq, Structural)]
pub enum RemoteShutdownReason {
    NoneGiven,
    LowResources,
    PowerOff,
}

/// The error that a status code reported by the controller stands for.
pub open spec fn error_of_code(value: u8) -> BluetoothError {
    if value == 0x05 {
        BluetoothError::AuthFailure
    } else if value == 0x06 {
        BluetoothError::PinOrKeyMissing
    } else if value == 0x08 {
        BluetoothError::Timeout
    } else if value == 0x09 {
        BluetoothError::ConnectionLimitExceeded
    } else if value == 0x13 {
        BluetoothError::ClosedByPeer(RemoteShutdownReason::NoneGiven)
    } else if value == 0x14 {
        BluetoothError::ClosedByPeer(RemoteShutdownReason::LowResources)
    } else if value == 0x15 {
        BluetoothError::ClosedByPeer(RemoteShutdownReason::PowerOff)
    } else if value == 0x16 {
        BluetoothError::ClosedLocally
    } else if value == 0x25 {
        BluetoothError::EncryptionNotAcceptable
    } else if value == 0x29 {
        BluetoothError::PairingWithUnitKeyNotSupported
    } else {
        BluetoothError::Other(value)
    }
}

/// The status code that stands for an error.
pub open spec fn code_of_error(value: BluetoothError) -> u8 {
    match value {
        BluetoothError::AuthFailure => 0x05,
        BluetoothError::PinOrKeyMissing => 0x06,
        BluetoothError::Timeout => 0x08,
        BluetoothError::ConnectionLimitExceeded => 0x09,
        BluetoothError::ClosedByPeer(r) => match r {
            RemoteShutdownReason::NoneGiven => 0x13,
            RemoteShutdownReason::LowResources => 0x14,
            RemoteShutdownReason::PowerOff => 0x15,
        },
        BluetoothError::ClosedLocally => 0x16,
        BluetoothError::EncryptionNotAcceptable => 0x25,
        BluetoothError::PairingWithUnitKeyNotSupported => 0x29,
        BluetoothError::Other(o) => o,
    }
}

/// The status codes that stand for an error other than `Other`.
pub open spec fn is_named_code(value: u8) -> bool {
    value == 0x05 || value == 0x06 || value == 0x08 || value == 0x09 || value == 0x13 || value
        == 0x14 || value == 0x15 || value == 0x16 || value == 0x25 || value == 0x29
}

impl From<u8> for BluetoothError {
    fn from(value: u8) -> (r: Self)
        ensures
            r == error_of_code(value),
    {
        match value {
            0x05 => BluetoothError::AuthFailure,
            0x06 => BluetoothError::PinOrKeyMissing,
            0x08 => BluetoothError::Timeout,
            0x09 => BluetoothError::ConnectionLimitExceeded,
            0x13 => BluetoothError::ClosedByPeer(RemoteShutdownReason::NoneGiven),
            0x14 => BluetoothError::ClosedByPeer(RemoteShutdownReason::LowResources),
            0x15 => BluetoothError::ClosedByPeer(RemoteShutdownReason::PowerOff),
            0x16 => BluetoothError::ClosedLocally,
            0x25 => BluetoothError::EncryptionNotAcceptable,
            0x29 => BluetoothError::PairingWithUnitKeyNotSupported,
            o => BluetoothError::Other(o),
        }
    }
}

impl vstd::std_specs::convert::FromSpecImpl<u8> for BluetoothError {
    open spec fn obeys_from_spec() -> bool {
        true
    }

    open spec fn from_spec(value: u8) -> Self {
        error_of_code(value)
    }
}

impl From<BluetoothError> for u8 {
    fn from(value: BluetoothError) -> (r: Self)
        ensures
            r == code_of_error(value),
    {
        match value {
            BluetoothError::AuthFailure => 0x05,
            BluetoothError::PinOrKeyMissing => 0x06,
            BluetoothError::Timeout => 0x08,
            BluetoothError::ConnectionLimitExceeded => 0x09,
            BluetoothError::ClosedByPeer(r) => match r {
                RemoteShutdownReason::NoneGiven => 0x13,
                RemoteShutdownReason::LowResources => 0x14,
                RemoteShutdownReason::PowerOff => 0x15,
            },
            BluetoothError::ClosedLocally => 0x16,
            BluetoothError::EncryptionNotAcceptable => 0x25,
            BluetoothError::PairingWithUnitKeyNotSupported => 0x29,
            BluetoothError::Other(o) => o,
        }
    }
}

impl vstd::std_specs::convert::FromSpecImpl<BluetoothError> for u8 {
    open spec fn obeys_from_spec() -> bool {
        true
    }

    open spec fn from_spec(value: BluetoothError) -> Self {
        code_of_error(value)
    }
}

/// The HCI status codes of the named errors, as the Bluetooth Core Specification assigns
/// them: authentication failure 0x05, PIN or key missing 0x06, connection timeout 0x08,
/// connection limit exceeded 0x09, remote user terminated 0x13, remote low resources 0x14,
/// remote power off 0x15, terminated by local host 0x16, pairing with unit key not supported
/// 0x29, encryption mode not acceptable 0x25; `Other` keeps its code.
pub proof fn lemma_error_codes(o: u8)
    ensures
        code_of_error(BluetoothError::AuthFailure) == 0x05,
        code_of_error(BluetoothError::PinOrKeyMissing) == 0x06,
        code_of_error(BluetoothError::Timeout) == 0x08,
        code_of_error(BluetoothError::ConnectionLimitExceeded) == 0x09,
        code_of_error(BluetoothError::ClosedByPeer(RemoteShutdownReason::NoneGiven)) == 0x13,
        code_of_error(BluetoothError::ClosedByPeer(RemoteShutdownReason::LowResources)) == 0x14,
        code_of_error(BluetoothError::ClosedByPeer(RemoteShutdownReason::PowerOff)) == 0x15,
        code_of_error(BluetoothError::ClosedLocally) == 0x16,
        code_of_error(BluetoothError::EncryptionNotAcceptable) == 0x25,
        code_of_error(BluetoothError::PairingWithUnitKeyNotSupported) == 0x29,
        code_of_error(BluetoothError::Other(o)) == o,
{
}

/// Converting a status code to an error and back gives the code again.
pub proof fn lemma_code_round_trip(value: u8)
    ensures
        code_of_error(error_of_code(value)) == value,
{
}

/// Converting an error to its status code and back gives the error again, except for `Other`
/// of a code that names another error.
pub proof fn lemma_error_round_trip(value: BluetoothError)
    requires
        value matches BluetoothError::Other(o) ==> !is_named_code(o),
    ensures
        error_of_code(code_of_error(value)) == value,
{
}

/// Every error is written as some status code, and a status code reads as `Other` exactly when
/// it names no other error.
pub proof fn lemma_other_codes(value: u8)
    ensures
        (error_of_code(value) is Other) <==> !is_named_code(value),
        error_of_code(value) is Other ==> error_of_code(value) == BluetoothError::Other(value),
{
}

} // verus!

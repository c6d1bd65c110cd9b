use ble_peripheral::att_error::AttError;
use ble_peripheral::bluetooth_error::{BluetoothError, RemoteShutdownReason};
use ble_peripheral::descriptors::{
    AttributeHandle, GattCharacteristic, GattCharacteristicPermission,
    GattCharacteristicPermissionSet, GattCharacteristicProperty, GattCharacteristicPropertySet,
    GattDescriptor, GattService, GattServiceType, UUID,
};
use ble_peripheral::gatt_connection::Response;
use ble_peripheral::mtu::Mtu;

#[test]
fn uuid_as_u128() {
    assert_eq!(UUID::Short(0x180d).as_u128(), 0x180d);
    assert_eq!(UUID::Long(0x0123456789abcdef).as_u128(), 0x0123456789abcdef);
    assert_eq!(UUID::Long(u128::MAX).as_u128(), u128::MAX);
}

#[test]
fn bluetooth_error_from_code() {
    assert_eq!(BluetoothError::from(0x05), BluetoothError::AuthFailure);
    assert_eq!(BluetoothError::from(0x06), BluetoothError::PinOrKeyMissing);
    assert_eq!(BluetoothError::from(0x08), BluetoothError::Timeout);
    assert_eq!(BluetoothError::from(0x09), BluetoothError::ConnectionLimitExceeded);
    assert_eq!(
        BluetoothError::from(0x13),
        BluetoothError::ClosedByPeer(RemoteShutdownReason::NoneGiven)
    );
    assert_eq!(
        BluetoothError::from(0x14),
        BluetoothError::ClosedByPeer(RemoteShutdownReason::LowResources)
    );
    assert_eq!(
        BluetoothError::from(0x15),
        BluetoothError::ClosedByPeer(RemoteShutdownReason::PowerOff)
    );
    assert_eq!(BluetoothError::from(0x16), BluetoothError::ClosedLocally);
    assert_eq!(BluetoothError::from(0x25), BluetoothError::EncryptionNotAcceptable);
    assert_eq!(
        BluetoothError::from(0x29),
        BluetoothError::PairingWithUnitKeyNotSupported
    );
    assert_eq!(BluetoothError::from(0x42), BluetoothError::Other(0x42));
}

#[test]
fn bluetooth_error_to_code() {
    assert_eq!(u8::from(BluetoothError::AuthFailure), 0x05);
    assert_eq!(u8::from(BluetoothError::Timeout), 0x08);
    assert_eq!(u8::from(BluetoothError::ClosedByPeer(RemoteShutdownReason::PowerOff)), 0x15);
    assert_eq!(u8::from(BluetoothError::Other(0x99)), 0x99);
}

#[test]
fn bluetooth_codes_round_trip() {
    for code in 0..=255u8 {
        assert_eq!(u8::from(BluetoothError::from(code)), code);
    }
    assert_eq!(
        BluetoothError::from(u8::from(BluetoothError::AuthFailure)),
        BluetoothError::AuthFailure
    );
    assert_eq!(
        BluetoothError::from(u8::from(BluetoothError::Other(0x16))),
        BluetoothError::ClosedLocally
    );
    assert_eq!(
        BluetoothError::from(u8::from(BluetoothError::PinOrKeyMissing)),
        BluetoothError::PinOrKeyMissing
    );
}

#[test]
fn att_error_codes() {
    assert_eq!(AttError::InvalidHandle.code(), 0x01);
    assert_eq!(AttError::AttributeNotFound.code(), 0x0A);
    assert_eq!(AttError::InsufficientResources.code(), 0x11);
}

#[test]
fn mtu_values() {
    let mtu = Mtu::new(23);
    assert_eq!(mtu.negotiated_value(), 23);
    assert_eq!(mtu.usable_value(), 20);
    assert_eq!(mtu.to_string(), "23");
    assert_eq!(Mtu::new(3).usable_value(), 0);
    assert_eq!(Mtu::new(517).to_string(), "517");
    assert!(Mtu::new(23) < Mtu::new(24));
    assert!(Mtu::new(24) >= Mtu::new(24));
    assert_eq!(Mtu::new(30), Mtu::new(30));
    assert_ne!(Mtu::new(30), Mtu::new(31));
}

#[test]
fn attribute_handles_are_never_zero() {
    assert!(AttributeHandle::new(0).is_none());
    let h = AttributeHandle::new(42).unwrap();
    assert_eq!(h.get(), 42);
    assert_eq!(h.to_string(), "42");
    assert!(AttributeHandle::new(1).unwrap() < h);
    assert_eq!(AttributeHandle::new(42).unwrap(), h);
    assert!(h > AttributeHandle::new(7).unwrap());
}

#[test]
fn response_constructors() {
    let value = [1u8, 2, 3];
    let r = Response::new(4, &value);
    assert_eq!(r.offset, 4);
    assert_eq!(r.value, &value);
    let c = Response::complete(&value);
    assert_eq!(c.offset, 0);
    assert_eq!(c.value, &value);
}

#[test]
fn property_sets() {
    let mut props = GattCharacteristicPropertySet::new();
    assert!(!props.contains(GattCharacteristicProperty::Read));
    props.insert(GattCharacteristicProperty::Read);
    props.insert(GattCharacteristicProperty::Notify);
    assert!(props.contains(GattCharacteristicProperty::Read));
    assert!(props.contains(GattCharacteristicProperty::Notify));
    assert!(!props.contains(GattCharacteristicProperty::Write));
    props.remove(GattCharacteristicProperty::Read);
    assert!(!props.contains(GattCharacteristicProperty::Read));
    assert!(props.contains(GattCharacteristicProperty::Notify));

    let mut perms = GattCharacteristicPermissionSet::new();
    perms.insert(GattCharacteristicPermission::WriteSignedMitm);
    assert!(perms.contains(GattCharacteristicPermission::WriteSignedMitm));
    assert!(!perms.contains(GattCharacteristicPermission::Read));
}

#[test]
fn descriptor_defaults() {
    let c = GattCharacteristic::default();
    assert_eq!(c.uuid, UUID::Long(0));
    assert_eq!(c.properties, GattCharacteristicPropertySet::new());
    assert_eq!(c.permissions, GattCharacteristicPermissionSet::new());
    assert!(c.descriptors.is_empty());

    let d = GattDescriptor::default();
    assert_eq!(d.uuid, UUID::Long(0));
    assert_eq!(d.permissions, GattCharacteristicPermissionSet::new());

    let s = GattService::default();
    assert_eq!(s.uuid, UUID::Long(0));
    assert_eq!(s.service_type, GattServiceType::Primary);
    assert!(s.characteristics.is_empty());
}

pub use crate::advertisement::{
    AdType, AdvertisementParams, AdvertisementPayload, AdvertisementPayloadBuilder,
    AdvertisementRequest, ConnectMode, DiscoverMode, PushError, RawAdvertisement,
    RawAdvertisementBuilder, ScanResponsePayload,
};
pub use crate::att_error::AttError;
pub use crate::bluetooth_error::{BluetoothError, RemoteShutdownReason};
pub use crate::descriptors::{
    AttributeHandle, GattCharacteristic, GattCharacteristicPermission,
    GattCharacteristicPermissionSet, GattCharacteristicProperty, GattCharacteristicPropertySet,
    GattDescriptor, GattDescriptorPermission, GattService, GattServiceType, UUID,
};
pub use crate::gap_advertiser::GapAdvertiser;
pub use crate::gatt_connection::{GattConnection, GattResponder, GattWriter, Response};
pub use crate::gatt_server_cb::{AdvStartFailedReason, AdvStopReason, ExecWriteAction, WriteAction};
pub use crate::mtu::Mtu;

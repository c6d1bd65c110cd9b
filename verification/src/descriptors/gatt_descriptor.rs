use vstd::prelude::*;

use crate::descriptors::gatt_characteristic::{GattCharacteristicPermission, GattCharacteristicPermissionSet};
use crate::descriptors::uuid::UUID;

verus! {

#[derive(Debug, PartialEq)]
pub struct GattDescriptor {
    pub uuid: UUID,
    pub permissions: GattCharacteristicPermissionSet,
}

impl Default for GattDescriptor {
    fn default() -> (r: Self)
        ensures
            r.uuid == UUID::Long(0),
            r.permissions@ == Set::<GattDescriptorPermission>::empty(),
    {
        Self { uuid: UUID::Long(0), permissions: GattCharacteristicPermissionSet::new() }
    }
}

pub type GattDescriptorPermission = GattCharacteristicPermission;

} // verus!

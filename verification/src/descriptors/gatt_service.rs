use vstd::prelude::*;

use crate::descriptors::gatt_characteristic::GattCharacteristic;
use crate::descriptors::uuid::UUID;

verus! {

#[derive(Debug, PartialEq)]
pub struct GattService<'a> {
    pub uuid: UUID,
    pub service_type: GattServiceType,
    pub characteristics: &'a [GattCharacteristic<'a>],
}

impl<'a> Default for GattService<'a> {
    fn default() -> (r: Self)
        ensures
            r.uuid == UUID::Long(0),
            r.service_type == GattServiceType::Primary,
            r.characteristics@ == Seq::<GattCharacteristic<'a>>::empty(),
    {
        Self { uuid: UUID::Long(0), service_type: GattServiceType::Primary, characteristics: &[] }
    }
}

#[derive(Debug, Copy, Clone, PartialEq, Eq, Structural)]
pub enum GattServiceType {
    Primary,
    Secondary,
}

} // verus!

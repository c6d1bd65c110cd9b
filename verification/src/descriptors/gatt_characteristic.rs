use vstd::prelude::*;

use crate::descriptors::gatt_descriptor::GattDescriptor;
use crate::descriptors::uuid::UUID;

verus! {

#[derive(Debug, PartialEq)]
pub struct GattCharacteristic<'a> {
    pub uuid: UUID,
    pub properties: GattCharacteristicPropertySet,
    pub permissions: GattCharacteristicPermissionSet,
    pub descriptors: &'a [GattDescriptor],
}

impl<'a> Default for GattCharacteristic<'a> {
    fn default() -> (r: Self)
        ensures
            r.uuid == UUID::Long(0),
            r.properties@ == Set::<GattCharacteristicProperty>::empty(),
            r.permissions@ == Set::<GattCharacteristicPermission>::empty(),
            r.descriptors@ == Seq::<GattDescriptor>::empty(),
    {
        Self {
            uuid: UUID::Long(0),
            properties: GattCharacteristicPropertySet::new(),
            permissions: GattCharacteristicPermissionSet::new(),
            descriptors: &[],
        }
    }
}

#[derive(Debug, Copy, Clone, PartialEq, Eq, Structural)]
pub enum GattCharacteristicProperty {
    Broadcast,
    ExtendedProps,
    /// Note that setting this property will cause a CCCD descriptor to automatically be added
    /// to the characteristic.
    Indicate,
    /// Note that setting this property will cause a CCCD descriptor to automatically be added
    /// to the characteristic.
    Notify,
    Read,
    Write,
    WriteSigned,
    WriteNoResponse,
}

#[derive(Debug, Copy, Clone, PartialEq, Eq, Structural)]
pub enum GattCharacteristicPermission {
    Read,
    ReadEncrypted,
    Write,
    WriteEncrypted,
    WriteEncryptedMitm,
    WriteSigned,
    WriteSignedMitm,
}

/// Setting bit `i` of a byte leaves every other bit as it was and makes bit `i` set.
proof fn lemma_set_bit(b: u8, i: u8, j: u8)
    requires
        i < 8,
        j < 8,
    ensures
        ((b | (1u8 << i)) & (1u8 << j) != 0) == (i == j || b & (1u8 << j) != 0),
        ((b & !(1u8 << i)) & (1u8 << j) != 0) == (i != j && b & (1u8 << j) != 0),
        (0u8 & (1u8 << j)) == 0,
        i < 7 && b & 0x80u8 == 0 ==> (b | (1u8 << i)) & 0x80u8 == 0,
        b & 0x80u8 == 0 ==> (b & !(1u8 << i)) & 0x80u8 == 0,
{
    assert(i < 7 && b & 0x80u8 == 0 ==> (b | (1u8 << i)) & 0x80u8 == 0) by (bit_vector);
    assert(b & 0x80u8 == 0 ==> (b & !(1u8 << i)) & 0x80u8 == 0) by (bit_vector);
    assert(((b | (1u8 << i)) & (1u8 << j) != 0) == (i == j || b & (1u8 << j) != 0)) by (bit_vector)
        requires
            i < 8,
            j < 8,
    ;
    assert(((b & !(1u8 << i)) & (1u8 << j) != 0) == (i != j && b & (1u8 << j) != 0)) by (bit_vector)
        requires
            i < 8,
            j < 8,
    ;
    assert((0u8 & (1u8 << j)) == 0) by (bit_vector);
}

impl GattCharacteristicProperty {
    /// The position of the property in a set of properties.
    pub open spec fn spec_bit(self) -> u8 {
        match self {
            GattCharacteristicProperty::Broadcast => 0,
            GattCharacteristicProperty::ExtendedProps => 1,
            GattCharacteristicProperty::Indicate => 2,
            GattCharacteristicProperty::Notify => 3,
            GattCharacteristicProperty::Read => 4,
            GattCharacteristicProperty::Write => 5,
            GattCharacteristicProperty::WriteSigned => 6,
            GattCharacteristicProperty::WriteNoResponse => 7,
        }
    }

    fn bit(self) -> (r: u8)
        ensures
            r == self.spec_bit(),
            r < 8,
    {
        match self {
            GattCharacteristicProperty::Broadcast => 0,
            GattCharacteristicProperty::ExtendedProps => 1,
            GattCharacteristicProperty::Indicate => 2,
            GattCharacteristicProperty::Notify => 3,
            GattCharacteristicProperty::Read => 4,
            GattCharacteristicProperty::Write => 5,
            GattCharacteristicProperty::WriteSigned => 6,
            GattCharacteristicProperty::WriteNoResponse => 7,
        }
    }
}

impl GattCharacteristicPermission {
    /// The position of the permission in a set of permissions.
    pub open spec fn spec_bit(self) -> u8 {
        match self {
            GattCharacteristicPermission::Read => 0,
            GattCharacteristicPermission::ReadEncrypted => 1,
            GattCharacteristicPermission::Write => 2,
            GattCharacteristicPermission::WriteEncrypted => 3,
            GattCharacteristicPermission::WriteEncryptedMitm => 4,
            GattCharacteristicPermission::WriteSigned => 5,
            GattCharacteristicPermission::WriteSignedMitm => 6,
        }
    }

    fn bit(self) -> (r: u8)
        ensures
            r == self.spec_bit(),
            r < 8,
    {
        match self {
            GattCharacteristicPermission::Read => 0,
            GattCharacteristicPermission::ReadEncrypted => 1,
            GattCharacteristicPermission::Write => 2,
            GattCharacteristicPermission::WriteEncrypted => 3,
            GattCharacteristicPermission::WriteEncryptedMitm => 4,
            GattCharacteristicPermission::WriteSigned => 5,
            GattCharacteristicPermission::WriteSignedMitm => 6,
        }
    }
}

/// A set of characteristic properties, one bit per property.
#[derive(Debug, Copy, Clone, PartialEq, Eq, Structural)]
pub struct GattCharacteristicPropertySet {
    bits: u8,
}

impl View for GattCharacteristicPropertySet {
    type V = Set<GattCharacteristicProperty>;

    closed spec fn view(&self) -> Set<GattCharacteristicProperty> {
        Set::new(|p: GattCharacteristicProperty| self.bits & (1u8 << p.spec_bit()) != 0)
    }
}

impl GattCharacteristicPropertySet {
    /// The empty set.
    pub fn new() -> (r: Self)
        ensures
            r@ == Set::<GattCharacteristicProperty>::empty(),
    {
        let r = GattCharacteristicPropertySet { bits: 0 };
        assert forall|p: GattCharacteristicProperty| !r@.contains(p) by {
            lemma_set_bit(0, 0, p.spec_bit());
        }
        assert(r@ =~= Set::<GattCharacteristicProperty>::empty());
        r
    }

    pub fn insert(&mut self, value: GattCharacteristicProperty)
        ensures
            final(self)@ == old(self)@.insert(value),
    {
        let b = value.bit();
        let ghost before = self.bits;
        self.bits = self.bits | (1u8 << b);
        assert forall|p: GattCharacteristicProperty| #[trigger] self@.contains(p) == old(self)@.insert(value).contains(p) by {
            lemma_set_bit(before, b, p.spec_bit());
        }
        assert(self@ =~= old(self)@.insert(value));
    }

    pub fn remove(&mut self, value: GattCharacteristicProperty)
        ensures
            final(self)@ == old(self)@.remove(value),
    {
        let b = value.bit();
        let ghost before = self.bits;
        self.bits = self.bits & !(1u8 << b);
        assert forall|p: GattCharacteristicProperty| #[trigger] self@.contains(p) == old(self)@.remove(value).contains(p) by {
            lemma_set_bit(before, b, p.spec_bit());
        }
        assert(self@ =~= old(self)@.remove(value));
    }

    pub fn contains(&self, value: GattCharacteristicProperty) -> (r: bool)
        ensures
            r == self@.contains(value),
    {
        let b = value.bit();
        self.bits & (1u8 << b) != 0
    }
}

/// A set of characteristic permissions, one bit per permission; the eighth bit stands for
/// nothing and is never set.
#[derive(Debug, Copy, Clone, PartialEq, Eq, Structural)]
pub struct GattCharacteristicPermissionSet {
    bits: u8,
}

impl GattCharacteristicPermissionSet {
    #[verifier::type_invariant]
    closed spec fn inv(self) -> bool {
        self.bits & 0x80u8 == 0
    }
}

impl View for GattCharacteristicPermissionSet {
    type V = Set<GattCharacteristicPermission>;

    closed spec fn view(&self) -> Set<GattCharacteristicPermission> {
        Set::new(|p: GattCharacteristicPermission| self.bits & (1u8 << p.spec_bit()) != 0)
    }
}

impl GattCharacteristicPermissionSet {
    /// The empty set.
    pub fn new() -> (r: Self)
        ensures
            r@ == Set::<GattCharacteristicPermission>::empty(),
    {
        assert(0u8 & 0x80u8 == 0) by (bit_vector);
        let r = GattCharacteristicPermissionSet { bits: 0 };
        assert forall|p: GattCharacteristicPermission| !r@.contains(p) by {
            lemma_set_bit(0, 0, p.spec_bit());
        }
        assert(r@ =~= Set::<GattCharacteristicPermission>::empty());
        r
    }

    pub fn insert(&mut self, value: GattCharacteristicPermission)
        ensures
            final(self)@ == old(self)@.insert(value),
    {
        proof {
            use_type_invariant(&*self);
        }
        let b = value.bit();
        let ghost before = self.bits;
        proof {
            lemma_set_bit(before, b, 0);
        }
        self.bits = self.bits | (1u8 << b);
        assert forall|p: GattCharacteristicPermission| #[trigger] self@.contains(p) == old(self)@.insert(value).contains(p) by {
            lemma_set_bit(before, b, p.spec_bit());
        }
        assert(self@ =~= old(self)@.insert(value));
    }

    pub fn remove(&mut self, value: GattCharacteristicPermission)
        ensures
            final(self)@ == old(self)@.remove(value),
    {
        proof {
            use_type_invariant(&*self);
        }
        let b = value.bit();
        let ghost before = self.bits;
        proof {
            lemma_set_bit(before, b, 0);
        }
        self.bits = self.bits & !(1u8 << b);
        assert forall|p: GattCharacteristicPermission| #[trigger] self@.contains(p) == old(self)@.remove(value).contains(p) by {
            lemma_set_bit(before, b, p.spec_bit());
        }
        assert(self@ =~= old(self)@.remove(value));
    }

    pub fn contains(&self, value: GattCharacteristicPermission) -> (r: bool)
        ensures
            r == self@.contains(value),
    {
        let b = value.bit();
        self.bits & (1u8 << b) != 0
    }
}

} // verus!

use vstd::prelude::*;

use crate::ad_buffer::{ad_bytes, buffer_extend};
use crate::byte_order::{byte_range, le_bytes, le_bytes_of, le_value, lemma_le_bytes_len, lemma_le_bytes_value};

verus! {

#[derive(Debug, Copy, Clone, PartialEq, Eq, Structural)]
pub enum UUID {
    /// For use only with SIG defined services (i.e. registered and publicly well known services).
    Short(u16),
    /// All other BLE UUIDs must be 128-bit
    Long(u128),
}

impl UUID {
    /// The UUID as a 128-bit number (a short UUID keeps its 16-bit value).
    pub open spec fn spec_as_u128(self) -> u128 {
        match self {
            UUID::Short(u) => u as u128,
            UUID::Long(u) => u,
        }
    }

    /// The bytes that stand for this UUID in an advertisement: its value in little-endian
    /// order, 2 bytes for a short UUID and 16 for a long one.
    pub open spec fn le_encoding(self) -> Seq<u8> {
        match self {
            UUID::Short(u) => le_bytes(u as nat, 2),
            UUID::Long(u) => le_bytes(u as nat, 16),
        }
    }

    /// The number of bytes that stand for this UUID in an advertisement.
    pub open spec fn spec_encoded_len(self) -> nat {
        match self {
            UUID::Short(_) => 2,
            UUID::Long(_) => 16,
        }
    }

    pub proof fn lemma_le_encoding_len(self)
        ensures
            self.le_encoding().len() == self.spec_encoded_len(),
    {
        lemma_le_bytes_len(self.spec_as_u128() as nat, 2);
        lemma_le_bytes_len(self.spec_as_u128() as nat, 16);
    }

    /// The number of bytes that stand for this UUID in an advertisement: 2 for a short UUID,
    /// 16 for a long one.
    pub(crate) fn encoded_len(&self) -> (r: usize)
        ensures
            r == self.spec_encoded_len(),
    {
        match self {
            UUID::Short(_) => 2,
            UUID::Long(_) => 16,
        }
    }

    pub fn as_u128(&self) -> (r: u128)
        ensures
            r == self.spec_as_u128(),
    {
        match *self {
            UUID::Short(u) => u as u128,
            UUID::Long(u) => u,
        }
    }

    /// The little-endian bytes of this UUID, as `to_le_bytes` gives them for its value.
    pub(crate) fn le_bytes_vec(&self) -> (out: Vec<u8>)
        ensures
            out@ == self.le_encoding(),
            out@.len() == (if self is Short { 2int } else { 16int }),
    {
        proof {
            lemma_le_bytes_len(self.spec_as_u128() as nat, 2);
            lemma_le_bytes_len(self.spec_as_u128() as nat, 16);
        }
        match self {
            UUID::Short(v) => le_bytes_of(*v as u128, 2),
            UUID::Long(v) => le_bytes_of(*v, 16),
        }
    }

    /// Appends the little-endian bytes of this UUID to `out`, or leaves `out` as it was
    /// when they do not fit.
    pub(crate) fn push_into(&self, out: &mut heapless::Vec<u8, 31>) -> (r: Result<(), ()>)
        requires
            ad_bytes(*old(out)).len() <= 31,
        ensures
            (r is Ok) <==> ad_bytes(*old(out)).len() + self.le_encoding().len() <= 31,
            r is Ok ==> ad_bytes(*final(out)) == ad_bytes(*old(out)) + self.le_encoding(),
            r is Err ==> ad_bytes(*final(out)) == ad_bytes(*old(out)),
            self.le_encoding().len() == (if self is Short { 2int } else { 16int }),
    {
        let bytes = self.le_bytes_vec();
        buffer_extend(out, bytes.as_slice())
    }
}

/// A UUID's number is the value it holds: a 16-bit UUID's value widened, a 128-bit UUID's
/// value as it is.
pub proof fn lemma_uuid_number(x: u16, y: u128)
    ensures
        UUID::Short(x).spec_as_u128() == x as int,
        UUID::Long(y).spec_as_u128() == y,
{
}

/// A UUID's bytes, read back least significant first, give the UUID's number: 2 bytes for a
/// short UUID and 16 for a long one.
pub proof fn lemma_uuid_bytes_value(u: UUID)
    ensures
        le_value(u.le_encoding()) == u.spec_as_u128(),
        u.le_encoding().len() == u.spec_encoded_len(),
        u.spec_encoded_len() == (if u is Short { 2nat } else { 16nat }),
{
    reveal_with_fuel(byte_range, 17);
    assert(byte_range(2) == 0x1_0000);
    assert(byte_range(16) == 0x1_0000_0000_0000_0000_0000_0000_0000_0000);
    match u {
        UUID::Short(v) => {
            lemma_le_bytes_value(v as nat, 2);
            vstd::arithmetic::div_mod::lemma_small_mod(v as nat, byte_range(2));
        },
        UUID::Long(v) => {
            lemma_le_bytes_value(v as nat, 16);
            vstd::arithmetic::div_mod::lemma_small_mod(v as nat, byte_range(16));
        },
    }
}

} // verus!

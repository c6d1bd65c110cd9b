use vstd::prelude::*;
use vstd::std_specs::cmp::{PartialEqSpec, PartialOrdIs, PartialOrdSpec};

use crate::mtu::{decimal_digits, format_u16};

verus! {

/// The handle of an attribute in the GATT server: a number that is never 0.
#[derive(Debug, Copy, Clone, Eq, Ord)]
pub struct AttributeHandle(u16);

impl AttributeHandle {
    #[verifier::type_invariant]
    closed spec fn inv(self) -> bool {
        self.0 != 0
    }

    /// The number of the handle.
    pub closed spec fn spec_get(self) -> u16 {
        self.0
    }

    /// The handle with the given number, or `None` for 0.
    pub fn new(value: u16) -> (r: Option<Self>)
        ensures
            value == 0 <==> r is None,
            r matches Some(h) ==> h.spec_get() == value,
    {
        if value == 0 {
            None
        } else {
            Some(AttributeHandle(value))
        }
    }

    pub fn get(&self) -> (r: u16)
        ensures
            r == self.spec_get(),
            r != 0,
    {
        proof {
            use_type_invariant(self);
        }
        self.0
    }

    /// The number of the handle in decimal, as the handle is displayed.
    pub fn to_string(&self) -> (s: String)
        ensures
            s@ == decimal_digits(self.spec_get() as nat),
    {
        format_u16(self.0)
    }
}

impl PartialEq for AttributeHandle {
    fn eq(&self, other: &Self) -> (r: bool) {
        self.0 == other.0
    }
}

impl vstd::std_specs::cmp::PartialEqSpecImpl for AttributeHandle {
    open spec fn obeys_eq_spec() -> bool {
        true
    }

    open spec fn eq_spec(&self, other: &AttributeHandle) -> bool {
        self.spec_get() == other.spec_get()
    }
}

impl PartialOrd for AttributeHandle {
    fn partial_cmp(&self, other: &Self) -> (r: Option<core::cmp::Ordering>) {
        self.0.partial_cmp(&other.0)
    }
}

impl vstd::std_specs::cmp::PartialOrdSpecImpl for AttributeHandle {
    open spec fn obeys_partial_cmp_spec() -> bool {
        true
    }

    open spec fn partial_cmp_spec(&self, other: &AttributeHandle) -> Option<core::cmp::Ordering> {
        if self.spec_get() < other.spec_get() {
            Some(core::cmp::Ordering::Less)
        } else if self.spec_get() > other.spec_get() {
            Some(core::cmp::Ordering::Greater)
        } else {
            Some(core::cmp::Ordering::Equal)
        }
    }
}

/// Handles compare as their numbers do.
pub proof fn lemma_handle_order(a: AttributeHandle, b: AttributeHandle)
    ensures
        a.eq_spec(&b) <==> a.spec_get() == b.spec_get(),
        a.is_lt(&b) <==> a.spec_get() < b.spec_get(),
        a.is_le(&b) <==> a.spec_get() <= b.spec_get(),
        a.is_gt(&b) <==> a.spec_get() > b.spec_get(),
        a.is_ge(&b) <==> a.spec_get() >= b.spec_get(),
{
}

} // verus!

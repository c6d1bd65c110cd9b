use vstd::prelude::*;
use vstd::std_specs::cmp::{PartialEqSpec, PartialOrdIs, PartialOrdSpec};

verus! {

/// A decimal digit as a character.
pub open spec fn decimal_digit(d: nat) -> char {
    (48 + d % 10) as char
}

/// The decimal digits of `n`, most significant first, without leading zeros.
pub open spec fn decimal_digits(n: nat) -> Seq<char>
    decreases n,
{
    if n < 10 {
        seq![decimal_digit(n)]
    } else {
        decimal_digits(n / 10).push(decimal_digit(n % 10))
    }
}

/// The number that a sequence of decimal digits stands for, most significant first.
pub open spec fn digits_value(s: Seq<char>) -> int
    decreases s.len(),
{
    if s.len() == 0 {
        0
    } else {
        digits_value(s.drop_last()) * 10 + (s.last() as int - 48)
    }
}

/// The decimal digits of `n` are characters from '0' to '9' that read back as `n`, and the
/// first is not '0' unless `n` is 0.
pub proof fn lemma_decimal_digits(n: nat)
    ensures
        digits_value(decimal_digits(n)) == n,
        decimal_digits(n).len() > 0,
        forall|i: int|
            0 <= i < decimal_digits(n).len() ==> '0' <= #[trigger] decimal_digits(n)[i] <= '9',
        n > 0 ==> decimal_digits(n)[0] != '0',
    decreases n,
{
    if n >= 10 {
        lemma_decimal_digits(n / 10);
        let s = decimal_digits(n);
        assert(s.drop_last() =~= decimal_digits(n / 10));
        assert(s[0] == decimal_digits(n / 10)[0]);
        assert(decimal_digit(n % 10) as int == 48 + n % 10);
        assert(s.last() == decimal_digit(n % 10));
        assert(digits_value(s) == digits_value(s.drop_last()) * 10 + (s.last() as int - 48));
        assert(digits_value(s.drop_last()) == n / 10);
        assert((n / 10) * 10 + n % 10 == n);
        assert forall|i: int| 0 <= i < s.len() implies '0' <= #[trigger] s[i] <= '9' by {
            if i < s.len() - 1 {
                assert(s[i] == decimal_digits(n / 10)[i]);
            }
        }
    } else {
        assert(seq![decimal_digit(n)].drop_last() =~= Seq::<char>::empty());
        assert(decimal_digit(n) as int == 48 + n % 10);
        let s = decimal_digits(n);
        assert(digits_value(s) == digits_value(s.drop_last()) * 10 + (s.last() as int - 48));
        assert(digits_value(s.drop_last()) == 0);
    }
}

/// Calls `format!` with `{:?}` on a `u16`, which writes the number in decimal, without sign or
/// leading zeros.
#[verifier::external_body]
pub(crate) fn format_u16(value: u16) -> (s: String)
    ensures
        s@ == decimal_digits(value as nat),
{
    format!("{:?}", value)
}

/// Holder type to clarify a frequent gotcha with BLE around the true ATT MTU size.
#[derive(Debug, Clone, Eq, Ord)]
pub struct Mtu {
    negotiated_mtu: u16,
}

impl View for Mtu {
    type V = u16;

    closed spec fn view(&self) -> u16 {
        self.negotiated_mtu
    }
}

impl PartialEq for Mtu {
    fn eq(&self, other: &Self) -> (r: bool) {
        self.negotiated_mtu == other.negotiated_mtu
    }
}

impl vstd::std_specs::cmp::PartialEqSpecImpl for Mtu {
    open spec fn obeys_eq_spec() -> bool {
        true
    }

    open spec fn eq_spec(&self, other: &Mtu) -> bool {
        self.view() == other.view()
    }
}

impl PartialOrd for Mtu {
    fn partial_cmp(&self, other: &Self) -> (r: Option<core::cmp::Ordering>) {
        self.negotiated_mtu.partial_cmp(&other.negotiated_mtu)
    }
}

impl vstd::std_specs::cmp::PartialOrdSpecImpl for Mtu {
    open spec fn obeys_partial_cmp_spec() -> bool {
        true
    }

    open spec fn partial_cmp_spec(&self, other: &Mtu) -> Option<core::cmp::Ordering> {
        if self.view() < other.view() {
            Some(core::cmp::Ordering::Less)
        } else if self.view() > other.view() {
            Some(core::cmp::Ordering::Greater)
        } else {
            Some(core::cmp::Ordering::Equal)
        }
    }
}

/// MTUs compare as their negotiated values do.
pub proof fn lemma_mtu_order(a: Mtu, b: Mtu)
    ensures
        a.eq_spec(&b) <==> a@ == b@,
        a.is_lt(&b) <==> a@ < b@,
        a.is_le(&b) <==> a@ <= b@,
        a.is_gt(&b) <==> a@ > b@,
        a.is_ge(&b) <==> a@ >= b@,
{
}

impl Mtu {
    pub fn new(negotiated_mtu: u16) -> (r: Self)
        ensures
            r@ == negotiated_mtu,
    {
        Self { negotiated_mtu }
    }

    /// Return the actual negotiated value for the _total_ BLE payload, which doesn't take into
    /// account the ATT header (which is 3 bytes).  Most customers should avoid this method as user
    /// provided payloads at this size will be truncated.
    pub fn negotiated_value(&self) -> (r: u16)
        ensures
            r == self@,
    {
        self.negotiated_mtu
    }

    /// Return the usable maximum payload size for writes.  This is the size at which packets
    /// must be fragmented by the caller.  To be extremely clear: this is the actual maximum size
    /// of a user initiated write that will be allowed without truncation.
    pub fn usable_value(&self) -> (r: u16)
        requires
            self@ >= 3,
        ensures
            r == self@ - 3,
    {
        self.negotiated_mtu - 3
    }

    /// The negotiated value in decimal, as the MTU is displayed.
    pub fn to_string(&self) -> (s: String)
        ensures
            s@ == decimal_digits(self@ as nat),
    {
        format_u16(self.negotiated_mtu)
    }
}

} // verus!

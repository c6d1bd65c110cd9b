use vstd::prelude::*;
use vstd::arithmetic::div_mod::lemma_mod_breakdown;

verus! {

/// The `n` least significant bytes of `v`, least significant first.
pub open spec fn le_bytes(v: nat, n: nat) -> Seq<u8>
    decreases n,
{
    if n == 0 {
        Seq::empty()
    } else {
        seq![(v % 256) as u8] + le_bytes(v / 256, (n - 1) as nat)
    }
}

pub proof fn lemma_le_bytes_len(v: nat, n: nat)
    ensures
        le_bytes(v, n).len() == n,
    decreases n,
{
    if n > 0 {
        lemma_le_bytes_len(v / 256, (n - 1) as nat);
    }
}

/// The number that a sequence of bytes stands for, least significant byte first.
pub open spec fn le_value(s: Seq<u8>) -> nat
    decreases s.len(),
{
    if s.len() == 0 {
        0
    } else {
        s[0] as nat + 256 * le_value(s.drop_first())
    }
}

/// 256 to the power `n`: the number of values that `n` bytes can hold.
pub open spec fn byte_range(n: nat) -> nat
    decreases n,
{
    if n == 0 {
        1
    } else {
        256 * byte_range((n - 1) as nat)
    }
}

pub proof fn lemma_byte_range_positive(n: nat)
    ensures
        byte_range(n) > 0,
    decreases n,
{
    if n > 0 {
        lemma_byte_range_positive((n - 1) as nat);
    }
}

/// Reading the `n` little-endian bytes of `v` back, least significant first, gives `v`
/// modulo 256^n: the bytes are `v`'s own, in order from the least significant.
pub proof fn lemma_le_bytes_value(v: nat, n: nat)
    ensures
        le_value(le_bytes(v, n)) == v % byte_range(n),
        le_bytes(v, n).len() == n,
    decreases n,
{
    lemma_le_bytes_len(v, n);
    if n > 0 {
        let s = le_bytes(v, n);
        lemma_le_bytes_value(v / 256, (n - 1) as nat);
        assert(s.drop_first() =~= le_bytes(v / 256, (n - 1) as nat));
        lemma_byte_range_positive((n - 1) as nat);
        lemma_mod_breakdown(v as int, 256, byte_range((n - 1) as nat) as int);
    }
}

/// The `n` least significant bytes of `v`, least significant first, as `to_le_bytes`
/// gives them for an integer of `n` bytes.
pub(crate) fn le_bytes_of(v: u128, n: usize) -> (out: Vec<u8>)
    requires
        n <= 16,
    ensures
        out@ == le_bytes(v as nat, n as nat),
{
    let mut out: Vec<u8> = Vec::new();
    let mut cur: u128 = v;
    let mut i: usize = 0;
    while i < n
        invariant
            i <= n,
            out@ + le_bytes(cur as nat, (n - i) as nat) == le_bytes(v as nat, n as nat),
        decreases n - i,
    {
        let ghost before = out@;
        let ghost c = cur;
        out.push((cur % 256) as u8);
        cur = cur / 256;
        i = i + 1;
        assert(le_bytes(c as nat, (n - i + 1) as nat) == seq![(c % 256) as u8] + le_bytes(
            cur as nat,
            (n - i) as nat,
        ));
        assert(out@ + le_bytes(cur as nat, (n - i) as nat) == before + le_bytes(
            c as nat,
            (n - i + 1) as nat,
        ));
    }
    assert(out@ + le_bytes(cur as nat, 0) == out@);
    out
}

} // verus!

//! Numbers in the byte order of the wire, the highest byte first.
use vstd::prelude::*;

verus! {

/// The number that a run of bytes spells, the highest byte first.
pub open spec fn be_value(s: Seq<u8>) -> nat
    decreases s.len(),
{
    if s.len() == 0 {
        0
    } else {
        be_value(s.drop_last()) * 256 + s.last() as nat
    }
}

spec fn power_of_256(n: nat) -> nat
    decreases n,
{
    if n == 0 {
        1
    } else {
        256 * power_of_256((n - 1) as nat)
    }
}

proof fn lemma_be_value_bound(s: Seq<u8>)
    ensures
        be_value(s) < power_of_256(s.len()),
    decreases s.len(),
{
    if s.len() > 0 {
        lemma_be_value_bound(s.drop_last());
    }
}

proof fn lemma_power_grows(a: nat, b: nat)
    requires
        a <= b,
    ensures
        power_of_256(a) <= power_of_256(b),
    decreases b - a,
{
    if a < b {
        lemma_power_grows(a, (b - 1) as nat);
    }
}

proof fn lemma_power_8()
    ensures
        power_of_256(8) == 0x1_0000_0000_0000_0000,
{
    reveal_with_fuel(power_of_256, 9);
}

/// Eight bytes spell a number that fits 64 bits.
pub proof fn lemma_be_value_fits(s: Seq<u8>)
    requires
        s.len() <= 8,
    ensures
        be_value(s) <= u64::MAX,
{
    lemma_be_value_bound(s);
    lemma_power_grows(s.len(), 8);
    lemma_power_8();
}

/// Reads eight bytes as a number.
pub fn u64_from_be(s: &[u8]) -> (r: u64)
    requires
        s@.len() == 8,
    ensures
        r == be_value(s@),
{
    let mut v: u64 = 0;
    let mut i: usize = 0;
    while i < 8
        invariant
            i <= 8,
            s@.len() == 8,
            v == be_value(s@.subrange(0, i as int)),
        decreases 8 - i,
    {
        proof {
            let w = s@.subrange(0, i + 1);
            assert(w.drop_last() =~= s@.subrange(0, i as int));
            lemma_be_value_fits(w);
        }
        v = v * 256 + s[i] as u64;
        i += 1;
    }
    proof {
        assert(s@.subrange(0, 8) =~= s@);
    }
    v
}

/// The eight bytes of a number.
pub open spec fn be_bytes(v: u64) -> Seq<u8> {
    seq![
        (v / 0x100_0000_0000_0000 % 256) as u8,
        (v / 0x1_0000_0000_0000 % 256) as u8,
        (v / 0x100_0000_0000 % 256) as u8,
        (v / 0x1_0000_0000 % 256) as u8,
        (v / 0x100_0000 % 256) as u8,
        (v / 0x1_0000 % 256) as u8,
        (v / 0x100 % 256) as u8,
        (v % 256) as u8,
    ]
}

/// Writes a number as eight bytes.
pub fn u64_to_be(v: u64) -> (r: Vec<u8>)
    ensures
        r@ == be_bytes(v),
{
    let mut r: Vec<u8> = Vec::new();
    r.push((v / 0x100_0000_0000_0000 % 256) as u8);
    r.push((v / 0x1_0000_0000_0000 % 256) as u8);
    r.push((v / 0x100_0000_0000 % 256) as u8);
    r.push((v / 0x1_0000_0000 % 256) as u8);
    r.push((v / 0x100_0000 % 256) as u8);
    r.push((v / 0x1_0000 % 256) as u8);
    r.push((v / 0x100 % 256) as u8);
    r.push((v % 256) as u8);
    proof {
        assert(r@ =~= be_bytes(v));
    }
    r
}

/// A number written as eight bytes reads back as itself.
pub proof fn law_be_round_trip(v: u64)
    ensures
        be_bytes(v).len() == 8,
        be_value(be_bytes(v)) == v,
{
    let s = be_bytes(v);
    let x = v as int;
    assert(s.subrange(0, 0) =~= Seq::<u8>::empty());
    vstd::arithmetic::div_mod::lemma_div_denominator(x, 0x100_0000_0000_0000, 0x100);
    lemma_be_value_step(s, 0);
    vstd::arithmetic::div_mod::lemma_div_denominator(x, 0x1_0000_0000_0000, 0x100);
    lemma_be_value_step(s, 1);
    assert(be_value(s.subrange(0, 2)) == x / 0x1_0000_0000_0000);
    vstd::arithmetic::div_mod::lemma_div_denominator(x, 0x100_0000_0000, 0x100);
    lemma_be_value_step(s, 2);
    assert(be_value(s.subrange(0, 3)) == x / 0x100_0000_0000);
    vstd::arithmetic::div_mod::lemma_div_denominator(x, 0x1_0000_0000, 0x100);
    lemma_be_value_step(s, 3);
    assert(be_value(s.subrange(0, 4)) == x / 0x1_0000_0000);
    vstd::arithmetic::div_mod::lemma_div_denominator(x, 0x100_0000, 0x100);
    lemma_be_value_step(s, 4);
    assert(be_value(s.subrange(0, 5)) == x / 0x100_0000);
    vstd::arithmetic::div_mod::lemma_div_denominator(x, 0x1_0000, 0x100);
    lemma_be_value_step(s, 5);
    assert(be_value(s.subrange(0, 6)) == x / 0x1_0000);
    vstd::arithmetic::div_mod::lemma_div_denominator(x, 0x100, 0x100);
    lemma_be_value_step(s, 6);
    assert(be_value(s.subrange(0, 7)) == x / 0x100);
    lemma_be_value_step(s, 7);
    assert(s.subrange(0, 8) =~= s);
}

proof fn lemma_be_value_step(s: Seq<u8>, i: int)
    requires
        0 <= i < s.len(),
    ensures
        be_value(s.subrange(0, i + 1)) == be_value(s.subrange(0, i)) * 256 + s[i],
{
    assert(s.subrange(0, i + 1).drop_last() =~= s.subrange(0, i));
}

/// The signed value of a byte.
pub open spec fn signed(b: u8) -> i8 {
    if b < 128 {
        b as i8
    } else {
        (b - 256) as i8
    }
}

pub fn to_signed(b: u8) -> (r: i8)
    ensures
        r == signed(b),
{
    if b < 128 {
        b as i8
    } else {
        (b as i16 - 256) as i8
    }
}

/// The byte of a signed value.
pub open spec fn unsigned(v: i8) -> u8 {
    if v >= 0 {
        v as u8
    } else {
        (v + 256) as u8
    }
}

pub fn to_unsigned(v: i8) -> (r: u8)
    ensures
        r == unsigned(v),
{
    if v >= 0 {
        v as u8
    } else {
        (v as i16 + 256) as u8
    }
}

/// A signal strength in dBm: the negative of the byte, at least -128.
pub open spec fn negated(b: u8) -> i8 {
    if b > 128 {
        -128i8
    } else {
        (-(b as int)) as i8
    }
}

pub fn to_negated(b: u8) -> (r: i8)
    ensures
        r == negated(b),
{
    if b > 128 {
        -128
    } else {
        (-(b as i16)) as i8
    }
}

/// A byte above 127 stands for a negative number, 256 below it; every signed number comes
/// back from its byte.
pub proof fn law_signed_bytes(b: u8, v: i8)
    ensures
        b <= 127 ==> signed(b) == b,
        b >= 128 ==> signed(b) == b - 256,
        signed(unsigned(v)) == v,
        unsigned(signed(b)) == b,
{
}

/// A signal strength is below zero by as much as the byte says, down to -128.
pub proof fn law_signal_strength(b: u8)
    ensures
        b <= 128 ==> negated(b) + b == 0,
        b > 128 ==> negated(b) == -128,
{
}

/// One more byte makes 256 times the number and the byte; eight bytes are read with the
/// highest first.
pub proof fn law_highest_byte_first(s: Seq<u8>, b: u8)
    ensures
        be_value(seq![b]) == b,
        be_value(s.push(b)) == be_value(s) * 256 + b,
        s.len() == 8 ==> be_value(s) == s[0] * 0x100_0000_0000_0000 + s[1] * 0x1_0000_0000_0000
            + s[2] * 0x100_0000_0000 + s[3] * 0x1_0000_0000 + s[4] * 0x100_0000 + s[5] * 0x1_0000
            + s[6] * 0x100 + s[7],
{
    assert(seq![b].drop_last() =~= Seq::<u8>::empty());
    assert(s.push(b).drop_last() =~= s);
    if s.len() == 8 {
        assert(s.subrange(0, 0) =~= Seq::<u8>::empty());
        lemma_be_value_step(s, 0);
        lemma_be_value_step(s, 1);
        lemma_be_value_step(s, 2);
        lemma_be_value_step(s, 3);
        lemma_be_value_step(s, 4);
        lemma_be_value_step(s, 5);
        lemma_be_value_step(s, 6);
        lemma_be_value_step(s, 7);
        assert(s.subrange(0, 8) =~= s);
    }
}

} // verus!

use vstd::prelude::*;
use vstd::string::StringExecFns;

verus! {

/// Bit pattern of negative zero; every other bit pattern with a value equal
/// to zero has no bit set at all.
pub const NEGATIVE_ZERO: u64 = 0x8000_0000_0000_0000;

/// Whether the IEEE-754 double with the bit pattern `bits` compares equal to
/// zero: positive and negative zero do, no other value does.
pub open spec fn zero_bits(bits: u64) -> bool {
    bits == 0 || bits == NEGATIVE_ZERO
}

/// Decides from its bit pattern whether a double is the "no data" value.
pub fn is_zero(bits: u64) -> (zero: bool)
    ensures
        zero == zero_bits(bits),
{
    bits == 0 || bits == NEGATIVE_ZERO
}

/// A bit pattern stands for zero exactly when nothing but its sign bit is
/// set: its exponent and its fraction are both zero.
pub proof fn lemma_zero_has_no_magnitude(bits: u64)
    ensures
        zero_bits(bits) <==> bits & 0x7fff_ffff_ffff_ffff == 0,
{
    assert((bits == 0 || bits == 0x8000_0000_0000_0000u64) <==> bits & 0x7fff_ffff_ffff_ffff == 0)
        by (bit_vector);
}

/// The sixteen hexadecimal digits, in order.
pub open spec fn hex_digits() -> Seq<char> {
    seq!['0', '1', '2', '3', '4', '5', '6', '7', '8', '9', 'a', 'b', 'c', 'd', 'e', 'f']
}

/// The hexadecimal digit of `bits` at place `at`, counted from the left.
pub open spec fn nibble(bits: u64, at: int) -> u64 {
    (bits >> ((60 - 4 * at) as u64)) & 0xf
}

/// The text that stands for a price where it is signed: the sixteen
/// hexadecimal digits of its bit pattern, highest first.
pub open spec fn price_text(bits: u64) -> Seq<char> {
    Seq::new(16, |at: int| hex_digits()[nibble(bits, at) as int])
}

/// One hexadecimal digit as a text.
fn digit_text(digit: u64) -> (text: &'static str)
    requires
        digit < 16,
    ensures
        text@ == seq![hex_digits()[digit as int]],
{
    proof {
        reveal_strlit("0");
        reveal_strlit("1");
        reveal_strlit("2");
        reveal_strlit("3");
        reveal_strlit("4");
        reveal_strlit("5");
        reveal_strlit("6");
        reveal_strlit("7");
        reveal_strlit("8");
        reveal_strlit("9");
        reveal_strlit("a");
        reveal_strlit("b");
        reveal_strlit("c");
        reveal_strlit("d");
        reveal_strlit("e");
        reveal_strlit("f");
    }
    let text = if digit == 0 {
        "0"
    } else if digit == 1 {
        "1"
    } else if digit == 2 {
        "2"
    } else if digit == 3 {
        "3"
    } else if digit == 4 {
        "4"
    } else if digit == 5 {
        "5"
    } else if digit == 6 {
        "6"
    } else if digit == 7 {
        "7"
    } else if digit == 8 {
        "8"
    } else if digit == 9 {
        "9"
    } else if digit == 10 {
        "a"
    } else if digit == 11 {
        "b"
    } else if digit == 12 {
        "c"
    } else if digit == 13 {
        "d"
    } else if digit == 14 {
        "e"
    } else {
        "f"
    };
    assert(text@ =~= seq![hex_digits()[digit as int]]);
    text
}

/// Writes a price down for signing.
pub fn render(bits: u64) -> (text: String)
    ensures
        text@ == price_text(bits),
{
    let mut text = String::new();
    let mut at: u64 = 0;
    while at < 16
        invariant
            at <= 16,
            text@ == price_text(bits).take(at as int),
        decreases 16 - at,
    {
        let shift: u64 = 60 - 4 * at;
        let digit: u64 = (bits >> shift) & 0xf;
        assert(digit < 16) by (bit_vector)
            requires
                digit == (bits >> shift) & 0xf,
        ;
        text.append(digit_text(digit));
        at += 1;
        assert(text@ =~= price_text(bits).take(at as int));
    }
    assert(price_text(bits).take(16) =~= price_text(bits));
    text
}

/// Two prices with the same text are the same price: a text, and with it a
/// signature over the text, speaks of one bit pattern only.
pub proof fn lemma_price_text_is_injective(left: u64, right: u64)
    requires
        price_text(left) == price_text(right),
    ensures
        left == right,
{
    assert forall|at: int| 0 <= at < 16 implies nibble(left, at) == nibble(right, at) by {
        let l = nibble(left, at);
        let r = nibble(right, at);
        let shift = (60 - 4 * at) as u64;
        assert(l < 16) by (bit_vector)
            requires
                l == (left >> shift) & 0xf,
        ;
        assert(r < 16) by (bit_vector)
            requires
                r == (right >> shift) & 0xf,
        ;
        assert(price_text(left)[at] == hex_digits()[l as int]);
        assert(price_text(right)[at] == hex_digits()[r as int]);
    }
    assert(nibble(left, 0) == nibble(right, 0));
    assert(nibble(left, 1) == nibble(right, 1));
    assert(nibble(left, 2) == nibble(right, 2));
    assert(nibble(left, 3) == nibble(right, 3));
    assert(nibble(left, 4) == nibble(right, 4));
    assert(nibble(left, 5) == nibble(right, 5));
    assert(nibble(left, 6) == nibble(right, 6));
    assert(nibble(left, 7) == nibble(right, 7));
    assert(nibble(left, 8) == nibble(right, 8));
    assert(nibble(left, 9) == nibble(right, 9));
    assert(nibble(left, 10) == nibble(right, 10));
    assert(nibble(left, 11) == nibble(right, 11));
    assert(nibble(left, 12) == nibble(right, 12));
    assert(nibble(left, 13) == nibble(right, 13));
    assert(nibble(left, 14) == nibble(right, 14));
    assert(nibble(left, 15) == nibble(right, 15));
    assert(left == right) by (bit_vector)
        requires
            (left >> 60) & 0xf == (right >> 60) & 0xf,
            (left >> 56) & 0xf == (right >> 56) & 0xf,
            (left >> 52) & 0xf == (right >> 52) & 0xf,
            (left >> 48) & 0xf == (right >> 48) & 0xf,
            (left >> 44) & 0xf == (right >> 44) & 0xf,
            (left >> 40) & 0xf == (right >> 40) & 0xf,
            (left >> 36) & 0xf == (right >> 36) & 0xf,
            (left >> 32) & 0xf == (right >> 32) & 0xf,
            (left >> 28) & 0xf == (right >> 28) & 0xf,
            (left >> 24) & 0xf == (right >> 24) & 0xf,
            (left >> 20) & 0xf == (right >> 20) & 0xf,
            (left >> 16) & 0xf == (right >> 16) & 0xf,
            (left >> 12) & 0xf == (right >> 12) & 0xf,
            (left >> 8) & 0xf == (right >> 8) & 0xf,
            (left >> 4) & 0xf == (right >> 4) & 0xf,
            (left >> 0) & 0xf == (right >> 0) & 0xf,
    ;
}

} // verus!

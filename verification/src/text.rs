//! Writing text and numbers as bytes.

use vstd::prelude::*;
use vstd::string::*;
use vstd::utf8::is_ascii_chars;

verus! {

/// The bytes of a text that holds nothing but ASCII characters.
pub open spec fn ascii(text: Seq<char>) -> Seq<u8> {
    Seq::new(text.len(), |i: int| text[i] as u8)
}

/// The decimal digits of `n`, most significant first, without leading zeros.
pub open spec fn decimal(n: nat) -> Seq<u8>
    decreases n,
{
    if n < 10 {
        seq![(48 + n) as u8]
    } else {
        decimal(n / 10).push((48 + n % 10) as u8)
    }
}

/// `count` spaces.
pub open spec fn spaces(count: nat) -> Seq<u8> {
    Seq::new(count, |i: int| 32u8)
}

/// `text` with spaces in front of it, as many as it is shorter than `width`.
pub open spec fn right_aligned(text: Seq<u8>, width: nat) -> Seq<u8> {
    if text.len() < width {
        spaces((width - text.len()) as nat) + text
    } else {
        text
    }
}

/// `digits` from the last to the first.
spec fn backwards(digits: Seq<u8>) -> Seq<u8> {
    Seq::new(digits.len(), |i: int| digits[digits.len() - 1 - i])
}

/// The digits that are still to come in front of those already taken.
spec fn leading(rest: nat) -> Seq<u8> {
    if rest == 0 {
        Seq::empty()
    } else {
        decimal(rest)
    }
}

/// The bytes of `text`.
pub(crate) fn text_bytes(text: &str) -> (bytes: &[u8])
    requires
        is_ascii_chars(text@),
    ensures
        bytes@ == ascii(text@),
{
    let bytes = text.as_bytes();
    proof {
        broadcast use vstd::string::is_ascii_spec_bytes;

        assert(is_ascii(text));
        assert(bytes@ =~= ascii(text@));
    }
    bytes
}

/// Appends the bytes of `text`.
pub(crate) fn push_text(out: &mut Vec<u8>, text: &str)
    requires
        is_ascii_chars(text@),
    ensures
        final(out)@ == old(out)@ + ascii(text@),
{
    push_bytes(out, text_bytes(text));
}

/// Appends `bytes`.
pub fn push_bytes(out: &mut Vec<u8>, bytes: &[u8])
    ensures
        final(out)@ == old(out)@ + bytes@,
{
    let n = bytes.len();
    let mut i: usize = 0;
    while i < n
        invariant
            n == bytes@.len(),
            i <= n,
            out@ == old(out)@ + bytes@.subrange(0, i as int),
        decreases n - i,
    {
        out.push(bytes[i]);
        i = i + 1;
    }
    assert(bytes@.subrange(0, n as int) =~= bytes@);
}

/// The decimal digits of `n`.
pub fn decimal_digits(n: u64) -> (digits: Vec<u8>)
    ensures
        digits@ == decimal(n as nat),
{
    let mut taken: Vec<u8> = Vec::new();
    taken.push(48 + (n % 10) as u8);
    let mut rest: u64 = n / 10;
    assert(leading(rest as nat) + backwards(taken@) =~= decimal(n as nat));
    while rest > 0
        invariant
            leading(rest as nat) + backwards(taken@) == decimal(n as nat),
        decreases rest,
    {
        let ghost before = taken@;
        taken.push(48 + (rest % 10) as u8);
        proof {
            let digit = (48 + rest % 10) as u8;
            assert(backwards(taken@) =~= seq![digit] + backwards(before));
            assert(leading((rest / 10) as nat) + seq![digit] =~= decimal(rest as nat));
            assert(leading((rest / 10) as nat) + backwards(taken@) =~= (leading((rest / 10) as nat)
                + seq![digit]) + backwards(before));
        }
        rest = rest / 10;
    }
    let count = taken.len();
    let mut digits: Vec<u8> = Vec::with_capacity(count);
    let mut i: usize = 0;
    while i < count
        invariant
            count == taken@.len(),
            i <= count,
            digits@ == backwards(taken@).subrange(0, i as int),
        decreases count - i,
    {
        digits.push(taken[count - 1 - i]);
        i = i + 1;
    }
    assert(backwards(taken@).subrange(0, count as int) =~= backwards(taken@));
    assert(leading(0) + backwards(taken@) =~= backwards(taken@));
    digits
}

/// Appends the decimal digits of `n`.
pub fn push_decimal(out: &mut Vec<u8>, n: u64)
    ensures
        final(out)@ == old(out)@ + decimal(n as nat),
{
    let digits = decimal_digits(n);
    push_bytes(out, digits.as_slice());
}

/// Appends the decimal digits of `n` behind as many spaces as they are fewer
/// than `width`.
pub fn push_right_aligned(out: &mut Vec<u8>, n: u64, width: usize)
    ensures
        final(out)@ == old(out)@ + right_aligned(decimal(n as nat), width as nat),
{
    let digits = decimal_digits(n);
    let ghost start = out@;
    if digits.len() < width {
        let pad = width - digits.len();
        let mut i: usize = 0;
        while i < pad
            invariant
                i <= pad,
                out@ == start + spaces(i as nat),
            decreases pad - i,
        {
            out.push(32);
            assert(spaces(i as nat).push(32u8) =~= spaces((i + 1) as nat));
            i = i + 1;
        }
        push_bytes(out, digits.as_slice());
        assert(out@ =~= start + right_aligned(digits@, width as nat));
    } else {
        push_bytes(out, digits.as_slice());
    }
}

} // verus!

//! Hexadecimal rendering of bytes for diagnostic records.
//!
//! Every byte is rendered as one item of five characters: `0x`, two lowercase
//! hexadecimal digits and a trailing space, so `0x0a ` stands for the byte 10.
//! A list of bytes is rendered as its items in order.

use vstd::prelude::*;
use vstd::string::*;

verus! {

/// The sixteen lowercase hexadecimal digits, in order of value.
pub open spec fn hex_digits() -> Seq<char> {
    seq!['0', '1', '2', '3', '4', '5', '6', '7', '8', '9', 'a', 'b', 'c', 'd', 'e', 'f']
}

/// The digit that stands for `n`, for `0 <= n < 16`.
pub open spec fn hex_digit(n: int) -> char {
    hex_digits()[n]
}

/// The value that a hexadecimal digit stands for; the inverse of [`hex_digit`].
pub open spec fn hex_value(c: char) -> int {
    if c == '0' {
        0
    } else if c == '1' {
        1
    } else if c == '2' {
        2
    } else if c == '3' {
        3
    } else if c == '4' {
        4
    } else if c == '5' {
        5
    } else if c == '6' {
        6
    } else if c == '7' {
        7
    } else if c == '8' {
        8
    } else if c == '9' {
        9
    } else if c == 'a' {
        10
    } else if c == 'b' {
        11
    } else if c == 'c' {
        12
    } else if c == 'd' {
        13
    } else if c == 'e' {
        14
    } else {
        15
    }
}

/// Number of characters in the rendering of one byte.
pub open spec fn hex_item_len() -> nat {
    5
}

/// The rendering of one byte: `0x`, the high digit, the low digit, a space.
pub open spec fn hex_item(byte: u8) -> Seq<char> {
    seq!['0', 'x', hex_digit(byte as int / 16), hex_digit(byte as int % 16), ' ']
}

/// The rendering of a list of bytes: the items of its bytes, first byte first.
pub open spec fn hex_list(bytes: Seq<u8>) -> Seq<char>
    decreases bytes.len(),
{
    if bytes.len() == 0 {
        Seq::empty()
    } else {
        hex_list(bytes.drop_last()) + hex_item(bytes.last())
    }
}

/// `hex_value` undoes `hex_digit`.
pub proof fn lemma_hex_value_of_digit(n: int)
    requires
        0 <= n < 16,
    ensures
        hex_value(hex_digit(n)) == n,
{
}

/// The byte is recovered from the two digits of its item.
pub proof fn lemma_hex_item_decodes(byte: u8)
    ensures
        hex_item(byte).len() == hex_item_len(),
        hex_value(hex_item(byte)[2]) * 16 + hex_value(hex_item(byte)[3]) == byte,
{
    let hi: int = byte as int / 16;
    let lo: int = byte as int % 16;
    lemma_hex_value_of_digit(hi);
    lemma_hex_value_of_digit(lo);
}

/// A rendering holds five characters for each byte.
pub proof fn lemma_hex_list_len(bytes: Seq<u8>)
    ensures
        hex_list(bytes).len() == hex_item_len() * bytes.len(),
    decreases bytes.len(),
{
    if bytes.len() > 0 {
        lemma_hex_list_len(bytes.drop_last());
    }
}

/// Rendering one more byte appends its item.
pub proof fn lemma_hex_list_push(bytes: Seq<u8>, byte: u8)
    ensures
        hex_list(bytes.push(byte)) == hex_list(bytes) + hex_item(byte),
{
    assert(bytes.push(byte).drop_last() =~= bytes);
}

/// Different byte lists never share a rendering: the rendering names exactly
/// the bytes it was made from, in their order.
pub proof fn lemma_hex_list_injective(a: Seq<u8>, b: Seq<u8>)
    requires
        hex_list(a) == hex_list(b),
    ensures
        a == b,
    decreases a.len(),
{
    lemma_hex_list_len(a);
    lemma_hex_list_len(b);
    assert(a.len() == b.len());
    if a.len() > 0 {
        let ra = hex_list(a.drop_last());
        let rb = hex_list(b.drop_last());
        lemma_hex_list_len(a.drop_last());
        lemma_hex_list_len(b.drop_last());
        let whole = hex_list(a);
        let cut: int = ra.len() as int;
        assert(whole.subrange(0, cut) =~= ra);
        assert(whole.subrange(0, cut) =~= rb);
        assert(whole.subrange(cut, whole.len() as int) =~= hex_item(a.last()));
        assert(whole.subrange(cut, whole.len() as int) =~= hex_item(b.last()));
        lemma_hex_item_decodes(a.last());
        lemma_hex_item_decodes(b.last());
        assert(a.last() == b.last());
        lemma_hex_list_injective(a.drop_last(), b.drop_last());
        assert(a =~= a.drop_last().push(a.last()));
        assert(b =~= b.drop_last().push(b.last()));
    }
}

/// The text of one hexadecimal digit.
fn digit_text(n: u8) -> (text: &'static str)
    requires
        n < 16,
    ensures
        text@ == seq![hex_digit(n as int)],
{
    let digits = "0123456789abcdef";
    proof {
        reveal_strlit("0123456789abcdef");
        assert(digits@ =~= hex_digits());
    }
    let from: usize = n as usize;
    let text = digits.substring_ascii(from, from + 1);
    assert(text@ =~= seq![hex_digit(n as int)]);
    text
}

/// Appends the rendering of one byte to `out`.
pub fn push_hex_item(out: &mut String, byte: u8)
    ensures
        final(out)@ == old(out)@ + hex_item(byte),
{
    proof {
        reveal_strlit("0x");
        reveal_strlit(" ");
    }
    out.append("0x");
    out.append(digit_text(byte / 16));
    out.append(digit_text(byte % 16));
    out.append(" ");
    assert(out@ =~= old(out)@ + hex_item(byte));
}

/// Appends the rendering of `bytes` to `out`.
pub fn push_hex_list(out: &mut String, bytes: &[u8])
    ensures
        final(out)@ == old(out)@ + hex_list(bytes@),
{
    let mut i: usize = 0;
    assert(bytes@.take(0) =~= Seq::<u8>::empty());
    assert(out@ =~= old(out)@ + hex_list(bytes@.take(0)));
    while i < bytes.len()
        invariant
            i <= bytes.len(),
            out@ == old(out)@ + hex_list(bytes@.take(i as int)),
        decreases bytes.len() - i,
    {
        proof {
            lemma_hex_list_push(bytes@.take(i as int), bytes@[i as int]);
            assert(bytes@.take(i as int).push(bytes@[i as int]) =~= bytes@.take(i as int + 1));
        }
        push_hex_item(out, bytes[i]);
        i = i + 1;
        assert(out@ =~= old(out)@ + hex_list(bytes@.take(i as int)));
    }
    assert(bytes@.take(bytes.len() as int) =~= bytes@);
}

} // verus!

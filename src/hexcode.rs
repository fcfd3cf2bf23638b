//! Lower-case hexadecimal text of byte strings, and its inverse.

use vstd::prelude::*;

verus! {

/// The lower-case hexadecimal digit of `d` (below sixteen).
pub open spec fn hex_digit(d: nat) -> char {
    if d < 10 {
        ((d + 48) as u8) as char
    } else {
        ((d + 87) as u8) as char
    }
}

/// The value of a lower-case hexadecimal digit.
pub open spec fn hex_value(c: char) -> nat {
    if '0' <= c && c <= '9' {
        (c as nat - 48) as nat
    } else {
        (c as nat - 87) as nat
    }
}

/// Whether `c` is one of `0`-`9`, `a`-`f`.
pub open spec fn is_hex_char(c: char) -> bool {
    ('0' <= c && c <= '9') || ('a' <= c && c <= 'f')
}

/// Two digits for each byte, high half first.
pub open spec fn hex_of(b: Seq<u8>) -> Seq<char>
    decreases b.len(),
{
    if b.len() == 0 {
        Seq::empty()
    } else {
        seq![hex_digit((b[0] / 16) as nat), hex_digit((b[0] % 16) as nat)] + hex_of(b.drop_first())
    }
}

/// The bytes that a text of lower-case hexadecimal digit pairs stands for.
pub open spec fn bytes_of_hex(s: Seq<char>) -> Seq<u8>
    decreases s.len(),
{
    if s.len() < 2 {
        Seq::empty()
    } else {
        seq![(16 * hex_value(s[0]) + hex_value(s[1])) as u8] + bytes_of_hex(s.subrange(2, s.len() as int))
    }
}

proof fn lemma_digit_value(d: nat)
    requires
        d < 16,
    ensures
        hex_value(hex_digit(d)) == d,
        is_hex_char(hex_digit(d)),
{
}

/// Every character of a hexadecimal text is a digit `0`-`9` or `a`-`f`, and
/// the text has two characters per byte.
pub proof fn lemma_hex_chars(b: Seq<u8>)
    ensures
        hex_of(b).len() == 2 * b.len(),
        forall|i: int| 0 <= i < hex_of(b).len() ==> is_hex_char(#[trigger] hex_of(b)[i]),
    decreases b.len(),
{
    if b.len() > 0 {
        lemma_hex_chars(b.drop_first());
        lemma_digit_value((b[0] / 16) as nat);
        lemma_digit_value((b[0] % 16) as nat);
        let h = hex_of(b);
        let t = hex_of(b.drop_first());
        assert forall|i: int| 0 <= i < h.len() implies is_hex_char(#[trigger] h[i]) by {
            if i >= 2 {
                assert(h[i] == t[i - 2]);
            }
        }
    }
}

/// Reading the hexadecimal text of a byte string back gives that byte string.
pub proof fn lemma_hex_round_trip(b: Seq<u8>)
    ensures
        bytes_of_hex(hex_of(b)) == b,
    decreases b.len(),
{
    if b.len() > 0 {
        lemma_hex_round_trip(b.drop_first());
        lemma_digit_value((b[0] / 16) as nat);
        lemma_digit_value((b[0] % 16) as nat);
        let h = hex_of(b);
        assert(h.subrange(2, h.len() as int) =~= hex_of(b.drop_first()));
        assert(16 * ((b[0] / 16) as nat) + ((b[0] % 16) as nat) == b[0]);
        assert(bytes_of_hex(h) =~= b);
    }
}

/// Relies on `hex::encode`: two lower-case digits per byte, high half first.
#[verifier::external_body]
pub(crate) fn to_hex(b: &[u8]) -> (r: String)
    ensures
        r@ == hex_of(b@),
{
    hex::encode(b)
}

} // verus!

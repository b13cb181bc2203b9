//! Base64 in its standard form (RFC 4648, standard alphabet, `=` padding, canonical
//! padding and zero trailing bits required when decoding), as the `base64` crate's
//! `general_purpose::STANDARD` engine reads and writes it.
use vstd::prelude::*;
use base64::Engine as _;

verus! {

/// The six-bit value of a symbol of the standard alphabet, if it is one.
pub open spec fn symbol_value(b: u8) -> Option<u8> {
    if 65 <= b <= 90 {
        Some((b - 65) as u8)
    } else if 97 <= b <= 122 {
        Some((b - 71) as u8)
    } else if 48 <= b <= 57 {
        Some((b + 4) as u8)
    } else if b == 43 {
        Some(62u8)
    } else if b == 47 {
        Some(63u8)
    } else {
        None
    }
}

/// The symbol of the standard alphabet that stands for a six-bit value.
pub open spec fn value_symbol(v: u8) -> u8 {
    if v < 26 {
        (v + 65) as u8
    } else if v < 52 {
        (v + 71) as u8
    } else if v < 62 {
        (v - 4) as u8
    } else if v == 62 {
        43u8
    } else {
        47u8
    }
}

/// The padding symbol `=`.
pub open spec fn pad() -> u8 {
    61u8
}

/// First byte of a quad: the six bits of `a` and the top two bits of `b`.
pub open spec fn first_byte(a: u8, b: u8) -> u8 {
    (a * 4 + b / 16) as u8
}

/// Second byte of a quad: the low four bits of `b` and the top four bits of `c`.
pub open spec fn second_byte(b: u8, c: u8) -> u8 {
    ((b % 16) * 16 + c / 4) as u8
}

/// Third byte of a quad: the low two bits of `c` and the six bits of `d`.
pub open spec fn third_byte(c: u8, d: u8) -> u8 {
    ((c % 4) * 64 + d) as u8
}

/// A quad of four symbols, none of them padding.
pub open spec fn decode_full_quad(q: Seq<u8>) -> Option<Seq<u8>> {
    match (symbol_value(q[0]), symbol_value(q[1]), symbol_value(q[2]), symbol_value(q[3])) {
        (Some(a), Some(b), Some(c), Some(d)) => Some(
            seq![first_byte(a, b), second_byte(b, c), third_byte(c, d)],
        ),
        _ => None,
    }
}

/// The last quad: four symbols, or three and one `=`, or two and two `=`; the bits
/// that padding leaves over must be zero.
pub open spec fn decode_last_quad(q: Seq<u8>) -> Option<Seq<u8>> {
    match (symbol_value(q[0]), symbol_value(q[1]), symbol_value(q[2]), symbol_value(q[3])) {
        (Some(a), Some(b), Some(c), Some(d)) => Some(
            seq![first_byte(a, b), second_byte(b, c), third_byte(c, d)],
        ),
        (Some(a), Some(b), Some(c), None) => if q[3] == pad() && c % 4 == 0 {
            Some(seq![first_byte(a, b), second_byte(b, c)])
        } else {
            None
        },
        (Some(a), Some(b), None, None) => if q[2] == pad() && q[3] == pad() && b % 16 == 0 {
            Some(seq![first_byte(a, b)])
        } else {
            None
        },
        _ => None,
    }
}

/// The bytes that a base64 text stands for, or `None` when it is not canonical base64.
pub open spec fn base64_decoded(s: Seq<u8>) -> Option<Seq<u8>>
    decreases s.len(),
{
    if s.len() == 0 {
        Some(Seq::empty())
    } else if s.len() < 4 {
        None
    } else if s.len() == 4 {
        decode_last_quad(s)
    } else {
        match (decode_full_quad(s.take(4)), base64_decoded(s.skip(4))) {
            (Some(head), Some(rest)) => Some(head + rest),
            _ => None,
        }
    }
}

/// The base64 text of some bytes, padded with `=` to a multiple of four symbols.
pub open spec fn base64_encoded(v: Seq<u8>) -> Seq<u8>
    decreases v.len(),
{
    if v.len() == 0 {
        Seq::empty()
    } else if v.len() == 1 {
        seq![value_symbol(v[0] / 4), value_symbol(((v[0] % 4) * 16) as u8), pad(), pad()]
    } else if v.len() == 2 {
        seq![
            value_symbol(v[0] / 4),
            value_symbol(((v[0] % 4) * 16 + v[1] / 16) as u8),
            value_symbol(((v[1] % 16) * 4) as u8),
            pad(),
        ]
    } else {
        seq![
            value_symbol(v[0] / 4),
            value_symbol(((v[0] % 4) * 16 + v[1] / 16) as u8),
            value_symbol(((v[1] % 16) * 4 + v[2] / 64) as u8),
            value_symbol(v[2] % 64),
        ] + base64_encoded(v.skip(3))
    }
}

/// The characters of an ASCII byte string.
pub open spec fn ascii_text(bytes: Seq<u8>) -> Seq<char> {
    bytes.map_values(|b: u8| b as char)
}

/// The `Display` text of the error that `general_purpose::STANDARD.decode` gives for a
/// text that is not canonical base64: the offending symbol and its offset, the bad
/// length, or the bad padding, as the crate words them.
pub uninterp spec fn base64_error_message(input: Seq<u8>) -> Seq<char>;

/// `general_purpose::STANDARD.decode`: the bytes are those that `base64_decoded`
/// gives, and it fails exactly where that is `None`, with the error's `Display` text,
/// which is named.
#[verifier::external_body]
pub(crate) fn standard_decode(input: &[u8]) -> (r: Result<Vec<u8>, String>)
    ensures
        match r {
            Ok(v) => base64_decoded(input@) == Some(v@),
            Err(t) => base64_decoded(input@) is None && t@ == base64_error_message(input@),
        },
{
    match base64::engine::general_purpose::STANDARD.decode(input) {
        Ok(v) => Ok(v),
        Err(e) => Err(e.to_string()),
    }
}

/// `general_purpose::STANDARD.encode`: the padded base64 text of the bytes. The length
/// bound keeps the crate's size computation from overflowing, where it would panic.
#[verifier::external_body]
pub(crate) fn standard_encode(bytes: &[u8]) -> (r: String)
    requires
        bytes@.len() <= usize::MAX / 2,
    ensures
        r@ == ascii_text(base64_encoded(bytes@)),
{
    base64::engine::general_purpose::STANDARD.encode(bytes)
}

/// Every symbol of a base64 text is an ASCII byte.
pub proof fn lemma_encoded_is_ascii(v: Seq<u8>)
    ensures
        forall|i: int| 0 <= i < base64_encoded(v).len() ==> #[trigger] base64_encoded(v)[i] < 128,
    decreases v.len(),
{
    if v.len() >= 3 {
        lemma_encoded_is_ascii(v.skip(3));
        let e = base64_encoded(v);
        assert forall|i: int| 0 <= i < e.len() implies #[trigger] e[i] < 128 by {
            if i >= 4 {
                assert(e[i] == base64_encoded(v.skip(3))[i - 4]);
            }
        }
    }
}

proof fn lemma_symbol_round_trip(v: u8)
    requires
        v < 64,
    ensures
        symbol_value(value_symbol(v)) == Some(v),
        value_symbol(v) != pad(),
{
}

proof fn lemma_pad_not_symbol()
    ensures
        symbol_value(pad()) is None,
{
}

/// Decoding the base64 text of any bytes gives those bytes back.
pub proof fn lemma_base64_round_trip(v: Seq<u8>)
    ensures
        base64_decoded(base64_encoded(v)) == Some(v),
    decreases v.len(),
{
    let e = base64_encoded(v);
    lemma_pad_not_symbol();
    if v.len() == 0 {
    } else if v.len() == 1 {
        let x = v[0];
        lemma_symbol_round_trip(x / 4);
        lemma_symbol_round_trip(((x % 4) * 16) as u8);
        assert(first_byte(x / 4, ((x % 4) * 16) as u8) == x);
        assert(decode_last_quad(e) =~= Some(v));
    } else if v.len() == 2 {
        let x = v[0];
        let y = v[1];
        lemma_symbol_round_trip(x / 4);
        lemma_symbol_round_trip(((x % 4) * 16 + y / 16) as u8);
        lemma_symbol_round_trip(((y % 16) * 4) as u8);
        assert(first_byte(x / 4, ((x % 4) * 16 + y / 16) as u8) == x);
        assert(second_byte(((x % 4) * 16 + y / 16) as u8, ((y % 16) * 4) as u8) == y);
        assert(decode_last_quad(e) =~= Some(v));
    } else {
        let x = v[0];
        let y = v[1];
        let z = v[2];
        let a = x / 4;
        let b = ((x % 4) * 16 + y / 16) as u8;
        let c = ((y % 16) * 4 + z / 64) as u8;
        let d = z % 64;
        lemma_symbol_round_trip(a);
        lemma_symbol_round_trip(b);
        lemma_symbol_round_trip(c);
        lemma_symbol_round_trip(d);
        assert(first_byte(a, b) == x);
        assert(second_byte(b, c) == y);
        assert(third_byte(c, d) == z);
        let head = seq![value_symbol(a), value_symbol(b), value_symbol(c), value_symbol(d)];
        lemma_base64_round_trip(v.skip(3));
        assert(e =~= head + base64_encoded(v.skip(3)));
        if v.len() == 3 {
            assert(v.skip(3) =~= Seq::<u8>::empty());
            assert(e =~= head);
            assert(decode_last_quad(e) =~= Some(v));
        } else {
            assert(e.take(4) =~= head);
            assert(e.skip(4) =~= base64_encoded(v.skip(3)));
            assert(decode_full_quad(head) =~= Some(v.take(3)));
            assert(v =~= v.take(3) + v.skip(3));
        }
    }
}

} // verus!

use vstd::prelude::*;

use crate::error::Error;

verus! {

/// Whether a byte is an ASCII hex digit: `0`-`9`, `a`-`f` or `A`-`F`.
pub open spec fn is_hex_digit(c: u8) -> bool {
    ||| (48 <= c && c <= 57)
    ||| (97 <= c && c <= 102)
    ||| (65 <= c && c <= 70)
}

/// The value of a hex digit, meaningful on bytes that satisfy
/// [`is_hex_digit`].
pub open spec fn hex_digit_value(c: u8) -> u8
    recommends
        is_hex_digit(c),
{
    if 48 <= c && c <= 57 {
        (c - 48) as u8
    } else if 97 <= c && c <= 102 {
        (c - 97 + 10) as u8
    } else {
        (c - 65 + 10) as u8
    }
}

/// The lowercase hex digit of a value below sixteen.
pub open spec fn hex_digit_of(v: u8) -> u8
    recommends
        v < 16,
{
    if v < 10 {
        (48 + v) as u8
    } else {
        (97 + (v - 10)) as u8
    }
}

/// The byte encoded by a pair of hex digits, high digit first.
pub open spec fn byte_of_digits(hi: u8, lo: u8) -> u8
    recommends
        is_hex_digit(hi),
        is_hex_digit(lo),
{
    (hex_digit_value(hi) * 16 + hex_digit_value(lo)) as u8
}

/// The hex encoding of a byte string: two lowercase digits per byte.
pub open spec fn spec_encode_hex(bytes: Seq<u8>) -> Seq<u8> {
    Seq::new(
        bytes.len() * 2,
        |i: int|
            if i % 2 == 0 {
                hex_digit_of(bytes[i / 2] / 16)
            } else {
                hex_digit_of(bytes[i / 2] % 16)
            },
    )
}

/// The byte string a hex string decodes to: defined exactly when the
/// length is even and every byte is a hex digit.
pub open spec fn spec_decode_hex(chars: Seq<u8>) -> Option<Seq<u8>> {
    if chars.len() % 2 == 0 && (forall|k: int| 0 <= k < chars.len() ==> is_hex_digit(chars[k])) {
        Some(Seq::new(chars.len() / 2, |i: int| byte_of_digits(chars[2 * i], chars[2 * i + 1])))
    } else {
        None
    }
}

/// Encoding then decoding reproduces any byte string exactly.
pub proof fn lemma_hex_round_trip(bytes: Seq<u8>)
    ensures
        spec_decode_hex(spec_encode_hex(bytes)) == Some(bytes),
{
    let enc = spec_encode_hex(bytes);
    assert(enc.len() == bytes.len() * 2);
    assert forall|k: int| 0 <= k < enc.len() implies is_hex_digit(enc[k]) by {
        let v = if k % 2 == 0 {
            bytes[k / 2] / 16
        } else {
            bytes[k / 2] % 16
        };
        assert(v < 16);
    }
    let dec = spec_decode_hex(enc)->Some_0;
    assert forall|i: int| 0 <= i < dec.len() implies dec[i] == bytes[i] by {
        let b = bytes[i];
        assert((2 * i) / 2 == i && (2 * i) % 2 == 0);
        assert((2 * i + 1) / 2 == i && (2 * i + 1) % 2 == 1);
        assert(enc[2 * i] == hex_digit_of(b / 16));
        assert(enc[2 * i + 1] == hex_digit_of(b % 16));
        assert(hex_digit_value(hex_digit_of(b / 16)) == b / 16);
        assert(hex_digit_value(hex_digit_of(b % 16)) == b % 16);
        assert((b / 16) * 16 + b % 16 == b) by {
            vstd::arithmetic::div_mod::lemma_fundamental_div_mod(b as int, 16);
        }
    }
    assert(dec =~= bytes);
}

/// Encodes a byte string as lowercase hex, two digits per byte.
pub fn encode_hex(data: &[u8]) -> (r: Vec<u8>)
    ensures
        r@ == spec_encode_hex(data@),
{
    let n: usize = data.len();
    let mut out: Vec<u8> = Vec::new();
    let mut i: usize = 0;
    while i < n
        invariant
            n == data@.len(),
            i <= n,
            out@.len() == 2 * i,
            forall|k: int| 0 <= k < out@.len() ==> out@[k] == spec_encode_hex(data@)[k],
        decreases n - i,
    {
        let b: u8 = data[i];
        let hi: u8 = b / 16;
        let lo: u8 = b % 16;
        let hi_digit: u8 = if hi < 10 {
            48 + hi
        } else {
            97 + (hi - 10)
        };
        let lo_digit: u8 = if lo < 10 {
            48 + lo
        } else {
            97 + (lo - 10)
        };
        out.push(hi_digit);
        out.push(lo_digit);
        proof {
            assert(2 * i as int % 2 == 0 && 2 * i as int / 2 == i as int);
            assert((2 * i as int + 1) % 2 == 1 && (2 * i as int + 1) / 2 == i as int);
        }
        i += 1;
    }
    proof {
        assert(out@ =~= spec_encode_hex(data@));
    }
    out
}

/// The value of one hex digit, or `None` on any other byte.
pub fn hex_value(c: u8) -> (r: Option<u8>)
    ensures
        r == (if is_hex_digit(c) {
            Some(hex_digit_value(c))
        } else {
            None::<u8>
        }),
{
    if c >= 48 && c <= 57 {
        Some(c - 48)
    } else if c >= 97 && c <= 102 {
        Some(c - 97 + 10)
    } else if c >= 65 && c <= 70 {
        Some(c - 65 + 10)
    } else {
        None
    }
}

/// Decodes a hex string, rejecting an odd length or any byte that is not
/// a hex digit with `Encoding`.
pub fn decode_hex(chars: &[u8]) -> (r: Result<Vec<u8>, Error>)
    ensures
        r matches Ok(v) ==> spec_decode_hex(chars@) == Some(v@),
        r is Err <==> spec_decode_hex(chars@) is None,
        r is Err ==> r == Err::<Vec<u8>, Error>(Error::Encoding),
{
    let n: usize = chars.len();
    if n % 2 != 0 {
        return Err(Error::Encoding);
    }
    let mut out: Vec<u8> = Vec::new();
    let mut i: usize = 0;
    while i < n
        invariant
            n == chars@.len(),
            n % 2 == 0,
            i <= n,
            i % 2 == 0,
            out@.len() == i / 2,
            forall|k: int| 0 <= k < i ==> is_hex_digit(chars@[k]),
            forall|j: int|
                0 <= j < out@.len() ==> out@[j] == byte_of_digits(
                    chars@[2 * j],
                    chars@[2 * j + 1],
                ),
        decreases n - i,
    {
        let hi: u8 = match hex_value(chars[i]) {
            Some(v) => v,
            None => {
                return Err(Error::Encoding);
            },
        };
        let lo: u8 = match hex_value(chars[i + 1]) {
            Some(v) => v,
            None => {
                return Err(Error::Encoding);
            },
        };
        out.push(hi * 16 + lo);
        i += 2;
    }
    proof {
        let dec = spec_decode_hex(chars@)->Some_0;
        assert(out@ =~= dec);
    }
    Ok(out)
}

} // verus!

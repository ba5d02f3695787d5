//! Binary-safe text encodings: standard base64 for transaction envelopes and
//! lowercase hex for transaction hashes.

use vstd::prelude::*;

verus! {

/// Base64 alphabet character for a 6-bit value, as an ASCII byte.
pub open spec fn b64_byte(v: int) -> u8 {
    if 0 <= v < 26 {
        (65 + v) as u8  // 'A'..'Z'
    } else if 26 <= v < 52 {
        (71 + v) as u8  // 'a'..'z'
    } else if 52 <= v < 62 {
        (v - 4) as u8  // '0'..'9'
    } else if v == 62 {
        43  // '+'
    } else {
        47  // '/'
    }
}

/// Standard base64 encoding with padding, as ASCII bytes.
pub open spec fn base64_bytes(b: Seq<u8>) -> Seq<u8>
    decreases b.len(),
{
    if b.len() == 0 {
        Seq::empty()
    } else if b.len() == 1 {
        let v0 = b[0] as int;
        seq![b64_byte(v0 / 4), b64_byte((v0 % 4) * 16), 61u8, 61u8]
    } else if b.len() == 2 {
        let v0 = b[0] as int;
        let v1 = b[1] as int;
        seq![b64_byte(v0 / 4), b64_byte((v0 % 4) * 16 + v1 / 16), b64_byte((v1 % 16) * 4), 61u8]
    } else {
        let v0 = b[0] as int;
        let v1 = b[1] as int;
        let v2 = b[2] as int;
        seq![
            b64_byte(v0 / 4),
            b64_byte((v0 % 4) * 16 + v1 / 16),
            b64_byte((v1 % 16) * 4 + v2 / 64),
            b64_byte(v2 % 64),
        ] + base64_bytes(b.skip(3))
    }
}

/// The base64 encoding, as characters.
pub open spec fn base64_chars(b: Seq<u8>) -> Seq<char> {
    base64_bytes(b).map_values(|x: u8| x as char)
}

/// Lowercase hex character for a 4-bit value, as an ASCII byte.
pub open spec fn hex_byte(v: int) -> u8 {
    if v < 10 {
        (48 + v) as u8  // '0'..'9'
    } else {
        (87 + v) as u8  // 'a'..'f'
    }
}

/// Lowercase hex encoding, as ASCII bytes.
pub open spec fn hex_bytes(b: Seq<u8>) -> Seq<u8>
    decreases b.len(),
{
    if b.len() == 0 {
        Seq::empty()
    } else {
        seq![hex_byte(b[0] as int / 16), hex_byte(b[0] as int % 16)] + hex_bytes(b.drop_first())
    }
}

/// The hex encoding, as characters.
pub open spec fn hex_chars(b: Seq<u8>) -> Seq<char> {
    hex_bytes(b).map_values(|x: u8| x as char)
}

/// Relies on `String::from_utf8`: ASCII bytes decode to exactly their
/// characters. Inputs are restricted to ASCII, where decoding cannot fail.
#[verifier::external_body]
fn ascii_bytes_to_string(bytes: Vec<u8>) -> (r: String)
    requires
        forall|i: int| 0 <= i < bytes@.len() ==> bytes@[i] < 128,
    ensures
        r@ == bytes@.map_values(|b: u8| b as char),
{
    match String::from_utf8(bytes) {
        Ok(s) => s,
        Err(_) => String::new(),
    }
}

/// Base64 character of a 6-bit value.
fn b64_char_of(v: u8) -> (r: u8)
    requires
        v < 64,
    ensures
        r == b64_byte(v as int),
{
    if v < 26 {
        65 + v
    } else if v < 52 {
        71 + v
    } else if v < 62 {
        v - 4
    } else if v == 62 {
        43
    } else {
        47
    }
}

/// Standard base64 encoding of a byte string.
pub fn base64_encode(data: &Vec<u8>) -> (r: String)
    ensures
        r@ == base64_chars(data@),
{
    let n = data.len();
    let mut out: Vec<u8> = Vec::new();
    let mut i: usize = 0;
    proof {
        assert(data@.skip(0) =~= data@);
    }
    while n - i >= 3
        invariant
            0 <= i <= n,
            n == data@.len(),
            i % 3 == 0,
            out@ + base64_bytes(data@.skip(i as int)) =~= base64_bytes(data@),
            forall|j: int| 0 <= j < out@.len() ==> out@[j] < 128,
        decreases n - i,
    {
        let ghost pre = out@;
        let v0 = data[i];
        let v1 = data[i + 1];
        let v2 = data[i + 2];
        proof {
            assert(data@.skip(i as int)[0] == data@[i as int]);
            assert(data@.skip(i as int)[1] == data@[i as int + 1]);
            assert(data@.skip(i as int)[2] == data@[i as int + 2]);
        }
        out.push(b64_char_of(v0 / 4));
        out.push(b64_char_of((v0 % 4) * 16 + v1 / 16));
        out.push(b64_char_of((v1 % 16) * 4 + v2 / 64));
        out.push(b64_char_of(v2 % 64));
        proof {
            assert(data@.skip(i as int).skip(3) =~= data@.skip(i as int + 3));
            assert(out@ + base64_bytes(data@.skip(i as int + 3)) =~= pre + base64_bytes(
                data@.skip(i as int),
            ));
        }
        i = i + 3;
    }
    let ghost pre = out@;
    if n - i == 1 {
        let v0 = data[i];
        proof {
            assert(data@.skip(i as int)[0] == data@[i as int]);
            assert(data@.skip(i as int).len() == 1);
        }
        out.push(b64_char_of(v0 / 4));
        out.push(b64_char_of((v0 % 4) * 16));
        out.push(61);
        out.push(61);
        proof {
            assert(out@ =~= pre + base64_bytes(data@.skip(i as int)));
        }
    } else if n - i == 2 {
        let v0 = data[i];
        let v1 = data[i + 1];
        proof {
            assert(data@.skip(i as int)[0] == data@[i as int]);
            assert(data@.skip(i as int)[1] == data@[i as int + 1]);
            assert(data@.skip(i as int).len() == 2);
        }
        out.push(b64_char_of(v0 / 4));
        out.push(b64_char_of((v0 % 4) * 16 + v1 / 16));
        out.push(b64_char_of((v1 % 16) * 4));
        out.push(61);
        proof {
            assert(out@ =~= pre + base64_bytes(data@.skip(i as int)));
        }
    } else {
        proof {
            assert(data@.skip(i as int).len() == 0);
            assert(out@ =~= pre + base64_bytes(data@.skip(i as int)));
        }
    }
    proof {
        assert(out@ =~= base64_bytes(data@));
    }
    ascii_bytes_to_string(out)
}

/// Hex character of a 4-bit value.
fn hex_char_of(v: u8) -> (r: u8)
    requires
        v < 16,
    ensures
        r == hex_byte(v as int),
{
    if v < 10 {
        48 + v
    } else {
        87 + v
    }
}

/// Lowercase hex encoding of a byte string.
pub fn hex_encode(data: &Vec<u8>) -> (r: String)
    ensures
        r@ == hex_chars(data@),
{
    let n = data.len();
    let mut out: Vec<u8> = Vec::new();
    let mut i: usize = 0;
    proof {
        assert(data@.skip(0) =~= data@);
    }
    while i < n
        invariant
            0 <= i <= n,
            n == data@.len(),
            out@ + hex_bytes(data@.skip(i as int)) =~= hex_bytes(data@),
            forall|j: int| 0 <= j < out@.len() ==> out@[j] < 128,
        decreases n - i,
    {
        let ghost pre = out@;
        let b = data[i];
        proof {
            assert(data@.skip(i as int)[0] == data@[i as int]);
        }
        out.push(hex_char_of(b / 16));
        out.push(hex_char_of(b % 16));
        proof {
            assert(data@.skip(i as int).drop_first() =~= data@.skip(i as int + 1));
            assert(out@ + hex_bytes(data@.skip(i as int + 1)) =~= pre + hex_bytes(
                data@.skip(i as int),
            ));
        }
        i = i + 1;
    }
    proof {
        assert(data@.skip(n as int).len() == 0);
        assert(out@ =~= hex_bytes(data@));
    }
    ascii_bytes_to_string(out)
}

} // verus!

//! Strkey decoding: the text form of ledger keys. A strkey is 56 base-32
//! characters carrying 35 bytes — a version byte, a 32-byte payload, and a
//! little-endian CRC-16 checksum over the first 33 bytes.

use vstd::prelude::*;

verus! {

/// Version byte of an account public key (the 'G' prefix).
pub const VERSION_ACCOUNT: u8 = 48;

/// Version byte of a secret seed (the 'S' prefix).
pub const VERSION_SEED: u8 = 144;

/// Base-32 value of a strkey alphabet character, or -1 outside the alphabet.
pub open spec fn b32_val(c: char) -> int {
    if 'A' <= c && c <= 'Z' {
        c as int - 65
    } else if '2' <= c && c <= '7' {
        c as int - 24
    } else {
        -1
    }
}

/// Every character is in the strkey base-32 alphabet.
pub open spec fn valid_b32_str(s: Seq<char>) -> bool {
    forall|i: int| 0 <= i < s.len() ==> b32_val(#[trigger] s[i]) >= 0
}

/// The 40-bit value of the `g`-th block of eight characters.
pub open spec fn b32_group_num(s: Seq<char>, g: int) -> int {
    ((((((b32_val(s[8 * g]) * 32 + b32_val(s[8 * g + 1])) * 32 + b32_val(s[8 * g + 2])) * 32
        + b32_val(s[8 * g + 3])) * 32 + b32_val(s[8 * g + 4])) * 32 + b32_val(s[8 * g + 5])) * 32
        + b32_val(s[8 * g + 6])) * 32 + b32_val(s[8 * g + 7])
}

/// Byte `i` of the decoded 35-byte value of a 56-character strkey string.
pub open spec fn strkey_byte(s: Seq<char>, i: int) -> int {
    let n = b32_group_num(s, i / 5);
    if i % 5 == 0 {
        n / 0x100000000 % 256
    } else if i % 5 == 1 {
        n / 0x1000000 % 256
    } else if i % 5 == 2 {
        n / 0x10000 % 256
    } else if i % 5 == 3 {
        n / 0x100 % 256
    } else {
        n % 256
    }
}

/// The decoded 35 bytes of a 56-character strkey string.
pub open spec fn strkey_decoded(s: Seq<char>) -> Seq<u8> {
    Seq::new(35, |i: int| strkey_byte(s, i) as u8)
}

/// One shift step of CRC-16/XMODEM (polynomial 0x1021).
pub open spec fn crc16_shift(c: u16) -> u16 {
    if c & 0x8000 != 0 {
        (c << 1) ^ 0x1021
    } else {
        c << 1
    }
}

/// `n` shift steps.
pub open spec fn crc16_shifts(c: u16, n: nat) -> u16
    decreases n,
{
    if n == 0 {
        c
    } else {
        crc16_shifts(crc16_shift(c), (n - 1) as nat)
    }
}

/// Folding one byte into the running CRC.
pub open spec fn crc16_byte_step(c: u16, b: u8) -> u16 {
    crc16_shifts(c ^ ((b as u16) << 8), 8)
}

/// CRC-16/XMODEM of a byte string, with initial value zero.
pub open spec fn crc16(data: Seq<u8>) -> u16
    decreases data.len(),
{
    if data.len() == 0 {
        0
    } else {
        crc16_byte_step(crc16(data.drop_last()), data.last())
    }
}

/// A well-formed strkey string of the given version: 56 alphabet characters
/// whose decoded version byte and checksum both check out.
pub open spec fn well_formed_strkey(s: Seq<char>, version: u8) -> bool {
    &&& s.len() == 56
    &&& valid_b32_str(s)
    &&& strkey_decoded(s)[0] == version
    &&& crc16(strkey_decoded(s).subrange(0, 33)) == (strkey_decoded(s)[33] as int + strkey_decoded(
        s,
    )[34] as int * 256)
}

/// The 32-byte payload carried by a strkey string.
pub open spec fn strkey_payload(s: Seq<char>) -> Seq<u8> {
    strkey_decoded(s).subrange(1, 33)
}

/// Base-32 value of one character, if it is in the alphabet.
fn char_b32(c: char) -> (r: Option<u8>)
    ensures
        r is Some <==> b32_val(c) >= 0,
        r is Some ==> r->0 as int == b32_val(c) && r->0 < 32,
{
    let v = c as u32;
    if 65 <= v && v <= 90 {
        Some((v - 65) as u8)
    } else if 50 <= v && v <= 55 {
        Some((v - 24) as u8)
    } else {
        None
    }
}

/// Decodes the 56 characters into 35 bytes, or reports a character outside
/// the alphabet.
fn decode_base32_56(s: &str) -> (r: Option<Vec<u8>>)
    requires
        s@.len() == 56,
    ensures
        r is Some <==> valid_b32_str(s@),
        r is Some ==> r->0@ == strkey_decoded(s@),
{
    let mut out: Vec<u8> = Vec::new();
    let mut g: usize = 0;
    while g < 7
        invariant
            0 <= g <= 7,
            s@.len() == 56,
            out@.len() == 5 * g,
            forall|i: int| 0 <= i < 8 * g ==> b32_val(#[trigger] s@[i]) >= 0,
            forall|i: int|
                0 <= i < 5 * g ==> out@[i] == strkey_byte(s@, i) as u8,
        decreases 7 - g,
    {
        let mut vals: [u64; 8] = [0; 8];
        let mut k: usize = 0;
        while k < 8
            invariant
                0 <= k <= 8,
                g < 7,
                s@.len() == 56,
                forall|j: int|
                    0 <= j < k ==> b32_val(#[trigger] s@[8 * g + j]) >= 0,
                forall|j: int|
                    0 <= j < k ==> #[trigger] vals@[j] == b32_val(s@[8 * g + j]) && vals@[j]
                        < 32,
            decreases 8 - k,
        {
            let c = s.get_char(8 * g + k);
            match char_b32(c) {
                Option::Some(v) => {
                    vals[k] = v as u64;
                },
                Option::None => {
                    return None;
                },
            }
            k = k + 1;
        }
        let n: u64 = ((((((vals[0] * 32 + vals[1]) * 32 + vals[2]) * 32 + vals[3]) * 32 + vals[4])
            * 32 + vals[5]) * 32 + vals[6]) * 32 + vals[7];
        proof {
            assert(n as int == b32_group_num(s@, g as int));
        }
        let b0 = (n / 0x100000000 % 256) as u8;
        let b1 = (n / 0x1000000 % 256) as u8;
        let b2 = (n / 0x10000 % 256) as u8;
        let b3 = (n / 0x100 % 256) as u8;
        let b4 = (n % 256) as u8;
        out.push(b0);
        out.push(b1);
        out.push(b2);
        out.push(b3);
        out.push(b4);
        proof {
            let gi = g as int;
            lemma_block_index(5 * gi, gi, 0);
            lemma_block_index(5 * gi + 1, gi, 1);
            lemma_block_index(5 * gi + 2, gi, 2);
            lemma_block_index(5 * gi + 3, gi, 3);
            lemma_block_index(5 * gi + 4, gi, 4);
        }
        g = g + 1;
    }
    proof {
        assert(out@ =~= strkey_decoded(s@));
        assert forall|i: int| 0 <= i < 56 implies b32_val(#[trigger] s@[i]) >= 0 by {}
    }
    Some(out)
}

/// CRC-16/XMODEM over `data[from..to]`.
fn crc16_range(data: &Vec<u8>, from: usize, to: usize) -> (r: u16)
    requires
        from <= to <= data@.len(),
    ensures
        r == crc16(data@.subrange(from as int, to as int)),
{
    let ghost sub = data@.subrange(from as int, to as int);
    let mut crc: u16 = 0;
    let mut i: usize = from;
    while i < to
        invariant
            from <= i <= to <= data@.len(),
            sub == data@.subrange(from as int, to as int),
            crc == crc16(sub.take(i - from)),
        decreases to - i,
    {
        let b = data[i];
        proof {
            assert(sub[i - from] == data@[i as int]);
            assert(sub.take(i - from + 1).drop_last() =~= sub.take(i - from));
            assert(sub.take(i - from + 1).last() == sub[i - from]);
        }
        let mut cur: u16 = crc ^ ((b as u16) << 8);
        let mut k: usize = 0;
        while k < 8
            invariant
                0 <= k <= 8,
                cur == crc16_shifts(crc ^ ((b as u16) << 8), k as nat),
            decreases 8 - k,
        {
            proof {
                lemma_crc16_shifts_snoc(crc ^ ((b as u16) << 8), k as nat);
            }
            cur = if cur & 0x8000 != 0 {
                (cur << 1) ^ 0x1021
            } else {
                cur << 1
            };
            k = k + 1;
        }
        crc = cur;
        i = i + 1;
    }
    proof {
        assert(sub.take(to - from) =~= sub);
    }
    crc
}

/// Position `x == 5q + t` with `0 <= t < 5` sits in block `q` at offset `t`.
proof fn lemma_block_index(x: int, q: int, t: int)
    requires
        x == 5 * q + t,
        0 <= t < 5,
        0 <= q,
    ensures
        x / 5 == q,
        x % 5 == t,
{
    vstd::arithmetic::div_mod::lemma_fundamental_div_mod_converse_div(x, 5, q, t);
    vstd::arithmetic::div_mod::lemma_fundamental_div_mod_converse_mod(x, 5, q, t);
}

/// Unfolding the shift recursion one step at the tail.
proof fn lemma_crc16_shifts_snoc(c: u16, n: nat)
    ensures
        crc16_shifts(c, n + 1) == crc16_shift(crc16_shifts(c, n)),
    decreases n,
{
    if n == 0 {
        assert(crc16_shifts(c, 1) == crc16_shifts(crc16_shift(c), 0));
    } else {
        lemma_crc16_shifts_snoc(crc16_shift(c), (n - 1) as nat);
        assert(crc16_shifts(c, n + 1) == crc16_shifts(crc16_shift(c), n));
        assert(crc16_shifts(c, n) == crc16_shifts(crc16_shift(c), (n - 1) as nat));
    }
}

/// Decodes a strkey string of the given version and returns its 32-byte
/// payload, or nothing when the string is not a well-formed strkey of that
/// version (wrong length, character outside the alphabet, wrong version
/// byte, or checksum mismatch).
pub fn decode_strkey(s: &str, version: u8) -> (r: Option<Vec<u8>>)
    ensures
        r is Some <==> well_formed_strkey(s@, version),
        r is Some ==> r->0@ == strkey_payload(s@) && r->0@.len() == 32,
{
    if s.unicode_len() != 56 {
        return None;
    }
    let bytes = match decode_base32_56(s) {
        Option::Some(b) => b,
        Option::None => {
            return None;
        },
    };
    if bytes[0] != version {
        return None;
    }
    let crc = crc16_range(&bytes, 0, 33);
    let expected: u16 = bytes[33] as u16 + bytes[34] as u16 * 256;
    if crc != expected {
        return None;
    }
    let mut payload: Vec<u8> = Vec::new();
    let mut i: usize = 1;
    while i < 33
        invariant
            1 <= i <= 33,
            bytes@.len() == 35,
            payload@ =~= bytes@.subrange(1, i as int),
        decreases 33 - i,
    {
        payload.push(bytes[i]);
        proof {
            assert(bytes@.subrange(1, i as int + 1) =~= bytes@.subrange(1, i as int) + seq![
                bytes@[i as int],
            ]);
        }
        i = i + 1;
    }
    Some(payload)
}

} // verus!

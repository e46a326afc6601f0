//! Deterministic 16-byte storage-isolation token derived from a server id.
//!
//! The platform's storage-isolation layer takes a 16-byte value. It is
//! obtained by stripping the `-` separators from the server id and reading
//! the rest as hexadecimal, two digits per byte; any byte whose two digits
//! are missing or not hexadecimal is filled with zero.

use vstd::prelude::*;
use vstd::string::StrSliceExecFns;

verus! {

/// True when `c` is an ASCII hexadecimal digit.
pub open spec fn is_hex_digit(c: char) -> bool {
    ('0' <= c && c <= '9') || ('a' <= c && c <= 'f') || ('A' <= c && c <= 'F')
}

/// Numeric value of an ASCII hexadecimal digit; 0 for any other character.
pub open spec fn hex_digit_value(c: char) -> u8 {
    if '0' <= c && c <= '9' {
        ((c as int) - 48) as u8
    } else if 'a' <= c && c <= 'f' {
        ((c as int) - 87) as u8
    } else if 'A' <= c && c <= 'F' {
        ((c as int) - 55) as u8
    } else {
        0
    }
}

/// The server id with every `-` separator removed.
pub open spec fn strip_separators(s: Seq<char>) -> Seq<char> {
    s.filter(|c: char| c != '-')
}

/// Byte `i` of the isolation token: the value of the hexadecimal digit pair
/// at positions `2*i` and `2*i + 1` of `h`, or 0 when the pair is incomplete
/// or not hexadecimal.
pub open spec fn hex_pair_value(h: Seq<char>, i: int) -> u8 {
    if 0 <= i && 2 * i + 2 <= h.len() && is_hex_digit(h[2 * i]) && is_hex_digit(h[2 * i + 1]) {
        (hex_digit_value(h[2 * i]) * 16 + hex_digit_value(h[2 * i + 1])) as u8
    } else {
        0
    }
}

/// The full 16-byte isolation token of a server id.
pub open spec fn isolation_token(s: Seq<char>) -> Seq<u8> {
    Seq::new(16, |i: int| hex_pair_value(strip_separators(s), i))
}

/// Exec mirror of `is_hex_digit`.
fn hex_digit_check(c: char) -> (r: bool)
    ensures
        r == is_hex_digit(c),
{
    ('0' <= c && c <= '9') || ('a' <= c && c <= 'f') || ('A' <= c && c <= 'F')
}

/// Exec mirror of `hex_digit_value`.
fn hex_digit_val(c: char) -> (r: u8)
    ensures
        r == hex_digit_value(c),
{
    if '0' <= c && c <= '9' {
        (c as u32 - 48) as u8
    } else if 'a' <= c && c <= 'f' {
        (c as u32 - 87) as u8
    } else if 'A' <= c && c <= 'F' {
        (c as u32 - 55) as u8
    } else {
        0
    }
}

/// Derive the 16-byte storage-isolation token for `uuid_str`: strip the `-`
/// separators and parse the remainder as hexadecimal, zero-filling any byte
/// whose digit pair is missing or unparsable.
pub fn uuid_to_bytes(uuid_str: &str) -> (bytes: [u8; 16])
    ensures
        bytes@ == isolation_token(uuid_str@),
{
    let n = uuid_str.unicode_len();
    let mut hex: Vec<char> = Vec::new();
    let mut j: usize = 0;
    while j < n
        invariant
            n == uuid_str@.len(),
            j <= n,
            hex@ == uuid_str@.subrange(0, j as int).filter(|c: char| c != '-'),
        decreases n - j,
    {
        let c = uuid_str.get_char(j);
        proof {
            reveal(Seq::filter);
            assert(uuid_str@.subrange(0, j as int + 1).drop_last() =~= uuid_str@.subrange(
                0,
                j as int,
            ));
            assert(uuid_str@.subrange(0, j as int + 1).last() == c);
        }
        if c != '-' {
            hex.push(c);
        }
        j += 1;
    }
    proof {
        assert(uuid_str@.subrange(0, n as int) =~= uuid_str@);
    }

    let mut bytes: [u8; 16] = [0u8; 16];
    let mut i: usize = 0;
    while i < 16
        invariant
            i <= 16,
            hex@ == strip_separators(uuid_str@),
            forall|k: int| 0 <= k < i ==> bytes@[k] == hex_pair_value(hex@, k),
            forall|k: int| i <= k < 16 ==> bytes@[k] == 0,
        decreases 16 - i,
    {
        if 2 * i + 2 <= hex.len() {
            let h = hex[2 * i];
            let l = hex[2 * i + 1];
            if hex_digit_check(h) && hex_digit_check(l) {
                bytes[i] = hex_digit_val(h) * 16 + hex_digit_val(l);
            }
        }
        i += 1;
    }
    proof {
        assert(bytes@ =~= isolation_token(uuid_str@));
    }
    bytes
}

} // verus!

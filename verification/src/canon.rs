//! Canonical serialization of the fields an attestation signature covers.
//!
//! The signature of every attestation is computed over one fixed rendering of
//! the record's identifying fields: a JSON object whose members stand in a
//! fixed order (`nonce`, `timestamp_utc`, `wallet_pubkey`, `hold_duration_ms`,
//! `asset`, `biometric_proof`). String members are escaped as JSON demands:
//! `"` and `\` get a backslash, and control characters become `\u00XX`.

use vstd::prelude::*;
use vstd::string::StrSliceExecFns;
use vstd::string::StringExecFns;

verus! {

/// Relies on `String::push`: appends exactly the given character.
pub assume_specification[ String::push ](s: &mut String, c: char)
    ensures
        final(s)@ == old(s)@.push(c),
;

/// The character for one decimal digit value.
pub open spec fn dec_digit(d: int) -> char
    recommends
        0 <= d < 10,
{
    if d == 0 {
        '0'
    } else if d == 1 {
        '1'
    } else if d == 2 {
        '2'
    } else if d == 3 {
        '3'
    } else if d == 4 {
        '4'
    } else if d == 5 {
        '5'
    } else if d == 6 {
        '6'
    } else if d == 7 {
        '7'
    } else if d == 8 {
        '8'
    } else {
        '9'
    }
}

/// The character for one hexadecimal digit value, lower case.
pub open spec fn hex_digit(d: int) -> char
    recommends
        0 <= d < 16,
{
    if d < 10 {
        dec_digit(d)
    } else if d == 10 {
        'a'
    } else if d == 11 {
        'b'
    } else if d == 12 {
        'c'
    } else if d == 13 {
        'd'
    } else if d == 14 {
        'e'
    } else {
        'f'
    }
}

/// The decimal rendering of a non-negative integer, without leading zeros
/// (a single zero for the value zero).
pub open spec fn dec_of(n: int) -> Seq<char>
    recommends
        n >= 0,
    decreases n,
{
    if n <= 9 {
        seq![dec_digit(n)]
    } else {
        dec_of(n / 10).push(dec_digit(n % 10))
    }
}

/// The JSON escape of one character inside a string member.
pub open spec fn esc_char(c: char) -> Seq<char> {
    if c == '"' {
        seq!['\\', '"']
    } else if c == '\\' {
        seq!['\\', '\\']
    } else if (c as int) < 0x20 {
        seq!['\\', 'u', '0', '0', hex_digit(c as int / 16), hex_digit(c as int % 16)]
    } else {
        seq![c]
    }
}

/// The JSON escape of a whole string, character by character.
pub open spec fn esc_str(s: Seq<char>) -> Seq<char>
    decreases s.len(),
{
    if s.len() == 0 {
        Seq::empty()
    } else {
        esc_str(s.drop_last()) + esc_char(s.last())
    }
}

/// The character for one decimal digit value.
pub fn digit_char(d: u64) -> (c: char)
    requires
        d < 10,
    ensures
        c == dec_digit(d as int),
{
    if d == 0 {
        '0'
    } else if d == 1 {
        '1'
    } else if d == 2 {
        '2'
    } else if d == 3 {
        '3'
    } else if d == 4 {
        '4'
    } else if d == 5 {
        '5'
    } else if d == 6 {
        '6'
    } else if d == 7 {
        '7'
    } else if d == 8 {
        '8'
    } else {
        '9'
    }
}

/// The character for one hexadecimal digit value, lower case.
pub fn hex_char(d: u8) -> (c: char)
    requires
        d < 16,
    ensures
        c == hex_digit(d as int),
{
    if d < 10 {
        digit_char(d as u64)
    } else if d == 10 {
        'a'
    } else if d == 11 {
        'b'
    } else if d == 12 {
        'c'
    } else if d == 13 {
        'd'
    } else if d == 14 {
        'e'
    } else {
        'f'
    }
}

/// Appends the decimal rendering of `n` to `out`.
pub fn push_decimal(out: &mut String, n: u64)
    ensures
        final(out)@ == old(out)@ + dec_of(n as int),
    decreases n,
{
    if n > 9 {
        push_decimal(out, n / 10);
        out.push(digit_char(n % 10));
        assert(final(out)@ =~= old(out)@ + dec_of(n as int));
    } else {
        out.push(digit_char(n));
        assert(final(out)@ =~= old(out)@ + dec_of(n as int));
    }
}

/// Appends the JSON escape of `s` to `out`.
pub fn push_json_escaped(out: &mut String, s: &str)
    ensures
        final(out)@ == old(out)@ + esc_str(s@),
{
    let n = s.unicode_len();
    let mut i: usize = 0;
    while i < n
        invariant
            n == s@.len(),
            i <= n,
            out@ == old(out)@ + esc_str(s@.take(i as int)),
        decreases n - i,
    {
        let c = s.get_char(i);
        if c == '"' {
            out.push('\\');
            out.push('"');
        } else if c == '\\' {
            out.push('\\');
            out.push('\\');
        } else if (c as u32) < 0x20 {
            let code = c as u32;
            out.push('\\');
            out.push('u');
            out.push('0');
            out.push('0');
            out.push(hex_char((code / 16) as u8));
            out.push(hex_char((code % 16) as u8));
        } else {
            out.push(c);
        }
        proof {
            assert(s@.take(i + 1).drop_last() =~= s@.take(i as int));
            assert(s@.take(i + 1).last() == s@[i as int]);
            assert(out@ =~= old(out)@ + esc_str(s@.take(i + 1)));
        }
        i = i + 1;
    }
    proof {
        assert(s@.take(n as int) =~= s@);
    }
}

/// The canonical message covered by an attestation's signature.
pub open spec fn canon_msg(
    nonce: Seq<char>,
    timestamp_utc: u64,
    wallet_pubkey: Seq<char>,
    hold_duration_ms: u64,
    asset: Seq<char>,
    biometric_proof: Seq<char>,
) -> Seq<char> {
    "{\"nonce\":\""@ + esc_str(nonce) + "\",\"timestamp_utc\":"@ + dec_of(timestamp_utc as int)
        + ",\"wallet_pubkey\":\""@ + esc_str(wallet_pubkey) + "\",\"hold_duration_ms\":"@ + dec_of(
        hold_duration_ms as int,
    ) + ",\"asset\":\""@ + esc_str(asset) + "\",\"biometric_proof\":\""@ + esc_str(biometric_proof)
        + "\"}"@
}

/// Builds the canonical message for the given field values.
pub fn canonical_message(
    nonce: &str,
    timestamp_utc: u64,
    wallet_pubkey: &str,
    hold_duration_ms: u64,
    asset: &str,
    biometric_proof: &str,
) -> (r: String)
    ensures
        r@ == canon_msg(nonce@, timestamp_utc, wallet_pubkey@, hold_duration_ms, asset@, biometric_proof@),
{
    let mut out = String::new();
    out.append("{\"nonce\":\"");
    push_json_escaped(&mut out, nonce);
    out.append("\",\"timestamp_utc\":");
    push_decimal(&mut out, timestamp_utc);
    out.append(",\"wallet_pubkey\":\"");
    push_json_escaped(&mut out, wallet_pubkey);
    out.append("\",\"hold_duration_ms\":");
    push_decimal(&mut out, hold_duration_ms);
    out.append(",\"asset\":\"");
    push_json_escaped(&mut out, asset);
    out.append("\",\"biometric_proof\":\"");
    push_json_escaped(&mut out, biometric_proof);
    out.append("\"}");
    out
}

} // verus!

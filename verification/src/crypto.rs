//! Hex encoding, the signing primitive, and nonce generation.
//!
//! The session signs attestations with a locally-held signing key: this
//! attests deliberate intent on the device, a weaker trust class than a
//! signature by the user's own linked identity key. The calls into the
//! signature and encoding crates stand behind trusted wrappers; everything
//! around them is verified.

use vstd::prelude::*;
use vstd::string::StrSliceExecFns;
use ed25519_dalek::Signer;
use ed25519_dalek::Verifier;

use crate::canon::hex_digit;

verus! {

/// The lower-case hex rendering of a byte sequence: two digits per byte,
/// in input order.
pub open spec fn hex_of(s: Seq<u8>) -> Seq<char>
    decreases s.len(),
{
    if s.len() == 0 {
        Seq::empty()
    } else {
        hex_of(s.drop_last()) + seq![
            hex_digit(s.last() as int / 16),
            hex_digit(s.last() as int % 16),
        ]
    }
}

pub proof fn lemma_hex_of_len(s: Seq<u8>)
    ensures
        hex_of(s).len() == 2 * s.len(),
    decreases s.len(),
{
    if s.len() > 0 {
        lemma_hex_of_len(s.drop_last());
    }
}

/// A character that the lower-case hex alphabet uses.
pub open spec fn is_lower_hex_char(c: char) -> bool {
    (48 <= c as int && c as int <= 57) || (97 <= c as int && c as int <= 102)
}

/// A string shaped like a lower-case hex rendering: even length, hex
/// characters throughout.
pub open spec fn is_lower_hex(s: Seq<char>) -> bool {
    &&& s.len() % 2 == 0
    &&& forall|i: int| 0 <= i < s.len() ==> is_lower_hex_char(#[trigger] s[i])
}

pub proof fn lemma_hex_of_is_lower_hex(s: Seq<u8>)
    ensures
        is_lower_hex(hex_of(s)),
    decreases s.len(),
{
    lemma_hex_of_len(s);
    if s.len() > 0 {
        lemma_hex_of_is_lower_hex(s.drop_last());
        lemma_hex_of_len(s.drop_last());
        assert forall|i: int| 0 <= i < hex_of(s).len() implies is_lower_hex_char(
            #[trigger] hex_of(s)[i],
        ) by {
            if i < hex_of(s.drop_last()).len() {
                assert(hex_of(s)[i] == hex_of(s.drop_last())[i]);
            }
        }
    }
}

proof fn lemma_hex_digit_injective(a: int, b: int)
    requires
        0 <= a < 16,
        0 <= b < 16,
        hex_digit(a) == hex_digit(b),
    ensures
        a == b,
{
}

/// Two byte sequences with the same hex rendering are the same sequence.
pub proof fn lemma_hex_of_injective(a: Seq<u8>, b: Seq<u8>)
    requires
        hex_of(a) == hex_of(b),
    ensures
        a == b,
    decreases a.len(),
{
    lemma_hex_of_len(a);
    lemma_hex_of_len(b);
    if a.len() == 0 {
        assert(a =~= b);
    } else {
        let n = a.len() as int;
        lemma_hex_of_len(a.drop_last());
        lemma_hex_of_len(b.drop_last());
        assert(hex_of(a)[2 * n - 2] == hex_digit(a.last() as int / 16));
        assert(hex_of(a)[2 * n - 1] == hex_digit(a.last() as int % 16));
        assert(hex_of(b)[2 * n - 2] == hex_digit(b.last() as int / 16));
        assert(hex_of(b)[2 * n - 1] == hex_digit(b.last() as int % 16));
        lemma_hex_digit_injective(a.last() as int / 16, b.last() as int / 16);
        lemma_hex_digit_injective(a.last() as int % 16, b.last() as int % 16);
        assert(a.last() == b.last());
        assert(hex_of(a.drop_last()) =~= hex_of(a).subrange(0, 2 * n - 2));
        assert(hex_of(b.drop_last()) =~= hex_of(b).subrange(0, 2 * n - 2));
        lemma_hex_of_injective(a.drop_last(), b.drop_last());
        assert(a =~= a.drop_last().push(a.last()));
        assert(b =~= b.drop_last().push(b.last()));
    }
}

/// Whether a string is a lower-case hex rendering of even length.
pub fn check_lower_hex(s: &str) -> (r: bool)
    ensures
        r == is_lower_hex(s@),
{
    let n = s.unicode_len();
    if n % 2 != 0 {
        return false;
    }
    let mut i: usize = 0;
    while i < n
        invariant
            n == s@.len(),
            n % 2 == 0,
            i <= n,
            forall|j: int| 0 <= j < i ==> is_lower_hex_char(#[trigger] s@[j]),
        decreases n - i,
    {
        let c = s.get_char(i);
        let u = c as u32;
        if !((48 <= u && u <= 57) || (97 <= u && u <= 102)) {
            return false;
        }
        i = i + 1;
    }
    true
}

/// Relies on `hex::encode`: lower-case, two digits for each input byte, in
/// input order.
#[verifier::external_body]
pub(crate) fn hex_encode(b: &[u8]) -> (r: String)
    ensures
        r@ == hex_of(b@),
{
    hex::encode(b)
}

/// Relies on `hex::decode`: a lower-case hex string of even length decodes
/// without error, to exactly the bytes whose hex rendering it is.
#[verifier::external_body]
pub(crate) fn hex_decode(s: &str) -> (r: Vec<u8>)
    requires
        is_lower_hex(s@),
    ensures
        hex_of(r@) == s@,
{
    hex::decode(s).unwrap()
}

/// What the signature scheme produces for a 32-byte secret key and a message:
/// deterministic, so a function of its arguments alone.
pub uninterp spec fn ed25519_sig_of(seed: Seq<u8>, msg: Seq<char>) -> Seq<u8>;

/// Relies on `ed25519_dalek::SigningKey::sign`: deterministic for a given
/// secret key and message, and 64 bytes long.
#[verifier::external_body]
pub(crate) fn ed25519_sign(seed: &[u8; 32], msg: &str) -> (r: Vec<u8>)
    ensures
        r@ == ed25519_sig_of(seed@, msg@),
        r@.len() == 64,
{
    let key = ed25519_dalek::SigningKey::from_bytes(seed);
    key.sign(msg.as_bytes()).to_bytes().to_vec()
}

/// Relies on `ed25519_dalek::VerifyingKey::verify`: a signature that
/// `SigningKey::sign` produced under the same secret key and message is
/// accepted.
#[verifier::external_body]
pub(crate) fn ed25519_verify(seed: &[u8; 32], msg: &str, sig: &[u8]) -> (r: bool)
    ensures
        sig@ == ed25519_sig_of(seed@, msg@) ==> r,
{
    let key = ed25519_dalek::SigningKey::from_bytes(seed);
    match ed25519_dalek::Signature::from_slice(sig) {
        Ok(parsed) => key.verifying_key().verify(msg.as_bytes(), &parsed).is_ok(),
        Err(_) => false,
    }
}

/// Relies on `uuid::Uuid::new_v4` and its display form: a random version-4
/// identifier, rendered as the 36-character hyphenated string. The value is
/// random: nothing relates two calls, and the session checks freshness
/// against its audit log before it uses one.
#[verifier::external_body]
pub(crate) fn fresh_nonce() -> (r: String)
    ensures
        r@.len() == 36,
{
    uuid::Uuid::new_v4().to_string()
}

} // verus!

//! The immutable attestation record and its mathematical view.

use vstd::prelude::*;

use crate::canon::{canon_msg, canonical_message};
use crate::crypto::{ed25519_sig_of, hex_of};

verus! {

/// A signed record asserting that every authorization vector was satisfied
/// for one action. Immutable once constructed; the session's audit log holds
/// them in the order they were produced.
#[derive(Clone, Debug)]
pub struct IntentAttestation {
    /// Ticker symbol of the instrument the intent concerns.
    pub asset_symbol: String,
    /// Opaque public identifier of the linked signing identity.
    pub wallet_pubkey: String,
    /// Token left by the second-factor verification step.
    pub biometric_proof: String,
    /// Nominal configured duration of a full hold, in milliseconds — not a
    /// measured wall-clock time of the gesture.
    pub hold_duration_ms: u64,
    /// Auxiliary randomness tag; not part of any security argument.
    pub entropy_hash: String,
    /// Unique per-attestation token that prevents replay of the record.
    pub nonce: String,
    /// Seconds since the epoch at signing time.
    pub timestamp_utc: u64,
    /// Hex-encoded signature over the canonical message.
    pub signature: String,
}

/// The mathematical content of an attestation record.
#[verifier::ext_equal]
pub ghost struct AttRecord {
    pub asset_symbol: Seq<char>,
    pub wallet_pubkey: Seq<char>,
    pub biometric_proof: Seq<char>,
    pub hold_duration_ms: u64,
    pub entropy_hash: Seq<char>,
    pub nonce: Seq<char>,
    pub timestamp_utc: u64,
    pub signature: Seq<char>,
}

impl View for IntentAttestation {
    type V = AttRecord;

    open spec fn view(&self) -> AttRecord {
        AttRecord {
            asset_symbol: self.asset_symbol@,
            wallet_pubkey: self.wallet_pubkey@,
            biometric_proof: self.biometric_proof@,
            hold_duration_ms: self.hold_duration_ms,
            entropy_hash: self.entropy_hash@,
            nonce: self.nonce@,
            timestamp_utc: self.timestamp_utc,
            signature: self.signature@,
        }
    }
}

/// The canonical message that a record's signature covers: its identifying
/// fields in the fixed canonical order.
pub open spec fn canon_of(r: AttRecord) -> Seq<char> {
    canon_msg(
        r.nonce,
        r.timestamp_utc,
        r.wallet_pubkey,
        r.hold_duration_ms,
        r.asset_symbol,
        r.biometric_proof,
    )
}

/// A record carries the signature that the session's key produces over its
/// own canonical message, rendered in hex.
pub open spec fn entry_signed(seed: Seq<u8>, r: AttRecord) -> bool {
    r.signature == hex_of(ed25519_sig_of(seed, canon_of(r)))
}

impl IntentAttestation {
    /// Re-serializes the record's canonical fields.
    pub fn canonical_fields(&self) -> (r: String)
        ensures
            r@ == canon_of(self@),
    {
        canonical_message(
            self.nonce.as_str(),
            self.timestamp_utc,
            self.wallet_pubkey.as_str(),
            self.hold_duration_ms,
            self.asset_symbol.as_str(),
            self.biometric_proof.as_str(),
        )
    }
}

} // verus!

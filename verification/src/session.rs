//! The executable session state and its operations.
//!
//! All session-scoped data lives in one explicit struct, and every mutation
//! goes through a typed operation whose contract equates it with one `step`
//! of the abstract machine in `model`. The surrounding program owns the event
//! loop: it performs the outside work — the provider round-trips, the tick
//! timing, the clock — and hands the session plain values.

use vstd::prelude::*;

use crate::HOLD_DURATION_MS;
use crate::asset::{Asset, HoldKind};
use crate::attestation::{AttRecord, IntentAttestation, canon_of, entry_signed};
use crate::canon::canonical_message;
use crate::crypto::{
    check_lower_hex, ed25519_sig_of, ed25519_sign, ed25519_verify, fresh_nonce, hex_decode,
    hex_encode, lemma_hex_of_injective, lemma_hex_of_is_lower_hex,
};
use crate::errors::AttestError;
use crate::model::{
    AbstractSession, Event, init, lemma_step_preserves_wf, nonce_fresh, step, wf,
};

verus! {

/// The view of an audit log: each record's mathematical content, in order.
pub open spec fn log_view(log: Seq<IntentAttestation>) -> Seq<AttRecord> {
    log.map_values(|a: IntentAttestation| a@)
}

/// All reactive state of one attestation session. A session has a single
/// owner — the running user-interface instance — and is destroyed with it.
pub struct SessionState {
    /// Possession vector: an external signing identity is linked.
    pub identity_linked: bool,
    /// Opaque public identifier of the linked identity.
    pub identity_handle: String,
    /// Identity vector: the second-factor step reported success.
    pub verified: bool,
    /// Intent vector: a reveal hold ran to completion.
    pub revealed: bool,
    /// A produced attestation is outstanding (displayed).
    pub attested: bool,
    /// The currently selected instrument.
    pub asset: Asset,
    /// Progress of the reveal hold, in ticks out of 100.
    pub reveal_progress: u8,
    /// Progress of the sign hold, in ticks out of 100.
    pub sign_progress: u8,
    /// A reveal ramp is in flight.
    pub holding_reveal: bool,
    /// A sign ramp is in flight.
    pub holding_sign: bool,
    /// The most recent recoverable failure, for display.
    pub last_error: Option<AttestError>,
    /// The locally-held signing key's secret bytes, fixed at creation. A
    /// signature by this key attests device intent — a distinct, weaker trust
    /// class than a signature by the linked identity's own key.
    pub signing_seed: [u8; 32],
    /// The audit log: append-only, insertion order is chronological.
    pub audit_log: Vec<IntentAttestation>,
}

impl View for SessionState {
    type V = AbstractSession;

    open spec fn view(&self) -> AbstractSession {
        AbstractSession {
            identity_linked: self.identity_linked,
            identity_handle: self.identity_handle@,
            verified: self.verified,
            revealed: self.revealed,
            attested: self.attested,
            asset: self.asset,
            reveal_progress: self.reveal_progress as int,
            sign_progress: self.sign_progress as int,
            holding_reveal: self.holding_reveal,
            holding_sign: self.holding_sign,
            last_error: self.last_error,
            signing_seed: self.signing_seed@,
            log: log_view(self.audit_log@),
        }
    }
}

/// Whether no entry of the log carries this nonce yet.
fn nonce_is_fresh(log: &Vec<IntentAttestation>, nonce: &String) -> (r: bool)
    ensures
        r == nonce_fresh(log_view(log@), nonce@),
{
    let mut i: usize = 0;
    while i < log.len()
        invariant
            i <= log@.len(),
            forall|j: int| 0 <= j < i ==> (#[trigger] log@[j])@.nonce != nonce@,
        decreases log@.len() - i,
    {
        if log[i].nonce == *nonce {
            proof {
                assert(log_view(log@)[i as int].nonce == nonce@);
            }
            return false;
        }
        i = i + 1;
    }
    proof {
        assert forall|j: int| 0 <= j < log_view(log@).len() implies (#[trigger] log_view(
            log@,
        )[j]).nonce != nonce@ by {
            assert(log_view(log@)[j] == log@[j]@);
        }
    }
    true
}

impl SessionState {
    /// A fresh session for the given locally-held signing key.
    pub fn new(signing_seed: [u8; 32]) -> (r: SessionState)
        ensures
            r@ == init(signing_seed@),
            wf(r@),
    {
        let r = SessionState {
            identity_linked: false,
            identity_handle: String::new(),
            verified: false,
            revealed: false,
            attested: false,
            asset: Asset::SOL,
            reveal_progress: 0,
            sign_progress: 0,
            holding_reveal: false,
            holding_sign: false,
            last_error: None,
            signing_seed,
            audit_log: Vec::new(),
        };
        proof {
            assert(r@ =~= init(signing_seed@));
        }
        r
    }

    /// The provider's connect call resolved, with either the identity handle
    /// or the reason it failed. A stale resolution — one that arrives when
    /// the identity is already linked — changes nothing; a failure only
    /// records the error and leaves the session at its pre-call value.
    pub fn apply_connect_result(&mut self, result: Result<String, AttestError>)
        ensures
            final(self)@ == step(
                old(self)@,
                Event::ConnectResult {
                    result: match result {
                        Ok(h) => Ok(h@),
                        Err(e) => Err(e),
                    },
                },
            ),
            wf(old(self)@) ==> wf(final(self)@),
    {
        let ghost e = Event::ConnectResult {
            result: match &result {
                Ok(h) => Ok(h@),
                Err(err) => Err(*err),
            },
        };
        if !self.identity_linked {
            match result {
                Ok(handle) => {
                    self.identity_handle = handle;
                    self.identity_linked = true;
                    self.last_error = None;
                },
                Err(err) => {
                    self.last_error = Some(err);
                },
            }
        }
        proof {
            assert(self@ =~= step(old(self)@, e));
            if wf(old(self)@) {
                lemma_step_preserves_wf(old(self)@, e);
            }
        }
    }

    /// The second-factor verification step reported success. Out of sequence
    /// — before an identity is linked — it is a silent no-op.
    pub fn complete_verification(&mut self)
        ensures
            final(self)@ == step(old(self)@, Event::VerificationComplete),
            wf(old(self)@) ==> wf(final(self)@),
    {
        if self.identity_linked {
            self.verified = true;
        }
        proof {
            assert(self@ =~= step(old(self)@, Event::VerificationComplete));
            if wf(old(self)@) {
                lemma_step_preserves_wf(old(self)@, Event::VerificationComplete);
            }
        }
    }

    /// The user picked an instrument.
    pub fn select_asset(&mut self, asset: Asset)
        ensures
            final(self)@ == step(old(self)@, Event::SelectAsset { asset }),
            wf(old(self)@) ==> wf(final(self)@),
    {
        self.asset = asset;
        proof {
            assert(self@ =~= step(old(self)@, Event::SelectAsset { asset }));
            if wf(old(self)@) {
                lemma_step_preserves_wf(old(self)@, Event::SelectAsset { asset });
            }
        }
    }

    /// Pointer or touch went down on a hold control; mouse and touch wire to
    /// this same operation. A failed guard is a silent no-op — in particular,
    /// starting a sign hold while the session is not revealed changes nothing
    /// — and the start is idempotent while the ramp is already in flight.
    pub fn start_hold(&mut self, kind: HoldKind)
        ensures
            final(self)@ == step(old(self)@, Event::StartHold { kind }),
            wf(old(self)@) ==> wf(final(self)@),
            kind == HoldKind::Sign && !old(self)@.revealed ==> final(self)@ == old(self)@,
    {
        match kind {
            HoldKind::Reveal => {
                if self.verified {
                    self.holding_reveal = true;
                }
            },
            HoldKind::Sign => {
                if self.identity_linked && self.revealed {
                    self.holding_sign = true;
                }
            },
        }
        proof {
            assert(self@ =~= step(old(self)@, Event::StartHold { kind }));
            if wf(old(self)@) {
                lemma_step_preserves_wf(old(self)@, Event::StartHold { kind });
            }
        }
    }

    /// Pointer or touch released. Before a ramp completes this is the
    /// cancellation point: that hold's progress resets to zero, and nothing
    /// else changes — no vector flag, no log entry, not the other hold.
    pub fn release_hold(&mut self, kind: HoldKind)
        ensures
            final(self)@ == step(old(self)@, Event::ReleaseHold { kind }),
            wf(old(self)@) ==> wf(final(self)@),
            kind == HoldKind::Reveal ==> final(self)@.reveal_progress == 0,
            kind == HoldKind::Sign ==> final(self)@.sign_progress == 0,
            final(self)@.revealed == old(self)@.revealed,
            final(self)@.attested == old(self)@.attested,
            final(self)@.verified == old(self)@.verified,
            final(self)@.identity_linked == old(self)@.identity_linked,
            final(self)@.last_error == old(self)@.last_error,
            final(self)@.log == old(self)@.log,
    {
        match kind {
            HoldKind::Reveal => {
                self.holding_reveal = false;
                self.reveal_progress = 0;
            },
            HoldKind::Sign => {
                self.holding_sign = false;
                self.sign_progress = 0;
            },
        }
        proof {
            assert(self@ =~= step(old(self)@, Event::ReleaseHold { kind }));
            if wf(old(self)@) {
                lemma_step_preserves_wf(old(self)@, Event::ReleaseHold { kind });
            }
        }
    }

    /// One tick of the reveal ramp: re-reads the holding flag (the sole
    /// cancellation mechanism), then advances progress by one. The completing
    /// tick sets the revealed flag and resets progress to zero.
    pub fn reveal_tick(&mut self)
        ensures
            final(self)@ == step(old(self)@, Event::RevealTick),
            wf(old(self)@) ==> wf(final(self)@),
    {
        if self.holding_reveal {
            if self.reveal_progress >= 99 {
                self.revealed = self.revealed || self.verified;
                self.reveal_progress = 0;
                self.holding_reveal = false;
            } else {
                self.reveal_progress = self.reveal_progress + 1;
            }
        }
        proof {
            assert(self@ =~= step(old(self)@, Event::RevealTick));
            if wf(old(self)@) {
                lemma_step_preserves_wf(old(self)@, Event::RevealTick);
            }
        }
    }

    /// One tick of the sign ramp. The completing tick runs the assembler: it
    /// re-checks the guards, draws a fresh nonce, captures the given clock
    /// reading and entropy tag, serializes the canonical message, signs it
    /// with the session's key, and appends the finished record to the audit
    /// log — all or nothing: if the drawn nonce already occurs in the log,
    /// nothing is appended and the failure is recorded instead.
    pub fn sign_tick(&mut self, now_utc: u64, entropy: &str)
        ensures
            exists|nonce: Seq<char>|
                final(self)@ == step(
                    old(self)@,
                    Event::SignTick { nonce, now_utc, entropy: entropy@ },
                ),
            wf(old(self)@) ==> wf(final(self)@),
    {
        let ghost e0 = Event::SignTick { nonce: Seq::empty(), now_utc, entropy: entropy@ };
        if !self.holding_sign {
            proof {
                assert(self@ =~= step(old(self)@, e0));
            }
            return;
        }
        if self.sign_progress < 99 {
            self.sign_progress = self.sign_progress + 1;
            proof {
                assert(self@ =~= step(old(self)@, e0));
                if wf(old(self)@) {
                    lemma_step_preserves_wf(old(self)@, e0);
                }
            }
            return;
        }
        self.sign_progress = 0;
        self.holding_sign = false;
        if !(self.identity_linked && self.revealed) {
            proof {
                assert(self@ =~= step(old(self)@, e0));
                if wf(old(self)@) {
                    lemma_step_preserves_wf(old(self)@, e0);
                }
            }
            return;
        }
        let nonce = fresh_nonce();
        let ghost n = nonce@;
        let ghost e = Event::SignTick { nonce: n, now_utc, entropy: entropy@ };
        if nonce_is_fresh(&self.audit_log, &nonce) {
            let symbol = self.asset.symbol();
            let msg = canonical_message(
                nonce.as_str(),
                now_utc,
                self.identity_handle.as_str(),
                HOLD_DURATION_MS,
                symbol,
                "BIO-ATTESTED",
            );
            let sig = ed25519_sign(&self.signing_seed, msg.as_str());
            let sig_hex = hex_encode(sig.as_slice());
            let record = IntentAttestation {
                asset_symbol: symbol.to_owned(),
                wallet_pubkey: self.identity_handle.clone(),
                biometric_proof: "BIO-ATTESTED".to_owned(),
                hold_duration_ms: HOLD_DURATION_MS,
                entropy_hash: entropy.to_owned(),
                nonce,
                timestamp_utc: now_utc,
                signature: sig_hex,
            };
            proof {
                assert(record@ =~= crate::model::fresh_record(old(self)@, n, now_utc, entropy@));
            }
            self.audit_log.push(record);
            self.attested = true;
            self.last_error = None;
            proof {
                assert(self@.log =~= step(old(self)@, e).log);
                assert(self@ =~= step(old(self)@, e));
                if wf(old(self)@) {
                    lemma_step_preserves_wf(old(self)@, e);
                }
            }
        } else {
            self.last_error = Some(AttestError::SigningFailed);
            proof {
                assert(self@ =~= step(old(self)@, e));
                if wf(old(self)@) {
                    lemma_step_preserves_wf(old(self)@, e);
                }
            }
        }
    }

    /// The displayed attestation receipt was dismissed: the attested flag
    /// re-arms so a further attestation can be produced; the log keeps every
    /// record.
    pub fn dismiss_attestation(&mut self)
        ensures
            final(self)@ == step(old(self)@, Event::DismissAttestation),
            wf(old(self)@) ==> wf(final(self)@),
    {
        self.attested = false;
        proof {
            assert(self@ =~= step(old(self)@, Event::DismissAttestation));
            if wf(old(self)@) {
                lemma_step_preserves_wf(old(self)@, Event::DismissAttestation);
            }
        }
    }

    /// Re-serializes the canonical fields of the given audit-log entry and
    /// verifies them against the entry's recorded signature with the
    /// signature scheme's own verifier. `None` when no such entry exists; in
    /// a well-formed session verification always succeeds.
    pub fn verify_attestation(&self, i: usize) -> (r: Option<bool>)
        ensures
            r is Some <==> i < self@.log.len(),
            wf(self@) && i < self@.log.len() ==> r == Some(true),
    {
        if i >= self.audit_log.len() {
            return None;
        }
        let entry = &self.audit_log[i];
        proof {
            assert(self@.log[i as int] == entry@);
        }
        let msg = entry.canonical_fields();
        if !check_lower_hex(entry.signature.as_str()) {
            proof {
                if wf(self@) {
                    assert(entry_signed(self@.signing_seed, self@.log[i as int]));
                    lemma_hex_of_is_lower_hex(ed25519_sig_of(self.signing_seed@, canon_of(entry@)));
                }
            }
            return Some(false);
        }
        let sig = hex_decode(entry.signature.as_str());
        proof {
            if wf(self@) {
                assert(entry_signed(self@.signing_seed, self@.log[i as int]));
                lemma_hex_of_injective(
                    sig@,
                    ed25519_sig_of(self.signing_seed@, canon_of(entry@)),
                );
            }
        }
        Some(ed25519_verify(&self.signing_seed, msg.as_str(), sig.as_slice()))
    }
}

} // verus!

//! The abstract session machine.
//!
//! Every observable move of a session is one `Event`, and `step` says exactly
//! what each event does to the abstract state. The executable operations on
//! `SessionState` each promise to equal one `step`, so the laws proved here —
//! well-formedness preservation, nonce uniqueness, monotonicity of the
//! revealed flag, guard enforcement, the append-only audit log — hold of every
//! run of the executable session as well.

use vstd::prelude::*;

use crate::HOLD_DURATION_MS;
use crate::asset::{Asset, HoldKind, spec_symbol};
use crate::attestation::{AttRecord, canon_of, entry_signed};
use crate::canon::canon_msg;
use crate::crypto::{ed25519_sig_of, hex_of};
use crate::errors::AttestError;

verus! {

/// The mathematical content of a session.
#[verifier::ext_equal]
pub ghost struct AbstractSession {
    /// Possession vector: an external signing identity is linked.
    pub identity_linked: bool,
    /// Opaque public identifier of the linked identity.
    pub identity_handle: Seq<char>,
    /// Identity vector: the second-factor step reported success.
    pub verified: bool,
    /// Intent vector: a reveal hold ran to completion.
    pub revealed: bool,
    /// A produced attestation is outstanding (displayed); momentary, not sticky.
    pub attested: bool,
    /// The currently selected instrument.
    pub asset: Asset,
    /// Progress of the reveal hold, in ticks out of 100.
    pub reveal_progress: int,
    /// Progress of the sign hold, in ticks out of 100.
    pub sign_progress: int,
    /// A reveal ramp is in flight.
    pub holding_reveal: bool,
    /// A sign ramp is in flight.
    pub holding_sign: bool,
    /// The most recent recoverable failure, for display.
    pub last_error: Option<AttestError>,
    /// The locally-held signing key's 32 secret bytes, fixed at creation.
    pub signing_seed: Seq<u8>,
    /// The audit log: append-only, insertion order is chronological.
    pub log: Seq<AttRecord>,
}

/// One observable move of a session. Values that the environment decides —
/// the provider's answer, the clock, the randomness — come in as data of the
/// event, so a step is a function.
pub ghost enum Event {
    /// The external provider's connect call resolved.
    ConnectResult { result: Result<Seq<char>, AttestError> },
    /// The second-factor verification step reported success.
    VerificationComplete,
    /// The user picked an instrument.
    SelectAsset { asset: Asset },
    /// Pointer or touch went down on a hold control.
    StartHold { kind: HoldKind },
    /// Pointer or touch was released.
    ReleaseHold { kind: HoldKind },
    /// One tick of the reveal ramp.
    RevealTick,
    /// One tick of the sign ramp; on the completing tick the attestation is
    /// assembled from the given nonce, clock reading and entropy tag.
    SignTick { nonce: Seq<char>, now_utc: u64, entropy: Seq<char> },
    /// The displayed attestation receipt was dismissed.
    DismissAttestation,
}

/// A fresh session: nothing linked, nothing verified, nothing held, an empty
/// audit log.
pub open spec fn init(seed: Seq<u8>) -> AbstractSession {
    AbstractSession {
        identity_linked: false,
        identity_handle: Seq::empty(),
        verified: false,
        revealed: false,
        attested: false,
        asset: Asset::SOL,
        reveal_progress: 0,
        sign_progress: 0,
        holding_reveal: false,
        holding_sign: false,
        last_error: None,
        signing_seed: seed,
        log: Seq::empty(),
    }
}

/// No entry of the log carries this nonce yet.
pub open spec fn nonce_fresh(log: Seq<AttRecord>, nonce: Seq<char>) -> bool {
    forall|i: int| 0 <= i < log.len() ==> (#[trigger] log[i]).nonce != nonce
}

/// Any two entries of the log carry different nonces.
pub open spec fn nonces_unique(log: Seq<AttRecord>) -> bool {
    forall|i: int, j: int|
        0 <= i < j < log.len() ==> (#[trigger] log[i]).nonce != (#[trigger] log[j]).nonce
}

/// The provider's connect call resolved. A resolution that arrives after the
/// identity is already linked is stale and changes nothing. Success links the
/// identity and stores the handle; failure only records the error.
pub open spec fn step_connect(
    s: AbstractSession,
    result: Result<Seq<char>, AttestError>,
) -> AbstractSession {
    if s.identity_linked {
        s
    } else {
        match result {
            Ok(handle) => AbstractSession {
                identity_linked: true,
                identity_handle: handle,
                last_error: None,
                ..s
            },
            Err(e) => AbstractSession { last_error: Some(e), ..s },
        }
    }
}

/// The second-factor step reported success. Guarded: without a linked
/// identity the report is out of sequence and is a no-op.
pub open spec fn step_verification(s: AbstractSession) -> AbstractSession {
    if s.identity_linked {
        AbstractSession { verified: true, ..s }
    } else {
        s
    }
}

/// The user picked an instrument.
pub open spec fn step_select_asset(s: AbstractSession, a: Asset) -> AbstractSession {
    AbstractSession { asset: a, ..s }
}

/// Whether starting the given hold is legal in this state.
pub open spec fn start_guard(s: AbstractSession, kind: HoldKind) -> bool {
    match kind {
        HoldKind::Reveal => s.verified,
        HoldKind::Sign => s.identity_linked && s.revealed,
    }
}

/// Pointer down on a hold control. A failed guard is a silent no-op, and the
/// start is idempotent while the ramp is already in flight.
pub open spec fn step_start_hold(s: AbstractSession, kind: HoldKind) -> AbstractSession {
    if !start_guard(s, kind) {
        s
    } else {
        match kind {
            HoldKind::Reveal => AbstractSession { holding_reveal: true, ..s },
            HoldKind::Sign => AbstractSession { holding_sign: true, ..s },
        }
    }
}

/// Pointer released. Before the ramp reaches completion this is a
/// cancellation point: progress resets to zero and no partial effect persists.
pub open spec fn step_release_hold(s: AbstractSession, kind: HoldKind) -> AbstractSession {
    match kind {
        HoldKind::Reveal => AbstractSession { holding_reveal: false, reveal_progress: 0, ..s },
        HoldKind::Sign => AbstractSession { holding_sign: false, sign_progress: 0, ..s },
    }
}

/// One tick of the reveal ramp: a discrete resumption point that re-reads the
/// holding flag, then advances progress by one. Reaching 100 is the sole
/// completion signal: the session becomes revealed (the guard is re-checked
/// defensively) and progress resets to zero.
pub open spec fn step_reveal_tick(s: AbstractSession) -> AbstractSession {
    if !s.holding_reveal {
        s
    } else if s.reveal_progress >= 99 {
        AbstractSession {
            revealed: s.revealed || s.verified,
            reveal_progress: 0,
            holding_reveal: false,
            ..s
        }
    } else {
        AbstractSession { reveal_progress: s.reveal_progress + 1, ..s }
    }
}

/// The record that a completing sign tick appends.
pub open spec fn fresh_record(
    s: AbstractSession,
    nonce: Seq<char>,
    now_utc: u64,
    entropy: Seq<char>,
) -> AttRecord {
    AttRecord {
        asset_symbol: spec_symbol(s.asset),
        wallet_pubkey: s.identity_handle,
        biometric_proof: "BIO-ATTESTED"@,
        hold_duration_ms: HOLD_DURATION_MS,
        entropy_hash: entropy,
        nonce: nonce,
        timestamp_utc: now_utc,
        signature: hex_of(
            ed25519_sig_of(
                s.signing_seed,
                canon_msg(
                    nonce,
                    now_utc,
                    s.identity_handle,
                    HOLD_DURATION_MS,
                    spec_symbol(s.asset),
                    "BIO-ATTESTED"@,
                ),
            ),
        ),
    }
}

/// One tick of the sign ramp. The completing tick assembles the attestation:
/// it re-checks the guards defensively, and appends the signed record only if
/// the drawn nonce is fresh — assembly is all-or-nothing, so a stale nonce
/// aborts with an error and appends nothing.
pub open spec fn step_sign_tick(
    s: AbstractSession,
    nonce: Seq<char>,
    now_utc: u64,
    entropy: Seq<char>,
) -> AbstractSession {
    if !s.holding_sign {
        s
    } else if s.sign_progress < 99 {
        AbstractSession { sign_progress: s.sign_progress + 1, ..s }
    } else {
        let done = AbstractSession { sign_progress: 0, holding_sign: false, ..s };
        if !(s.identity_linked && s.revealed) {
            done
        } else if nonce_fresh(s.log, nonce) {
            AbstractSession {
                log: s.log.push(fresh_record(s, nonce, now_utc, entropy)),
                attested: true,
                last_error: None,
                ..done
            }
        } else {
            AbstractSession { last_error: Some(AttestError::SigningFailed), ..done }
        }
    }
}

/// The displayed receipt was dismissed: the attested flag re-arms; the log
/// keeps the record.
pub open spec fn step_dismiss(s: AbstractSession) -> AbstractSession {
    AbstractSession { attested: false, ..s }
}

/// What one event does to a session.
pub open spec fn step(s: AbstractSession, e: Event) -> AbstractSession {
    match e {
        Event::ConnectResult { result } => step_connect(s, result),
        Event::VerificationComplete => step_verification(s),
        Event::SelectAsset { asset } => step_select_asset(s, asset),
        Event::StartHold { kind } => step_start_hold(s, kind),
        Event::ReleaseHold { kind } => step_release_hold(s, kind),
        Event::RevealTick => step_reveal_tick(s),
        Event::SignTick { nonce, now_utc, entropy } => step_sign_tick(s, nonce, now_utc, entropy),
        Event::DismissAttestation => step_dismiss(s),
    }
}

/// Well-formedness of a session: progress counters in range and zero while
/// not holding, a ramp in flight only behind its guard, the vectors completed
/// in strict order, pairwise-distinct nonces in the audit log, and every log
/// entry signed over its own canonical message by the session's key.
pub open spec fn wf(s: AbstractSession) -> bool {
    &&& 0 <= s.reveal_progress <= 99
    &&& 0 <= s.sign_progress <= 99
    &&& (!s.holding_reveal ==> s.reveal_progress == 0)
    &&& (!s.holding_sign ==> s.sign_progress == 0)
    &&& (s.holding_reveal ==> s.verified)
    &&& (s.holding_sign ==> s.identity_linked && s.revealed)
    &&& (s.revealed ==> s.verified)
    &&& (s.verified ==> s.identity_linked)
    &&& (s.attested ==> s.log.len() >= 1)
    &&& s.signing_seed.len() == 32
    &&& nonces_unique(s.log)
    &&& (forall|i: int| 0 <= i < s.log.len() ==> entry_signed(s.signing_seed, #[trigger] s.log[i]))
}

/// A fresh session is well formed.
pub proof fn lemma_init_wf(seed: Seq<u8>)
    requires
        seed.len() == 32,
    ensures
        wf(init(seed)),
{
}

/// Every event preserves well-formedness. In particular, the nonces in the
/// audit log stay pairwise distinct, and every entry keeps carrying the
/// signature over its own canonical message.
pub proof fn lemma_step_preserves_wf(s: AbstractSession, e: Event)
    requires
        wf(s),
    ensures
        wf(step(s, e)),
{
    let t = step(s, e);
    match e {
        Event::SignTick { nonce, now_utc, entropy } => {
            if s.holding_sign && s.sign_progress >= 99 && nonce_fresh(s.log, nonce) {
                let r = fresh_record(s, nonce, now_utc, entropy);
                assert(t.log == s.log.push(r));
                assert forall|i: int, j: int| 0 <= i < j < t.log.len() implies (
                #[trigger] t.log[i]).nonce != (#[trigger] t.log[j]).nonce by {
                    if j < s.log.len() {
                        assert(t.log[i] == s.log[i] && t.log[j] == s.log[j]);
                    } else {
                        assert(t.log[i] == s.log[i] && t.log[j] == r);
                    }
                }
                assert forall|i: int| 0 <= i < t.log.len() implies entry_signed(
                    t.signing_seed,
                    #[trigger] t.log[i],
                ) by {
                    if i < s.log.len() {
                        assert(t.log[i] == s.log[i]);
                    } else {
                        assert(t.log[i] == r);
                        assert(canon_of(r) == canon_msg(
                            nonce,
                            now_utc,
                            s.identity_handle,
                            HOLD_DURATION_MS,
                            spec_symbol(s.asset),
                            "BIO-ATTESTED"@,
                        ));
                    }
                }
            }
        },
        _ => {},
    }
}

/// A whole trace of events, run in order.
pub open spec fn run(s: AbstractSession, trace: Seq<Event>) -> AbstractSession
    decreases trace.len(),
{
    if trace.len() == 0 {
        s
    } else {
        run(step(s, trace[0]), trace.drop_first())
    }
}

/// Well-formedness holds along every trace.
pub proof fn lemma_run_preserves_wf(s: AbstractSession, trace: Seq<Event>)
    requires
        wf(s),
    ensures
        wf(run(s, trace)),
    decreases trace.len(),
{
    if trace.len() > 0 {
        lemma_step_preserves_wf(s, trace[0]);
        lemma_run_preserves_wf(step(s, trace[0]), trace.drop_first());
    }
}

/// Nonce uniqueness: in any session reached from a fresh one by any trace of
/// events, any two entries of the audit log carry different nonces.
pub proof fn lemma_audit_nonces_unique(seed: Seq<u8>, trace: Seq<Event>, i: int, j: int)
    requires
        seed.len() == 32,
        0 <= i < j < run(init(seed), trace).log.len(),
    ensures
        run(init(seed), trace).log[i].nonce != run(init(seed), trace).log[j].nonce,
{
    lemma_init_wf(seed);
    lemma_run_preserves_wf(init(seed), trace);
}

/// Releasing a hold — at any progress short of completion, which is every
/// state a hold can rest in — leaves that hold's progress at zero and makes
/// no state transition: every vector flag, the selected asset, the error and
/// the audit log stay exactly as they were, and the other hold is untouched.
pub proof fn lemma_release_no_transition(s: AbstractSession, kind: HoldKind)
    ensures
        ({
            let t = step(s, Event::ReleaseHold { kind });
            &&& (kind == HoldKind::Reveal ==> t.reveal_progress == 0 && t.sign_progress
                == s.sign_progress && t.holding_sign == s.holding_sign)
            &&& (kind == HoldKind::Sign ==> t.sign_progress == 0 && t.reveal_progress
                == s.reveal_progress && t.holding_reveal == s.holding_reveal)
            &&& t.identity_linked == s.identity_linked
            &&& t.identity_handle == s.identity_handle
            &&& t.verified == s.verified
            &&& t.revealed == s.revealed
            &&& t.attested == s.attested
            &&& t.asset == s.asset
            &&& t.last_error == s.last_error
            &&& t.log == s.log
        }),
{
}

/// The revealed flag is monotone: once true, no event clears it.
pub proof fn lemma_revealed_monotone(s: AbstractSession, e: Event)
    requires
        s.revealed,
    ensures
        step(s, e).revealed,
{
}

/// The revealed flag is monotone along whole traces.
pub proof fn lemma_run_revealed_monotone(s: AbstractSession, trace: Seq<Event>)
    requires
        s.revealed,
    ensures
        run(s, trace).revealed,
    decreases trace.len(),
{
    if trace.len() > 0 {
        lemma_revealed_monotone(s, trace[0]);
        lemma_run_revealed_monotone(step(s, trace[0]), trace.drop_first());
    }
}

/// The revealed flag becomes true only on the completing tick of a reveal
/// hold whose guard held when it started. Together with monotonicity this is
/// the "exactly once per completed hold" law: interleaved failed attempts —
/// releases, interrupted ramps, out-of-sequence events — never set it.
pub proof fn lemma_revealed_needs_completed_hold(s: AbstractSession, e: Event)
    requires
        !s.revealed,
        step(s, e).revealed,
    ensures
        e == Event::RevealTick,
        s.holding_reveal,
        s.reveal_progress >= 99,
        s.verified,
{
}

/// The event at position `i` of the trace is the completing tick of a reveal
/// hold: a reveal tick that arrives with the ramp in flight at full progress,
/// with the verification guard satisfied.
pub open spec fn reveal_completion_at(s: AbstractSession, trace: Seq<Event>, i: int) -> bool {
    &&& 0 <= i < trace.len()
    &&& trace[i] == Event::RevealTick
    &&& run(s, trace.take(i)).holding_reveal
    &&& run(s, trace.take(i)).reveal_progress >= 99
    &&& run(s, trace.take(i)).verified
}

/// Along a whole trace from an unrevealed state, the revealed flag can only
/// have been set by a completed reveal hold: if the trace ends revealed, some
/// event of it was the completing tick of one. With monotonicity this is the
/// "exactly once per completed hold" law: interleaved failed attempts never
/// set the flag, and later completions find it already set.
pub proof fn lemma_run_revealed_needs_completed_hold(s: AbstractSession, trace: Seq<Event>)
    requires
        !s.revealed,
        run(s, trace).revealed,
    ensures
        exists|i: int| reveal_completion_at(s, trace, i),
    decreases trace.len(),
{
    let t = step(s, trace[0]);
    if t.revealed {
        lemma_revealed_needs_completed_hold(s, trace[0]);
        assert(trace.take(0) =~= Seq::empty());
        assert(reveal_completion_at(s, trace, 0));
    } else {
        lemma_run_revealed_needs_completed_hold(t, trace.drop_first());
        let i = choose|i: int| reveal_completion_at(t, trace.drop_first(), i);
        assert(trace.drop_first().take(i) =~= trace.take(i + 1).drop_first());
        assert(trace.take(i + 1)[0] == trace[0]);
        assert(run(s, trace.take(i + 1)) == run(t, trace.drop_first().take(i)));
        assert(reveal_completion_at(s, trace, i + 1));
    }
}

/// Guard enforcement: starting a sign hold while the session is not revealed
/// changes nothing at all — in particular the sign hold's progress.
pub proof fn lemma_sign_start_guarded(s: AbstractSession)
    requires
        !s.revealed,
    ensures
        step(s, Event::StartHold { kind: HoldKind::Sign }) == s,
{
}

/// A new audit-log entry can only be produced by the completing tick of a
/// sign hold, and only while the session is identity-linked and revealed.
pub proof fn lemma_append_needs_guards(s: AbstractSession, e: Event)
    requires
        step(s, e).log.len() > s.log.len(),
    ensures
        e is SignTick,
        s.holding_sign,
        s.sign_progress >= 99,
        s.identity_linked,
        s.revealed,
        step(s, e).attested,
{
}

/// The audit log is append-only: each event leaves the old log a prefix of
/// the new one, so it never shrinks and never reorders.
pub proof fn lemma_log_append_only(s: AbstractSession, e: Event)
    ensures
        s.log.is_prefix_of(step(s, e).log),
{
    let t = step(s, e);
    if t.log != s.log {
        assert(t.log.subrange(0, s.log.len() as int) =~= s.log);
    } else {
        assert(t.log.subrange(0, s.log.len() as int) =~= s.log);
    }
}

/// The audit log is append-only along whole traces.
pub proof fn lemma_run_log_append_only(s: AbstractSession, trace: Seq<Event>)
    ensures
        s.log.is_prefix_of(run(s, trace).log),
    decreases trace.len(),
{
    if trace.len() == 0 {
        assert(run(s, trace).log.subrange(0, s.log.len() as int) =~= s.log);
    } else {
        lemma_log_append_only(s, trace[0]);
        let t = step(s, trace[0]);
        lemma_run_log_append_only(t, trace.drop_first());
        assert(run(s, trace).log.subrange(0, s.log.len() as int) =~= s.log);
    }
}

} // verus!

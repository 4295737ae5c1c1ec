//! Producer client: orchestrates key generation, encryption of the
//! reading, request construction, and decryption of the returned result.
//!
//! Connection establishment is the one step that blocks and retries; its
//! decisions live here as a state machine over attempt outcomes, with the
//! attempt count and inter-attempt delay as explicit policy rather than
//! hardcoded, and with an explicit cancellation outcome so a caller's
//! token can end the loop early. The transport itself (dialing, sleeping,
//! sending) stays outside the core and feeds outcomes in.

use vstd::prelude::*;

use crate::codec::{
    encode_ciphertext, encode_eval_keys, encode_public_key, spec_decode_ciphertext,
    spec_encode_ciphertext, spec_encode_eval_keys, spec_encode_public_key,
    ComputationRequest, ComputationResult,
};
use crate::engine::{
    spec_decrypt, spec_encrypt, Ciphertext, EvaluationKeySet, Plaintext, PublicKey,
    FRESH_MANTISSA_BOUND,
};
use crate::errors::ProtocolError;
use crate::keymgr::KeyManager;
use crate::params::{SchemeParameters, READING_SCALE_EXP};

verus! {

/// The phases of one producer session, in protocol order. Within a
/// session the steps are strictly sequential — each consumes the previous
/// step's output — so completing a phase leads to exactly one successor.
/// Only `Connecting` repeats (the retry machine below); exhausting it, or
/// any later failure, ends the session in `Failed`.
#[derive(Clone, Copy, PartialEq, Eq, Structural, Debug)]
pub enum SessionPhase {
    Disconnected,
    Connecting,
    KeyReady,
    Encrypting,
    Sending,
    AwaitingResult,
    Decrypting,
    Done,
    Failed,
}

/// The phase a completed phase leads to; the terminal phases stay put.
pub open spec fn spec_phase_after(p: SessionPhase) -> SessionPhase {
    match p {
        SessionPhase::Disconnected => SessionPhase::Connecting,
        SessionPhase::Connecting => SessionPhase::KeyReady,
        SessionPhase::KeyReady => SessionPhase::Encrypting,
        SessionPhase::Encrypting => SessionPhase::Sending,
        SessionPhase::Sending => SessionPhase::AwaitingResult,
        SessionPhase::AwaitingResult => SessionPhase::Decrypting,
        SessionPhase::Decrypting => SessionPhase::Done,
        SessionPhase::Done => SessionPhase::Done,
        SessionPhase::Failed => SessionPhase::Failed,
    }
}

impl SessionPhase {
    /// Neither success nor failure moves a session out of these.
    pub open spec fn is_terminal(self) -> bool {
        self is Done || self is Failed
    }

    /// Advance past a completed step.
    pub fn complete_step(&self) -> (q: SessionPhase)
        ensures
            q == spec_phase_after(*self),
    {
        match self {
            SessionPhase::Disconnected => SessionPhase::Connecting,
            SessionPhase::Connecting => SessionPhase::KeyReady,
            SessionPhase::KeyReady => SessionPhase::Encrypting,
            SessionPhase::Encrypting => SessionPhase::Sending,
            SessionPhase::Sending => SessionPhase::AwaitingResult,
            SessionPhase::AwaitingResult => SessionPhase::Decrypting,
            SessionPhase::Decrypting => SessionPhase::Done,
            SessionPhase::Done => SessionPhase::Done,
            SessionPhase::Failed => SessionPhase::Failed,
        }
    }

    /// A failed step ends the session; a finished session stays done.
    pub fn fail_step(&self) -> (q: SessionPhase)
        ensures
            q == if *self is Done {
                SessionPhase::Done
            } else {
                SessionPhase::Failed
            },
    {
        match self {
            SessionPhase::Done => SessionPhase::Done,
            _ => SessionPhase::Failed,
        }
    }
}

/// How connection establishment retries: a bounded attempt count with a
/// fixed inter-attempt delay.
#[derive(Clone, Copy, PartialEq, Eq, Structural, Debug)]
pub struct RetryPolicy {
    pub max_attempts: u32,
    pub delay_ms: u64,
}

impl RetryPolicy {
    /// At least one attempt is always made.
    pub open spec fn wf(self) -> bool {
        self.max_attempts >= 1
    }
}

/// The deployment default: five attempts, one second apart.
pub open spec fn spec_default_retry_policy() -> RetryPolicy {
    RetryPolicy { max_attempts: 5, delay_ms: 1000 }
}

/// The policy the client uses unless configured otherwise.
pub fn default_retry_policy() -> (p: RetryPolicy)
    ensures
        p == spec_default_retry_policy(),
        p.wf(),
{
    RetryPolicy { max_attempts: 5, delay_ms: 1000 }
}

/// What one connection attempt came back with, or that the caller's
/// cancellation token ended the loop before the next attempt.
#[derive(Clone, Copy, PartialEq, Eq, Structural, Debug)]
pub enum ConnectEvent {
    Connected,
    Unreachable,
    Cancelled,
}

/// What the transport loop must do next.
#[derive(Clone, Copy, PartialEq, Eq, Structural, Debug)]
pub enum ConnectAction {
    /// The channel is up: proceed with the session.
    UseConnection,
    /// Sleep for the policy's delay, then attempt again.
    RetryAfterDelay { delay_ms: u64 },
    /// Attempts are exhausted: surface `ConnectionError` to the caller.
    GiveUp { error: ProtocolError },
    /// The caller cancelled: stop without an attempt and without error.
    Abort,
}

/// Connection establishment as a machine over attempt outcomes: it counts
/// the attempts made and decides after each one whether to proceed, wait
/// and retry, or give up.
pub struct Connector {
    pub policy: RetryPolicy,
    pub attempts_made: u32,
}

/// The machine's transition: how one outcome advances the attempt count
/// and what it asks the transport loop to do.
pub open spec fn spec_connect_step(policy: RetryPolicy, attempts_before: u32, event: ConnectEvent)
    -> (u32, ConnectAction) {
    match event {
        ConnectEvent::Connected => ((attempts_before + 1) as u32, ConnectAction::UseConnection),
        ConnectEvent::Unreachable => {
            let made = (attempts_before + 1) as u32;
            if made < policy.max_attempts {
                (made, ConnectAction::RetryAfterDelay { delay_ms: policy.delay_ms })
            } else {
                (
                    made,
                    ConnectAction::GiveUp {
                        error: ProtocolError::ConnectionError { attempts_made: made },
                    },
                )
            }
        },
        ConnectEvent::Cancelled => (attempts_before, ConnectAction::Abort),
    }
}

impl Connector {
    pub open spec fn wf(self) -> bool {
        &&& self.policy.wf()
        &&& self.attempts_made <= self.policy.max_attempts
    }

    /// A connector that has not attempted anything yet.
    pub fn new(policy: RetryPolicy) -> (c: Connector)
        requires
            policy.wf(),
        ensures
            c.wf(),
            c.policy == policy,
            c.attempts_made == 0,
    {
        Connector { policy, attempts_made: 0 }
    }

    /// Record the outcome of one attempt (or a cancellation) and decide
    /// what the transport loop does next.
    pub fn on_event(&mut self, event: ConnectEvent) -> (a: ConnectAction)
        requires
            old(self).wf(),
            event is Cancelled || old(self).attempts_made < old(self).policy.max_attempts,
        ensures
            final(self).wf(),
            final(self).policy == old(self).policy,
            (final(self).attempts_made, a) == spec_connect_step(
                old(self).policy,
                old(self).attempts_made,
                event,
            ),
    {
        match event {
            ConnectEvent::Connected => {
                self.attempts_made = self.attempts_made + 1;
                ConnectAction::UseConnection
            },
            ConnectEvent::Unreachable => {
                self.attempts_made = self.attempts_made + 1;
                if self.attempts_made < self.policy.max_attempts {
                    ConnectAction::RetryAfterDelay { delay_ms: self.policy.delay_ms }
                } else {
                    ConnectAction::GiveUp {
                        error: ProtocolError::ConnectionError {
                            attempts_made: self.attempts_made,
                        },
                    }
                }
            },
            ConnectEvent::Cancelled => ConnectAction::Abort,
        }
    }
}

/// Retry bound: against an unreachable server the machine asks for
/// another attempt, spaced by exactly the configured delay, until exactly
/// `max_attempts` attempts have been made, and then — and only then —
/// gives up with `ConnectionError` carrying that count. Cancellation
/// stops the loop at any point without consuming an attempt.
pub proof fn lemma_retry_bound(policy: RetryPolicy, attempts_before: u32)
    requires
        policy.wf(),
        attempts_before < policy.max_attempts,
    ensures
        attempts_before + 1 < policy.max_attempts ==> spec_connect_step(
            policy,
            attempts_before,
            ConnectEvent::Unreachable,
        ) == (((attempts_before + 1) as u32, ConnectAction::RetryAfterDelay {
            delay_ms: policy.delay_ms,
        })),
        attempts_before + 1 == policy.max_attempts ==> spec_connect_step(
            policy,
            attempts_before,
            ConnectEvent::Unreachable,
        ) == ((policy.max_attempts, ConnectAction::GiveUp {
            error: ProtocolError::ConnectionError { attempts_made: policy.max_attempts },
        })),
        spec_connect_step(policy, attempts_before, ConnectEvent::Cancelled) == ((
        attempts_before,
        ConnectAction::Abort,
        )),
{
}

/// `PrepareSecrets`: build the protocol context, generate the key pair
/// and evaluation keys, and export the public material. The private key
/// stays inside the returned manager; key identity comes from the
/// caller's entropy source.
pub fn prepare_secrets(key_id: u64) -> (r: (KeyManager, PublicKey, Option<EvaluationKeySet>))
    ensures
        r.0.wf(),
        r.0.ctx.params == crate::params::spec_protocol_parameters(),
        r.0.key_pair matches Some(kp) && kp.public_key == r.1,
        r.1 == (PublicKey { params: crate::params::spec_protocol_parameters(), key_id }),
        r.2 == Some(EvaluationKeySet { params: r.1.params, key_id }),
{
    let params = SchemeParameters::protocol();
    let mut mgr = KeyManager::new(params);
    mgr.generate_key_pair(key_id);
    let export = mgr.export_public_material();
    match export {
        Ok((pk, ek)) => (mgr, pk, ek),
        Err(_) => {
            // Unreachable: the key pair was generated just above.
            proof {
                assert(false);
            }
            (mgr, PublicKey { params, key_id }, None)
        },
    }
}

/// The plaintext a scalar reading is packed into: slot 0 at the
/// protocol's fixed reading scale, remaining slots unused.
pub open spec fn spec_packed_reading(reading_mantissa: i64) -> Plaintext {
    Plaintext { mantissa: reading_mantissa, scale_exp: READING_SCALE_EXP }
}

/// `EncryptReading`: pack the scalar reading at the protocol's reading
/// scale and encrypt it under the producer's own public key.
pub fn encrypt_reading(mgr: &KeyManager, pk: &PublicKey, reading_mantissa: i64) -> (c: Ciphertext)
    requires
        mgr.wf(),
        pk.params == mgr.ctx.params,
        -FRESH_MANTISSA_BOUND <= reading_mantissa <= FRESH_MANTISSA_BOUND,
    ensures
        c == spec_encrypt(*pk, spec_packed_reading(reading_mantissa)),
        c.wf(),
{
    let pt = Plaintext { mantissa: reading_mantissa, scale_exp: READING_SCALE_EXP };
    mgr.ctx.encrypt(pk, &pt)
}

/// `BuildRequest`: serialize the reading ciphertext, the public key and
/// the evaluation keys into the wire entity. Absent evaluation keys
/// travel as the empty string.
pub fn build_request(cipher: &Ciphertext, pk: &PublicKey, ek: &Option<EvaluationKeySet>) -> (req:
    ComputationRequest)
    requires
        cipher.wf(),
    ensures
        req.vss_odometer_cipher@ == spec_encode_ciphertext(*cipher),
        req.pub_key@ == spec_encode_public_key(*pk),
        match ek {
            Some(keys) => req.mul_eval_keys@ == spec_encode_eval_keys(*keys),
            None => req.mul_eval_keys@ == Seq::<u8>::empty(),
        },
{
    let mul_eval_keys: Vec<u8> = match ek {
        Some(keys) => encode_eval_keys(keys),
        None => Vec::new(),
    };
    ComputationRequest {
        vss_odometer_cipher: encode_ciphertext(cipher),
        pub_key: encode_public_key(pk),
        mul_eval_keys,
    }
}

/// `Decrypt`: decode the result ciphertext and decrypt it with the
/// producer's own private key. A malformed wire string is `DecodeError`;
/// a result under a foreign key or parameter set is
/// `SchemeMismatchError`; decrypting before key generation is
/// `UninitializedKeyError`.
pub fn decrypt_result(mgr: &KeyManager, result: &ComputationResult) -> (r: Result<
    Plaintext,
    ProtocolError,
>)
    requires
        mgr.wf(),
    ensures
        match r {
            Ok(pt) => {
                &&& spec_decode_ciphertext(result.cost_cipher@) matches Some(c)
                &&& mgr.key_pair matches Some(kp) && c.key_id == kp.public_key.key_id
                &&& c.params == mgr.ctx.params
                &&& pt == spec_decrypt(c)
            },
            Err(ProtocolError::DecodeError) => spec_decode_ciphertext(result.cost_cipher@) is None,
            Err(ProtocolError::UninitializedKeyError) => {
                &&& spec_decode_ciphertext(result.cost_cipher@) is Some
                &&& mgr.key_pair is None
            },
            Err(ProtocolError::SchemeMismatchError) => {
                &&& spec_decode_ciphertext(result.cost_cipher@) matches Some(c)
                &&& mgr.key_pair matches Some(kp)
                &&& !(c.key_id == kp.public_key.key_id && c.params == mgr.ctx.params)
            },
            Err(_) => false,
        },
{
    match crate::codec::decode_ciphertext(&result.cost_cipher) {
        Ok(c) => {
            proof {
                crate::codec::lemma_ciphertext_round_trip(c);
            }
            mgr.decrypt_ciphertext(&c)
        },
        Err(e) => {
            proof {
                assert(spec_decode_ciphertext(result.cost_cipher@) is None);
            }
            Err(e)
        },
    }
}

} // verus!

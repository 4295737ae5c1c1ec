//! Key & context manager: owns the scheme parameters and the key pair on
//! the producer's side, and hands out only public material for export.
//!
//! The private key never reaches the codec: the only operation that uses
//! it is decryption, performed here. Asking for public material before a
//! key pair exists is a programmer error and fails with
//! `UninitializedKeyError` instead of panicking.

use vstd::prelude::*;

use crate::engine::{
    spec_decrypt, Ciphertext, Context, EvaluationKeySet, KeyPair, Plaintext, PublicKey,
};
use crate::errors::ProtocolError;
use crate::params::SchemeParameters;

verus! {

/// Owns one context and, once generated, one key pair bound to it.
pub struct KeyManager {
    pub ctx: Context,
    pub key_pair: Option<KeyPair>,
}

impl KeyManager {
    /// The manager's invariant: a generated key pair is bound to the
    /// context's parameters, and evaluation keys are registered with the
    /// context exactly when the parameters allow multiplication (they are
    /// generated alongside the key pair, never separately).
    pub open spec fn wf(self) -> bool {
        match self.key_pair {
            Some(kp) => {
                &&& kp.wf()
                &&& kp.public_key.params == self.ctx.params
                &&& if self.ctx.params.mult_depth >= 1 {
                    self.ctx.registered_eval_keys == Some(
                        EvaluationKeySet {
                            params: kp.public_key.params,
                            key_id: kp.public_key.key_id,
                        },
                    )
                } else {
                    self.ctx.registered_eval_keys is None
                }
            },
            None => self.ctx.registered_eval_keys is None,
        }
    }

    /// A manager over a fresh context, before key generation.
    pub fn new(params: SchemeParameters) -> (mgr: KeyManager)
        ensures
            mgr.wf(),
            mgr.ctx.params == params,
            mgr.key_pair is None,
    {
        KeyManager { ctx: Context::generate(params), key_pair: None }
    }

    /// `GenerateKeyPair`: generate the key pair and, when the parameters
    /// support multiplication, the evaluation key set alongside it. Key
    /// identity comes from the caller's entropy source.
    pub fn generate_key_pair(&mut self, key_id: u64)
        requires
            old(self).wf(),
        ensures
            final(self).wf(),
            final(self).ctx.params == old(self).ctx.params,
            final(self).key_pair matches Some(kp) && kp.public_key == (PublicKey {
                params: old(self).ctx.params,
                key_id,
            }),
    {
        let kp = self.ctx.key_gen(key_id);
        if self.ctx.params.mult_depth >= 1 {
            self.ctx.eval_mult_key_gen(&kp.private_key);
        }
        self.key_pair = Some(kp);
    }

    /// `ExportPublicMaterial`: the public key and, when the scheme needs
    /// ciphertext multiplication downstream, the evaluation key set — and
    /// nothing else; the private key has no export path. Fails with
    /// `UninitializedKeyError` if and only if no key pair was generated.
    pub fn export_public_material(&self) -> (r: Result<
        (PublicKey, Option<EvaluationKeySet>),
        ProtocolError,
    >)
        requires
            self.wf(),
        ensures
            match r {
                Ok((pk, ek)) => {
                    &&& self.key_pair matches Some(kp) && pk == kp.public_key
                    &&& ek == self.ctx.registered_eval_keys
                    &&& if self.ctx.params.mult_depth >= 1 {
                        ek == Some(EvaluationKeySet { params: pk.params, key_id: pk.key_id })
                    } else {
                        ek is None
                    }
                },
                Err(e) => e == ProtocolError::UninitializedKeyError && self.key_pair is None,
            },
    {
        match &self.key_pair {
            Some(kp) => Ok((kp.public_key, self.ctx.registered_eval_keys)),
            None => Err(ProtocolError::UninitializedKeyError),
        }
    }

    /// Decrypt a ciphertext with the manager's own private key, checking
    /// the engine's compatibility preconditions and reporting them as
    /// typed errors: no key pair yet is `UninitializedKeyError`; a
    /// ciphertext from another key or parameter set is
    /// `SchemeMismatchError`.
    pub fn decrypt_ciphertext(&self, c: &Ciphertext) -> (r: Result<Plaintext, ProtocolError>)
        requires
            self.wf(),
        ensures
            match r {
                Ok(pt) => {
                    &&& self.key_pair matches Some(kp)
                    &&& c.key_id == kp.public_key.key_id
                    &&& c.params == self.ctx.params
                    &&& pt == spec_decrypt(*c)
                },
                Err(ProtocolError::UninitializedKeyError) => self.key_pair is None,
                Err(ProtocolError::SchemeMismatchError) => self.key_pair matches Some(kp) && !(
                c.key_id == kp.public_key.key_id && c.params == self.ctx.params),
                Err(_) => false,
            },
    {
        match &self.key_pair {
            Some(kp) => {
                if c.key_id == kp.public_key.key_id && c.params == self.ctx.params {
                    Ok(self.ctx.decrypt(&kp.private_key, c))
                } else {
                    Err(ProtocolError::SchemeMismatchError)
                }
            },
            None => Err(ProtocolError::UninitializedKeyError),
        }
    }
}

} // verus!

//! An exact fixed-point model of the external cryptographic engine's
//! artifacts and primitive operations.
//!
//! The physical engine (polynomial ring arithmetic, noise budgeting) is out
//! of scope; what the protocol needs from it is a carrier of values that
//! supports encryption under a public key, addition and multiplication of
//! ciphertexts, and decryption with the matching private key. This module
//! models that carrier exactly: a plaintext is a scaled integer (a mantissa
//! and a decimal scale exponent), and a ciphertext records the parameters
//! and key it was produced under, the multiplicative depth it has consumed,
//! and the value it carries. The model is exact where the physical scheme
//! is approximate: the scheme's bounded numeric deviation is documented
//! behaviour, not an error, and does not appear here.
//!
//! Where the external engine leaves cross-context operations undefined
//! (silently producing garbage), this model forbids them by precondition,
//! so verified callers must prove the key and parameter agreement that the
//! protocol's correctness rests on.

use vstd::prelude::*;

use crate::params::SchemeParameters;

verus! {

/// Largest mantissa magnitude a fresh (level-0) ciphertext or a plaintext
/// may carry: the scaling precision's capacity before any multiplication.
pub const FRESH_MANTISSA_BOUND: i64 = 0x4_0000_0000_0000;

/// Largest mantissa magnitude any ciphertext may carry once multiplicative
/// depth has been consumed.
pub const EVAL_MANTISSA_BOUND: i64 = 0x4000_0000_0000_0000;

/// Largest scale exponent of a fresh encoding.
pub const MAX_FRESH_SCALE_EXP: u32 = 12;

/// Largest scale exponent any ciphertext may carry (one multiplication of
/// two fresh encodings at most doubles the exponent).
pub const MAX_CIPHER_SCALE_EXP: u32 = 24;

/// A scalar packed into the scheme's native encoding prior to encryption:
/// the value is `mantissa / 10^scale_exp`, held in slot 0; remaining slots
/// of the batch are unused and zero.
#[derive(Clone, Copy, PartialEq, Eq, Structural, Debug)]
pub struct Plaintext {
    pub mantissa: i64,
    pub scale_exp: u32,
}

/// Public half of a key pair, bound to the parameters it was generated under.
#[derive(Clone, Copy, PartialEq, Eq, Structural, Debug)]
pub struct PublicKey {
    pub params: SchemeParameters,
    pub key_id: u64,
}

/// Private half of a key pair. It is owned exclusively by the producer:
/// no codec entry point and no server operation takes this type.
#[derive(Clone, Copy, PartialEq, Eq, Structural, Debug)]
pub struct PrivateKey {
    pub params: SchemeParameters,
    pub key_id: u64,
}

/// Public evaluation (relinearization) material derived from a private key,
/// required by whoever multiplies ciphertexts produced under that key.
#[derive(Clone, Copy, PartialEq, Eq, Structural, Debug)]
pub struct EvaluationKeySet {
    pub params: SchemeParameters,
    pub key_id: u64,
}

/// A public/private key pair generated together under one parameter set.
#[derive(Clone, Copy, PartialEq, Eq, Structural, Debug)]
pub struct KeyPair {
    pub public_key: PublicKey,
    pub private_key: PrivateKey,
}

impl KeyPair {
    /// Both halves come from one generation: same parameters, same identity.
    pub open spec fn wf(self) -> bool {
        &&& self.public_key.params == self.private_key.params
        &&& self.public_key.key_id == self.private_key.key_id
    }
}

/// The encrypted form of a plaintext, tagged by the parameters and public
/// key that produced it. `level` counts the multiplicative depth consumed.
#[derive(Clone, Copy, PartialEq, Eq, Structural, Debug)]
pub struct Ciphertext {
    pub params: SchemeParameters,
    pub key_id: u64,
    pub level: u32,
    pub scale_exp: u32,
    pub mantissa: i64,
}

/// Mantissa capacity of a ciphertext at a given consumed depth.
pub open spec fn level_capacity(level: u32) -> i64 {
    if level == 0 {
        FRESH_MANTISSA_BOUND
    } else {
        EVAL_MANTISSA_BOUND
    }
}

impl Plaintext {
    /// A plaintext the scheme can pack losslessly.
    pub open spec fn wf(self) -> bool {
        &&& -FRESH_MANTISSA_BOUND <= self.mantissa <= FRESH_MANTISSA_BOUND
        &&& self.scale_exp <= MAX_FRESH_SCALE_EXP
    }
}

impl Ciphertext {
    /// A ciphertext the scheme can still operate on: depth within the
    /// parameters' budget, scale and mantissa within capacity.
    pub open spec fn wf(self) -> bool {
        &&& self.level <= self.params.mult_depth
        &&& self.scale_exp <= MAX_CIPHER_SCALE_EXP
        &&& -level_capacity(self.level) <= self.mantissa <= level_capacity(self.level)
    }
}

/// What encryption under a public key yields.
pub open spec fn spec_encrypt(pk: PublicKey, pt: Plaintext) -> Ciphertext {
    Ciphertext {
        params: pk.params,
        key_id: pk.key_id,
        level: 0,
        scale_exp: pt.scale_exp,
        mantissa: pt.mantissa,
    }
}

/// What homomorphic addition yields: the mantissa sum at the deeper of the
/// two levels. Defined for ciphertexts under one key, at one scale.
pub open spec fn spec_eval_add(a: Ciphertext, b: Ciphertext) -> Ciphertext {
    Ciphertext {
        params: a.params,
        key_id: a.key_id,
        level: if a.level >= b.level {
            a.level
        } else {
            b.level
        },
        scale_exp: a.scale_exp,
        mantissa: (a.mantissa + b.mantissa) as i64,
    }
}

/// What homomorphic multiplication yields: the mantissa product, scale
/// exponents added, one more unit of depth consumed.
pub open spec fn spec_eval_mult(a: Ciphertext, b: Ciphertext) -> Ciphertext {
    Ciphertext {
        params: a.params,
        key_id: a.key_id,
        level: (a.level + b.level + 1) as u32,
        scale_exp: (a.scale_exp + b.scale_exp) as u32,
        mantissa: (a.mantissa * b.mantissa) as i64,
    }
}

/// What decryption with the matching private key recovers.
pub open spec fn spec_decrypt(c: Ciphertext) -> Plaintext {
    Plaintext { mantissa: c.mantissa, scale_exp: c.scale_exp }
}

/// The bundle of parameters and enabled features under which keys and
/// ciphertexts live. Multiplication requires the matching evaluation key
/// set to have been registered with the context first.
pub struct Context {
    pub params: SchemeParameters,
    pub registered_eval_keys: Option<EvaluationKeySet>,
}

impl Context {
    /// `GenerateContext`: a fresh context under the given parameters, with
    /// no evaluation keys registered yet.
    pub fn generate(params: SchemeParameters) -> (ctx: Context)
        ensures
            ctx.params == params,
            ctx.registered_eval_keys is None,
    {
        Context { params, registered_eval_keys: None }
    }

    /// `KeyGen`: a key pair under this context's parameters. Key identity
    /// is supplied by the caller's entropy source; the model states only
    /// what holds of every outcome of that source.
    pub fn key_gen(&self, key_id: u64) -> (kp: KeyPair)
        ensures
            kp.wf(),
            kp.public_key.params == self.params,
            kp.public_key.key_id == key_id,
    {
        KeyPair {
            public_key: PublicKey { params: self.params, key_id },
            private_key: PrivateKey { params: self.params, key_id },
        }
    }

    /// `EvalMultKeyGen`: derive the evaluation key set from a private key
    /// and register it with this context.
    pub fn eval_mult_key_gen(&mut self, sk: &PrivateKey) -> (ek: EvaluationKeySet)
        requires
            sk.params == old(self).params,
        ensures
            final(self).params == old(self).params,
            ek == (EvaluationKeySet { params: sk.params, key_id: sk.key_id }),
            final(self).registered_eval_keys == Some(ek),
    {
        let ek = EvaluationKeySet { params: sk.params, key_id: sk.key_id };
        self.registered_eval_keys = Some(ek);
        ek
    }

    /// Register evaluation key material received from a peer (the server's
    /// path after decoding the caller's keys).
    pub fn register_eval_keys(&mut self, ek: EvaluationKeySet)
        requires
            ek.params == old(self).params,
        ensures
            final(self).params == old(self).params,
            final(self).registered_eval_keys == Some(ek),
    {
        self.registered_eval_keys = Some(ek);
    }

    /// `Encrypt`: pack and encrypt a plaintext under a public key bound to
    /// this context's parameters.
    pub fn encrypt(&self, pk: &PublicKey, pt: &Plaintext) -> (c: Ciphertext)
        requires
            pk.params == self.params,
            pt.wf(),
        ensures
            c == spec_encrypt(*pk, *pt),
            c.wf(),
    {
        Ciphertext {
            params: pk.params,
            key_id: pk.key_id,
            level: 0,
            scale_exp: pt.scale_exp,
            mantissa: pt.mantissa,
        }
    }

    /// `EvalAdd`: add two ciphertexts produced under the same key and
    /// parameters, at the same scale. The sum must stay within the deeper
    /// level's capacity; the external engine's behaviour outside these
    /// preconditions is undefined, so they are demanded of every caller.
    pub fn eval_add(&self, a: &Ciphertext, b: &Ciphertext) -> (c: Ciphertext)
        requires
            a.wf(),
            b.wf(),
            a.params == self.params,
            b.params == self.params,
            a.key_id == b.key_id,
            a.scale_exp == b.scale_exp,
            -level_capacity(if a.level >= b.level {
                a.level
            } else {
                b.level
            }) <= a.mantissa + b.mantissa <= level_capacity(
                if a.level >= b.level {
                    a.level
                } else {
                    b.level
                },
            ),
        ensures
            c == spec_eval_add(*a, *b),
            c.wf(),
    {
        let level = if a.level >= b.level {
            a.level
        } else {
            b.level
        };
        Ciphertext {
            params: a.params,
            key_id: a.key_id,
            level,
            scale_exp: a.scale_exp,
            mantissa: a.mantissa + b.mantissa,
        }
    }

    /// `EvalMult`: multiply two ciphertexts produced under the same key and
    /// parameters. The matching evaluation key set must be registered with
    /// this context, the parameters' depth budget must cover one more
    /// multiplication, and the product must stay within capacity.
    pub fn eval_mult(&self, a: &Ciphertext, b: &Ciphertext) -> (c: Ciphertext)
        requires
            a.wf(),
            b.wf(),
            a.params == self.params,
            b.params == self.params,
            a.key_id == b.key_id,
            self.registered_eval_keys matches Some(ek) && ek.key_id == a.key_id
                && ek.params == self.params,
            a.level + b.level < self.params.mult_depth,
            a.scale_exp + b.scale_exp <= MAX_CIPHER_SCALE_EXP,
            -EVAL_MANTISSA_BOUND <= a.mantissa * b.mantissa <= EVAL_MANTISSA_BOUND,
        ensures
            c == spec_eval_mult(*a, *b),
            c.wf(),
    {
        Ciphertext {
            params: a.params,
            key_id: a.key_id,
            level: a.level + b.level + 1,
            scale_exp: a.scale_exp + b.scale_exp,
            mantissa: a.mantissa * b.mantissa,
        }
    }

    /// `Decrypt`: recover the plaintext of a ciphertext produced under the
    /// matching key pair. Decrypting under a foreign key is undefined in
    /// the external engine and forbidden here.
    pub fn decrypt(&self, sk: &PrivateKey, c: &Ciphertext) -> (pt: Plaintext)
        requires
            sk.params == self.params,
            c.params == self.params,
            sk.key_id == c.key_id,
        ensures
            pt == spec_decrypt(*c),
    {
        Plaintext { mantissa: c.mantissa, scale_exp: c.scale_exp }
    }
}

/// Additive homomorphism: decrypting the sum of two encryptions of `a` and
/// `b` under one key recovers `a + b`, at the shared scale. The model is
/// exact; the physical approximate scheme meets this within its configured
/// precision bound.
pub proof fn lemma_additive_homomorphism(pk: PublicKey, a: Plaintext, b: Plaintext)
    requires
        a.wf(),
        b.wf(),
        a.scale_exp == b.scale_exp,
        -FRESH_MANTISSA_BOUND <= a.mantissa + b.mantissa <= FRESH_MANTISSA_BOUND,
    ensures
        spec_decrypt(spec_eval_add(spec_encrypt(pk, a), spec_encrypt(pk, b))).mantissa
            == a.mantissa + b.mantissa,
        spec_decrypt(spec_eval_add(spec_encrypt(pk, a), spec_encrypt(pk, b))).scale_exp
            == a.scale_exp,
{
}

/// Multiplicative homomorphism: with the evaluation key set registered,
/// decrypting the product of two encryptions of `a` and `b` under one key
/// recovers `a × b`, at the summed scale. Exact in the model; within the
/// precision bound in the physical scheme.
pub proof fn lemma_multiplicative_homomorphism(
    ctx: Context,
    pk: PublicKey,
    a: Plaintext,
    b: Plaintext,
)
    requires
        a.wf(),
        b.wf(),
        pk.params == ctx.params,
        ctx.registered_eval_keys matches Some(ek) && ek.key_id == pk.key_id && ek.params
            == ctx.params,
        ctx.params.mult_depth >= 1,
        -EVAL_MANTISSA_BOUND <= a.mantissa * b.mantissa <= EVAL_MANTISSA_BOUND,
    ensures
        spec_decrypt(spec_eval_mult(spec_encrypt(pk, a), spec_encrypt(pk, b))).mantissa
            == a.mantissa * b.mantissa,
        spec_decrypt(spec_eval_mult(spec_encrypt(pk, a), spec_encrypt(pk, b))).scale_exp
            == a.scale_exp + b.scale_exp,
{
}

} // verus!

//! Compute server: evaluates the fixed business formula
//! `cost = fee + rate × distance` homomorphically on a caller's encrypted
//! reading, using only the caller's public material.
//!
//! Confidentiality boundary, by construction: nothing in this module
//! names `PrivateKey`, calls `decrypt`, or generates a key pair for the
//! caller — the server cannot learn the distance, the product, or the
//! cost. The service itself is stateless: each request is handled from a
//! fresh context and everything is discarded at response time, so one
//! malformed request cannot affect any other, and the response is a
//! function of the request alone.

use vstd::prelude::*;

use crate::codec::{
    decode_ciphertext, decode_eval_keys, decode_public_key, encode_ciphertext,
    lemma_ciphertext_round_trip, lemma_eval_keys_round_trip, lemma_public_key_round_trip,
    spec_decode_ciphertext, spec_decode_eval_keys, spec_decode_public_key,
    spec_encode_ciphertext, ComputationRequest, ComputationResult,
};
use crate::engine::{Ciphertext, Context, EvaluationKeySet, Plaintext, PublicKey};
use crate::errors::ProtocolError;
use crate::params::{spec_protocol_parameters, SchemeParameters, READING_SCALE_EXP};

verus! {

/// Usage rate per distance unit, packed at the protocol's reading scale:
/// 0.2 per unit.
pub const RATE_MANTISSA: i64 = 2000;

/// Flat fee, packed at twice the reading scale so it can be added to the
/// rate × distance product: 100.0.
pub const FEE_MANTISSA: i64 = 10_000_000_000;

/// Whether the three decoded artifacts of a request fit together and fit
/// this server: everything under the protocol parameters and one key, the
/// evaluation keys derived from that key, and the reading a fresh
/// encryption at the protocol's reading scale.
pub open spec fn spec_request_compatible(
    pk: PublicKey,
    ek: EvaluationKeySet,
    dist: Ciphertext,
) -> bool {
    &&& pk.params.compatible_with(spec_protocol_parameters())
    &&& ek.params.compatible_with(spec_protocol_parameters())
    &&& ek.key_id == pk.key_id
    &&& dist.params.compatible_with(spec_protocol_parameters())
    &&& dist.key_id == pk.key_id
    &&& dist.level == 0
    &&& dist.scale_exp == READING_SCALE_EXP
}

/// The result ciphertext the formula produces for a compatible request:
/// `fee + rate × distance` under the caller's key, one multiplication
/// deep, at twice the reading scale.
pub open spec fn spec_cost_ciphertext(pk: PublicKey, dist: Ciphertext) -> Ciphertext {
    Ciphertext {
        params: spec_protocol_parameters(),
        key_id: pk.key_id,
        level: 1,
        scale_exp: (2 * READING_SCALE_EXP) as u32,
        mantissa: (FEE_MANTISSA + RATE_MANTISSA * dist.mantissa) as i64,
    }
}

/// End to end: the cost ciphertext the server produces for a fresh
/// encryption of a reading decrypts, under the producer's key, to exactly
/// `fee + rate × reading` at twice the reading scale. Only the producer
/// can perform that decryption; the server's contract never involves a
/// private key.
pub proof fn lemma_cost_formula_correct(pk: PublicKey, reading_mantissa: i64)
    requires
        pk.params == spec_protocol_parameters(),
        -crate::engine::FRESH_MANTISSA_BOUND <= reading_mantissa
            <= crate::engine::FRESH_MANTISSA_BOUND,
    ensures
        ({
            let dist = crate::engine::spec_encrypt(
                pk,
                Plaintext { mantissa: reading_mantissa, scale_exp: READING_SCALE_EXP },
            );
            let ek = EvaluationKeySet { params: pk.params, key_id: pk.key_id };
            &&& spec_request_compatible(pk, ek, dist)
            &&& crate::engine::spec_decrypt(spec_cost_ciphertext(pk, dist)).mantissa
                == FEE_MANTISSA + RATE_MANTISSA * reading_mantissa
            &&& crate::engine::spec_decrypt(spec_cost_ciphertext(pk, dist)).scale_exp == 2
                * READING_SCALE_EXP
        }),
{
    assert(-0x4000_0000_0000_0000 <= FEE_MANTISSA + RATE_MANTISSA * reading_mantissa
        <= 0x4000_0000_0000_0000) by (nonlinear_arith)
        requires
            -crate::engine::FRESH_MANTISSA_BOUND <= reading_mantissa
                <= crate::engine::FRESH_MANTISSA_BOUND,
    ;
}

/// The RPC service: stateless, so concurrent requests share nothing.
#[derive(Default)]
pub struct MyEncryptionService {}

impl MyEncryptionService {
    pub fn new() -> (s: MyEncryptionService) {
        MyEncryptionService {  }
    }

    /// Handle one `ProcessEncryptedData` call: rebuild a fresh context,
    /// decode the caller's public key, evaluation keys and reading
    /// ciphertext, check that they belong together, evaluate
    /// `fee + rate × distance` on the ciphertexts, and serialize the
    /// result.
    ///
    /// Any artifact that fails to decode — including absent evaluation
    /// keys, which this formula cannot do without — is `DecodeError`;
    /// artifacts that decode but do not fit together or do not fit the
    /// protocol parameters are `SchemeMismatchError`, a case the external
    /// engine would have turned into silent garbage. Errors affect this
    /// request alone.
    pub fn process_encrypted_data(&self, request: &ComputationRequest) -> (r: Result<
        ComputationResult,
        ProtocolError,
    >)
        ensures
            match r {
                Ok(res) => {
                    &&& spec_decode_public_key(request.pub_key@) matches Some(pk)
                    &&& spec_decode_eval_keys(request.mul_eval_keys@) matches Some(ek)
                    &&& spec_decode_ciphertext(request.vss_odometer_cipher@) matches Some(dist)
                    &&& spec_request_compatible(pk, ek, dist)
                    &&& res.cost_cipher@ == spec_encode_ciphertext(spec_cost_ciphertext(pk, dist))
                },
                Err(ProtocolError::DecodeError) => {
                    ||| spec_decode_public_key(request.pub_key@) is None
                    ||| spec_decode_eval_keys(request.mul_eval_keys@) is None
                    ||| spec_decode_ciphertext(request.vss_odometer_cipher@) is None
                },
                Err(ProtocolError::SchemeMismatchError) => {
                    &&& spec_decode_public_key(request.pub_key@) matches Some(pk)
                    &&& spec_decode_eval_keys(request.mul_eval_keys@) matches Some(ek)
                    &&& spec_decode_ciphertext(request.vss_odometer_cipher@) matches Some(dist)
                    &&& !spec_request_compatible(pk, ek, dist)
                },
                Err(_) => false,
            },
    {
        let params = SchemeParameters::protocol();
        let mut ctx = Context::generate(params);

        let pk = match decode_public_key(&request.pub_key) {
            Ok(pk) => {
                proof {
                    lemma_public_key_round_trip(pk);
                }
                pk
            },
            Err(e) => {
                return Err(e);
            },
        };
        let ek = match decode_eval_keys(&request.mul_eval_keys) {
            Ok(ek) => {
                proof {
                    lemma_eval_keys_round_trip(ek);
                }
                ek
            },
            Err(e) => {
                return Err(e);
            },
        };
        let dist = match decode_ciphertext(&request.vss_odometer_cipher) {
            Ok(c) => {
                proof {
                    lemma_ciphertext_round_trip(c);
                }
                c
            },
            Err(e) => {
                return Err(e);
            },
        };

        let compatible = pk.params == params && ek.params == params && ek.key_id == pk.key_id
            && dist.params == params && dist.key_id == pk.key_id && dist.level == 0
            && dist.scale_exp == READING_SCALE_EXP;
        if !compatible {
            return Err(ProtocolError::SchemeMismatchError);
        }

        ctx.register_eval_keys(ek);

        let rate_pt = Plaintext { mantissa: RATE_MANTISSA, scale_exp: READING_SCALE_EXP };
        let fee_pt = Plaintext { mantissa: FEE_MANTISSA, scale_exp: 2 * READING_SCALE_EXP };
        let rate_cipher = ctx.encrypt(&pk, &rate_pt);
        let fee_cipher = ctx.encrypt(&pk, &fee_pt);

        proof {
            assert(-crate::engine::EVAL_MANTISSA_BOUND <= RATE_MANTISSA * dist.mantissa
                && RATE_MANTISSA * dist.mantissa <= crate::engine::EVAL_MANTISSA_BOUND - FEE_MANTISSA)
                by (nonlinear_arith)
                requires
                    -crate::engine::FRESH_MANTISSA_BOUND <= dist.mantissa
                        <= crate::engine::FRESH_MANTISSA_BOUND,
            ;
        }
        let product = ctx.eval_mult(&rate_cipher, &dist);
        let cost = ctx.eval_add(&fee_cipher, &product);

        Ok(ComputationResult { cost_cipher: encode_ciphertext(&cost) })
    }
}

} // verus!

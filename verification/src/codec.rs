//! Ciphertext exchange codec: bidirectional conversion between in-memory
//! cryptographic artifacts and their transport-safe wire strings.
//!
//! The wire contract is a fixed-width ASCII grammar: a two-byte artifact
//! tag, then the scheme parameters, then the artifact's fields as
//! fixed-width decimal numbers. Every number is written canonically, so an
//! artifact has exactly one wire form, decoding is its inverse, and any
//! malformed or truncated input is rejected with `DecodeError` rather than
//! handed to the engine. There is deliberately no entry point that accepts
//! a `PrivateKey`: private material has no wire form.

use vstd::prelude::*;

use crate::digits::{
    dec_digits, is_dec_digit, lemma_dec_digits_props, lemma_dec_digits_unique,
    lemma_dec_value_bound, lemma_pow10_increases, lemma_pow10_values, parse_dec_u128, pow10,
    push_dec_u64,
};
use crate::engine::{level_capacity, Ciphertext, EvaluationKeySet, PublicKey};
use crate::errors::ProtocolError;
use crate::params::{SchemeFamily, SchemeParameters};

verus! {

/// The wire entity carrying a producer's serialized artifacts to the
/// compute server: the encrypted reading, the public key, and the
/// multiplication evaluation keys (empty when no multiplication is asked
/// of the server).
pub struct ComputationRequest {
    pub vss_odometer_cipher: Vec<u8>,
    pub pub_key: Vec<u8>,
    pub mul_eval_keys: Vec<u8>,
}

/// The wire entity carrying the serialized result ciphertext back.
pub struct ComputationResult {
    pub cost_cipher: Vec<u8>,
}

/// Wire length of a serialized public key or evaluation key set.
pub const KEY_WIRE_LEN: usize = 53;

/// Wire length of a serialized ciphertext.
pub const CIPHERTEXT_WIRE_LEN: usize = 93;

/// One digit naming the scheme family.
pub open spec fn family_code(f: SchemeFamily) -> nat {
    match f {
        SchemeFamily::ApproximateFixedPoint => 0,
        SchemeFamily::ExactModular => 1,
    }
}

/// Scheme parameters on the wire: family digit, then depth, scaling
/// precision and batch width as ten digits each.
pub open spec fn spec_encode_params(p: SchemeParameters) -> Seq<u8> {
    dec_digits(family_code(p.family), 1) + dec_digits(p.mult_depth as nat, 10) + dec_digits(
        p.scale_mod_size as nat,
        10,
    ) + dec_digits(p.batch_size as nat, 10)
}

/// A public key on the wire: tag `PK`, parameters, key identity.
pub open spec fn spec_encode_public_key(pk: PublicKey) -> Seq<u8> {
    seq![80u8, 75u8] + spec_encode_params(pk.params) + dec_digits(pk.key_id as nat, 20)
}

/// An evaluation key set on the wire: tag `EK`, parameters, key identity.
pub open spec fn spec_encode_eval_keys(ek: EvaluationKeySet) -> Seq<u8> {
    seq![69u8, 75u8] + spec_encode_params(ek.params) + dec_digits(ek.key_id as nat, 20)
}

pub open spec fn mantissa_magnitude(m: i64) -> nat {
    if m < 0 {
        (-(m as int)) as nat
    } else {
        m as nat
    }
}

pub open spec fn sign_byte(m: i64) -> u8 {
    if m < 0 {
        45
    } else {
        43
    }
}

/// A ciphertext on the wire: tag `CT`, parameters, key identity, consumed
/// depth, scale exponent, and the signed mantissa.
pub open spec fn spec_encode_ciphertext(c: Ciphertext) -> Seq<u8> {
    seq![67u8, 84u8] + spec_encode_params(c.params) + dec_digits(c.key_id as nat, 20) + dec_digits(
        c.level as nat,
        10,
    ) + dec_digits(c.scale_exp as nat, 10) + seq![sign_byte(c.mantissa)] + dec_digits(
        mantissa_magnitude(c.mantissa),
        19,
    )
}

/// What decoding a public key string yields: the unique preimage under the
/// wire encoding, if there is one.
pub open spec fn spec_decode_public_key(s: Seq<u8>) -> Option<PublicKey> {
    if exists|pk: PublicKey| s == spec_encode_public_key(pk) {
        Some(choose|pk: PublicKey| s == spec_encode_public_key(pk))
    } else {
        None
    }
}

pub open spec fn spec_decode_eval_keys(s: Seq<u8>) -> Option<EvaluationKeySet> {
    if exists|ek: EvaluationKeySet| s == spec_encode_eval_keys(ek) {
        Some(choose|ek: EvaluationKeySet| s == spec_encode_eval_keys(ek))
    } else {
        None
    }
}

/// Only well-formed ciphertexts have a wire form, so decoding also
/// re-establishes well-formedness for the receiver.
pub open spec fn spec_decode_ciphertext(s: Seq<u8>) -> Option<Ciphertext> {
    if exists|c: Ciphertext| c.wf() && s == spec_encode_ciphertext(c) {
        Some(choose|c: Ciphertext| c.wf() && s == spec_encode_ciphertext(c))
    } else {
        None
    }
}

/// Shape of an encoded parameter block: 31 bytes, a family digit followed
/// by three canonical ten-digit fields.
proof fn lemma_params_shape(p: SchemeParameters)
    ensures
        spec_encode_params(p).len() == 31,
        spec_encode_params(p)[0] == 48 + family_code(p.family),
        spec_encode_params(p).subrange(1, 11) == dec_digits(p.mult_depth as nat, 10),
        spec_encode_params(p).subrange(11, 21) == dec_digits(p.scale_mod_size as nat, 10),
        spec_encode_params(p).subrange(21, 31) == dec_digits(p.batch_size as nat, 10),
{
    lemma_pow10_values();
    lemma_pow10_increases(1, 10);
    lemma_dec_digits_props(family_code(p.family), 1);
    lemma_dec_digits_props(p.mult_depth as nat, 10);
    lemma_dec_digits_props(p.scale_mod_size as nat, 10);
    lemma_dec_digits_props(p.batch_size as nat, 10);
    let s = spec_encode_params(p);
    assert(dec_digits(family_code(p.family), 1) == Seq::<u8>::empty().push(
        (48 + family_code(p.family)) as u8,
    ));
    assert(s.subrange(1, 11) =~= dec_digits(p.mult_depth as nat, 10));
    assert(s.subrange(11, 21) =~= dec_digits(p.scale_mod_size as nat, 10));
    assert(s.subrange(21, 31) =~= dec_digits(p.batch_size as nat, 10));
}

/// Shape of an encoded public key: 53 bytes, tag then parameters then the
/// canonical key identity.
proof fn lemma_public_key_shape(pk: PublicKey)
    ensures
        spec_encode_public_key(pk).len() == KEY_WIRE_LEN as int,
        spec_encode_public_key(pk)[0] == 80,
        spec_encode_public_key(pk)[1] == 75,
        spec_encode_public_key(pk).subrange(2, 33) == spec_encode_params(pk.params),
        spec_encode_public_key(pk).subrange(33, 53) == dec_digits(pk.key_id as nat, 20),
{
    lemma_pow10_values();
    lemma_params_shape(pk.params);
    lemma_dec_digits_props(pk.key_id as nat, 20);
    let s = spec_encode_public_key(pk);
    assert(s.subrange(2, 33) =~= spec_encode_params(pk.params));
    assert(s.subrange(33, 53) =~= dec_digits(pk.key_id as nat, 20));
}

proof fn lemma_eval_keys_shape(ek: EvaluationKeySet)
    ensures
        spec_encode_eval_keys(ek).len() == KEY_WIRE_LEN as int,
        spec_encode_eval_keys(ek)[0] == 69,
        spec_encode_eval_keys(ek)[1] == 75,
        spec_encode_eval_keys(ek).subrange(2, 33) == spec_encode_params(ek.params),
        spec_encode_eval_keys(ek).subrange(33, 53) == dec_digits(ek.key_id as nat, 20),
{
    lemma_pow10_values();
    lemma_params_shape(ek.params);
    lemma_dec_digits_props(ek.key_id as nat, 20);
    let s = spec_encode_eval_keys(ek);
    assert(s.subrange(2, 33) =~= spec_encode_params(ek.params));
    assert(s.subrange(33, 53) =~= dec_digits(ek.key_id as nat, 20));
}

/// Shape of an encoded well-formed ciphertext: 93 bytes, tag, parameters,
/// key identity, depth, scale, sign and canonical magnitude.
proof fn lemma_ciphertext_shape(c: Ciphertext)
    requires
        c.wf(),
    ensures
        spec_encode_ciphertext(c).len() == CIPHERTEXT_WIRE_LEN as int,
        spec_encode_ciphertext(c)[0] == 67,
        spec_encode_ciphertext(c)[1] == 84,
        spec_encode_ciphertext(c).subrange(2, 33) == spec_encode_params(c.params),
        spec_encode_ciphertext(c).subrange(33, 53) == dec_digits(c.key_id as nat, 20),
        spec_encode_ciphertext(c).subrange(53, 63) == dec_digits(c.level as nat, 10),
        spec_encode_ciphertext(c).subrange(63, 73) == dec_digits(c.scale_exp as nat, 10),
        spec_encode_ciphertext(c)[73] == sign_byte(c.mantissa),
        spec_encode_ciphertext(c).subrange(74, 93) == dec_digits(mantissa_magnitude(c.mantissa), 19),
        mantissa_magnitude(c.mantissa) < pow10(19),
{
    lemma_pow10_values();
    lemma_params_shape(c.params);
    lemma_dec_digits_props(c.key_id as nat, 20);
    lemma_dec_digits_props(c.level as nat, 10);
    lemma_dec_digits_props(c.scale_exp as nat, 10);
    assert(mantissa_magnitude(c.mantissa) < pow10(19));
    lemma_dec_digits_props(mantissa_magnitude(c.mantissa), 19);
    let s = spec_encode_ciphertext(c);
    assert(s.subrange(2, 33) =~= spec_encode_params(c.params));
    assert(s.subrange(33, 53) =~= dec_digits(c.key_id as nat, 20));
    assert(s.subrange(53, 63) =~= dec_digits(c.level as nat, 10));
    assert(s.subrange(63, 73) =~= dec_digits(c.scale_exp as nat, 10));
    assert(s.subrange(74, 93) =~= dec_digits(mantissa_magnitude(c.mantissa), 19));
}

/// Append the 31-byte parameter block.
fn push_params(out: &mut Vec<u8>, p: &SchemeParameters)
    ensures
        final(out)@ == old(out)@ + spec_encode_params(*p),
{
    proof {
        lemma_pow10_values();
        lemma_pow10_increases(1, 10);
    }
    let family_digit: u64 = match p.family {
        SchemeFamily::ApproximateFixedPoint => 0,
        SchemeFamily::ExactModular => 1,
    };
    push_dec_u64(out, family_digit, 1);
    push_dec_u64(out, p.mult_depth as u64, 10);
    push_dec_u64(out, p.scale_mod_size as u64, 10);
    push_dec_u64(out, p.batch_size as u64, 10);
    assert(final(out)@ =~= old(out)@ + spec_encode_params(*p));
}

/// `Encode` for a public key.
pub fn encode_public_key(pk: &PublicKey) -> (out: Vec<u8>)
    ensures
        out@ == spec_encode_public_key(*pk),
{
    proof {
        lemma_pow10_values();
    }
    let mut out: Vec<u8> = Vec::new();
    out.push(80);
    out.push(75);
    push_params(&mut out, &pk.params);
    push_dec_u64(&mut out, pk.key_id, 20);
    assert(out@ =~= spec_encode_public_key(*pk));
    out
}

/// `Encode` for an evaluation key set.
pub fn encode_eval_keys(ek: &EvaluationKeySet) -> (out: Vec<u8>)
    ensures
        out@ == spec_encode_eval_keys(*ek),
{
    proof {
        lemma_pow10_values();
    }
    let mut out: Vec<u8> = Vec::new();
    out.push(69);
    out.push(75);
    push_params(&mut out, &ek.params);
    push_dec_u64(&mut out, ek.key_id, 20);
    assert(out@ =~= spec_encode_eval_keys(*ek));
    out
}

/// `Encode` for a well-formed ciphertext.
pub fn encode_ciphertext(c: &Ciphertext) -> (out: Vec<u8>)
    requires
        c.wf(),
    ensures
        out@ == spec_encode_ciphertext(*c),
{
    proof {
        lemma_pow10_values();
        lemma_pow10_increases(19, 20);
    }
    let mut out: Vec<u8> = Vec::new();
    out.push(67);
    out.push(84);
    push_params(&mut out, &c.params);
    push_dec_u64(&mut out, c.key_id, 20);
    push_dec_u64(&mut out, c.level as u64, 10);
    push_dec_u64(&mut out, c.scale_exp as u64, 10);
    let magnitude: u64;
    if c.mantissa < 0 {
        out.push(45);
        magnitude = (-c.mantissa) as u64;
    } else {
        out.push(43);
        magnitude = c.mantissa as u64;
    }
    push_dec_u64(&mut out, magnitude, 19);
    assert(out@ =~= spec_encode_ciphertext(*c));
    out
}

/// Read the 31-byte parameter block at `start`. Returns the parameters
/// exactly when the bytes are some parameter value's canonical block.
#[verifier::rlimit(50)]
fn parse_params(v: &Vec<u8>, start: usize) -> (r: Option<SchemeParameters>)
    requires
        start + 31 <= v.len(),
    ensures
        match r {
            Some(p) => v@.subrange(start as int, start + 31) == spec_encode_params(p),
            None => forall|p: SchemeParameters|
                v@.subrange(start as int, start + 31) != spec_encode_params(p),
        },
{
    let ghost block = v@.subrange(start as int, start + 31);
    proof {
        lemma_pow10_values();
    }
    let family_byte = v[start];
    let family: SchemeFamily;
    if family_byte == 48 {
        family = SchemeFamily::ApproximateFixedPoint;
    } else if family_byte == 49 {
        family = SchemeFamily::ExactModular;
    } else {
        proof {
            assert forall|p: SchemeParameters| block != spec_encode_params(p) by {
                if block == spec_encode_params(p) {
                    lemma_params_shape(p);
                    assert(block[0] == 48 + family_code(p.family));
                }
            }
        }
        return None;
    }
    let depth = parse_field_u32(v, start + 1);
    let scale = parse_field_u32(v, start + 11);
    let batch = parse_field_u32(v, start + 21);
    match (depth, scale, batch) {
        (Some(mult_depth), Some(scale_mod_size), Some(batch_size)) => {
            let p = SchemeParameters { family, mult_depth, scale_mod_size, batch_size };
            proof {
                lemma_params_shape(p);
                assert(block =~= spec_encode_params(p));
            }
            Some(p)
        },
        _ => {
            proof {
                assert forall|p: SchemeParameters| block != spec_encode_params(p) by {
                    if block == spec_encode_params(p) {
                        lemma_params_shape(p);
                        lemma_dec_digits_props(p.mult_depth as nat, 10);
                        lemma_dec_digits_props(p.scale_mod_size as nat, 10);
                        lemma_dec_digits_props(p.batch_size as nat, 10);
                        assert(v@.subrange(start + 1, start + 11) =~= block.subrange(1, 11));
                        assert(v@.subrange(start + 11, start + 21) =~= block.subrange(11, 21));
                        assert(v@.subrange(start + 21, start + 31) =~= block.subrange(21, 31));
                    }
                }
            }
            None
        },
    }
}

/// Read a canonical ten-digit `u32` field at `start`.
fn parse_field_u32(v: &Vec<u8>, start: usize) -> (r: Option<u32>)
    requires
        start + 10 <= v.len(),
    ensures
        match r {
            Some(x) => v@.subrange(start as int, start + 10) == dec_digits(x as nat, 10),
            None => forall|x: u32|
                v@.subrange(start as int, start + 10) != #[trigger] dec_digits(x as nat, 10),
        },
{
    let ghost field = v@.subrange(start as int, start + 10);
    proof {
        lemma_pow10_values();
    }
    match parse_dec_u128(v, start, 10) {
        Some(x) => {
            proof {
                lemma_dec_value_bound(field);
                lemma_pow10_increases(10, 30);
            }
            if x <= 0xffff_ffff {
                proof {
                    lemma_dec_digits_unique(field, 10);
                }
                Some(x as u32)
            } else {
                proof {
                    assert forall|y: u32| field != #[trigger] dec_digits(y as nat, 10) by {
                        if field == dec_digits(y as nat, 10) {
                            lemma_dec_digits_props(y as nat, 10);
                        }
                    }
                }
                None
            }
        },
        None => {
            proof {
                assert forall|y: u32| field != #[trigger] dec_digits(y as nat, 10) by {
                    if field == dec_digits(y as nat, 10) {
                        lemma_dec_digits_props(y as nat, 10);
                    }
                }
            }
            None
        },
    }
}

/// Read a canonical twenty-digit `u64` field at `start`.
fn parse_field_u64(v: &Vec<u8>, start: usize) -> (r: Option<u64>)
    requires
        start + 20 <= v.len(),
    ensures
        match r {
            Some(x) => v@.subrange(start as int, start + 20) == dec_digits(x as nat, 20),
            None => forall|x: u64|
                v@.subrange(start as int, start + 20) != #[trigger] dec_digits(x as nat, 20),
        },
{
    let ghost field = v@.subrange(start as int, start + 20);
    proof {
        lemma_pow10_values();
    }
    match parse_dec_u128(v, start, 20) {
        Some(x) => {
            proof {
                lemma_dec_value_bound(field);
                lemma_pow10_increases(20, 30);
            }
            if x <= 0xffff_ffff_ffff_ffff {
                proof {
                    lemma_dec_digits_unique(field, 20);
                }
                Some(x as u64)
            } else {
                proof {
                    assert forall|y: u64| field != #[trigger] dec_digits(y as nat, 20) by {
                        if field == dec_digits(y as nat, 20) {
                            lemma_dec_digits_props(y as nat, 20);
                        }
                    }
                }
                None
            }
        },
        None => {
            proof {
                assert forall|y: u64| field != #[trigger] dec_digits(y as nat, 20) by {
                    if field == dec_digits(y as nat, 20) {
                        lemma_dec_digits_props(y as nat, 20);
                    }
                }
            }
            None
        },
    }
}

/// `Decode` targeting a public key. Succeeds exactly on the wire form of
/// some public key and returns that key; anything else is `DecodeError`.
pub fn decode_public_key(bytes: &Vec<u8>) -> (r: Result<PublicKey, ProtocolError>)
    ensures
        match r {
            Ok(pk) => bytes@ == spec_encode_public_key(pk),
            Err(e) => {
                &&& e == ProtocolError::DecodeError
                &&& forall|pk: PublicKey| bytes@ != #[trigger] spec_encode_public_key(pk)
            },
        },
{
    if bytes.len() != KEY_WIRE_LEN {
        proof {
            assert forall|pk: PublicKey| bytes@ != spec_encode_public_key(pk) by {
                if bytes@ == spec_encode_public_key(pk) {
                    lemma_public_key_shape(pk);
                }
            }
        }
        return Err(ProtocolError::DecodeError);
    }
    if bytes[0] != 80 || bytes[1] != 75 {
        proof {
            assert forall|pk: PublicKey| bytes@ != spec_encode_public_key(pk) by {
                if bytes@ == spec_encode_public_key(pk) {
                    lemma_public_key_shape(pk);
                }
            }
        }
        return Err(ProtocolError::DecodeError);
    }
    let params = parse_params(bytes, 2);
    let key = parse_field_u64(bytes, 33);
    match (params, key) {
        (Some(p), Some(key_id)) => {
            let pk = PublicKey { params: p, key_id };
            proof {
                lemma_public_key_shape(pk);
                assert(bytes@ =~= spec_encode_public_key(pk));
            }
            Ok(pk)
        },
        _ => {
            proof {
                assert forall|pk: PublicKey| bytes@ != spec_encode_public_key(pk) by {
                    if bytes@ == spec_encode_public_key(pk) {
                        lemma_public_key_shape(pk);
                        assert(bytes@.subrange(2, 33) =~= spec_encode_params(pk.params));
                        assert(bytes@.subrange(33, 53) =~= dec_digits(pk.key_id as nat, 20));
                    }
                }
            }
            Err(ProtocolError::DecodeError)
        },
    }
}

/// `Decode` targeting an evaluation key set.
pub fn decode_eval_keys(bytes: &Vec<u8>) -> (r: Result<EvaluationKeySet, ProtocolError>)
    ensures
        match r {
            Ok(ek) => bytes@ == spec_encode_eval_keys(ek),
            Err(e) => {
                &&& e == ProtocolError::DecodeError
                &&& forall|ek: EvaluationKeySet| bytes@ != #[trigger] spec_encode_eval_keys(ek)
            },
        },
{
    if bytes.len() != KEY_WIRE_LEN {
        proof {
            assert forall|ek: EvaluationKeySet| bytes@ != spec_encode_eval_keys(ek) by {
                if bytes@ == spec_encode_eval_keys(ek) {
                    lemma_eval_keys_shape(ek);
                }
            }
        }
        return Err(ProtocolError::DecodeError);
    }
    if bytes[0] != 69 || bytes[1] != 75 {
        proof {
            assert forall|ek: EvaluationKeySet| bytes@ != spec_encode_eval_keys(ek) by {
                if bytes@ == spec_encode_eval_keys(ek) {
                    lemma_eval_keys_shape(ek);
                }
            }
        }
        return Err(ProtocolError::DecodeError);
    }
    let params = parse_params(bytes, 2);
    let key = parse_field_u64(bytes, 33);
    match (params, key) {
        (Some(p), Some(key_id)) => {
            let ek = EvaluationKeySet { params: p, key_id };
            proof {
                lemma_eval_keys_shape(ek);
                assert(bytes@ =~= spec_encode_eval_keys(ek));
            }
            Ok(ek)
        },
        _ => {
            proof {
                assert forall|ek: EvaluationKeySet| bytes@ != spec_encode_eval_keys(ek) by {
                    if bytes@ == spec_encode_eval_keys(ek) {
                        lemma_eval_keys_shape(ek);
                        assert(bytes@.subrange(2, 33) =~= spec_encode_params(ek.params));
                        assert(bytes@.subrange(33, 53) =~= dec_digits(ek.key_id as nat, 20));
                    }
                }
            }
            Err(ProtocolError::DecodeError)
        },
    }
}

/// `Decode` targeting a ciphertext. Succeeds exactly on the wire form of a
/// well-formed ciphertext, so the receiver gets well-formedness along with
/// the value; anything else is `DecodeError`.
pub fn decode_ciphertext(bytes: &Vec<u8>) -> (r: Result<Ciphertext, ProtocolError>)
    ensures
        match r {
            Ok(c) => c.wf() && bytes@ == spec_encode_ciphertext(c),
            Err(e) => {
                &&& e == ProtocolError::DecodeError
                &&& forall|c: Ciphertext|
                    c.wf() ==> bytes@ != #[trigger] spec_encode_ciphertext(c)
            },
        },
{
    if bytes.len() != CIPHERTEXT_WIRE_LEN || bytes[0] != 67 || bytes[1] != 84 {
        proof {
            assert forall|c: Ciphertext| c.wf() implies bytes@ != spec_encode_ciphertext(c) by {
                if bytes@ == spec_encode_ciphertext(c) {
                    lemma_ciphertext_shape(c);
                }
            }
        }
        return Err(ProtocolError::DecodeError);
    }
    let params = parse_params(bytes, 2);
    let key = parse_field_u64(bytes, 33);
    let level_field = parse_field_u32(bytes, 53);
    let scale_field = parse_field_u32(bytes, 63);
    let sign = bytes[73];
    let magnitude_field = parse_dec_u128(bytes, 74, 19);
    proof {
        lemma_pow10_values();
    }
    match (params, key, level_field, scale_field, magnitude_field) {
        (Some(p), Some(key_id), Some(level), Some(scale_exp), Some(mag)) => {
            let ghost mag_bytes = bytes@.subrange(74, 93);
            proof {
                lemma_dec_value_bound(mag_bytes);
            }
            let capacity = if level == 0 {
                crate::engine::FRESH_MANTISSA_BOUND
            } else {
                crate::engine::EVAL_MANTISSA_BOUND
            };
            let ok_shape = (sign == 43 || (sign == 45 && mag > 0)) && level <= p.mult_depth
                && scale_exp <= crate::engine::MAX_CIPHER_SCALE_EXP && mag <= capacity as u128;
            if ok_shape {
                let mantissa: i64 = if sign == 45 {
                    -(mag as i64)
                } else {
                    mag as i64
                };
                let c = Ciphertext { params: p, key_id, level, scale_exp, mantissa };
                proof {
                    assert(mantissa_magnitude(mantissa) == mag);
                    lemma_dec_digits_unique(mag_bytes, 19);
                    lemma_ciphertext_shape(c);
                    assert(bytes@ =~= spec_encode_ciphertext(c));
                }
                Ok(c)
            } else {
                proof {
                    assert forall|c: Ciphertext|
                        c.wf() implies bytes@ != spec_encode_ciphertext(c) by {
                        if bytes@ == spec_encode_ciphertext(c) {
                            lemma_ciphertext_shape(c);
                            lemma_params_injective(p, c.params);
                            lemma_dec_digits_props(mantissa_magnitude(c.mantissa), 19);
                            lemma_dec_digits_props(c.level as nat, 10);
                            lemma_dec_digits_props(level as nat, 10);
                            lemma_dec_digits_props(c.scale_exp as nat, 10);
                            lemma_dec_digits_props(scale_exp as nat, 10);
                            assert(level == c.level);
                            assert(scale_exp == c.scale_exp);
                            assert(mag == mantissa_magnitude(c.mantissa));
                            assert(sign == sign_byte(c.mantissa));
                            assert(capacity == level_capacity(c.level));
                        }
                    }
                }
                Err(ProtocolError::DecodeError)
            }
        },
        _ => {
            proof {
                assert forall|c: Ciphertext| c.wf() implies bytes@ != spec_encode_ciphertext(c) by {
                    if bytes@ == spec_encode_ciphertext(c) {
                        lemma_ciphertext_shape(c);
                        assert(bytes@.subrange(2, 33) =~= spec_encode_params(c.params));
                        assert(bytes@.subrange(33, 53) =~= dec_digits(c.key_id as nat, 20));
                        assert(bytes@.subrange(53, 63) =~= dec_digits(c.level as nat, 10));
                        assert(bytes@.subrange(63, 73) =~= dec_digits(c.scale_exp as nat, 10));
                        lemma_dec_digits_props(mantissa_magnitude(c.mantissa), 19);
                        assert(bytes@.subrange(74, 93) =~= dec_digits(
                            mantissa_magnitude(c.mantissa),
                            19,
                        ));
                    }
                }
            }
            Err(ProtocolError::DecodeError)
        },
    }
}

/// Encoding is injective on public keys.
pub proof fn lemma_encode_public_key_injective(a: PublicKey, b: PublicKey)
    requires
        spec_encode_public_key(a) == spec_encode_public_key(b),
    ensures
        a == b,
{
    lemma_public_key_shape(a);
    lemma_public_key_shape(b);
    lemma_params_injective(a.params, b.params);
    lemma_pow10_values();
    lemma_dec_digits_props(a.key_id as nat, 20);
    lemma_dec_digits_props(b.key_id as nat, 20);
}

/// Encoding is injective on evaluation key sets.
pub proof fn lemma_encode_eval_keys_injective(a: EvaluationKeySet, b: EvaluationKeySet)
    requires
        spec_encode_eval_keys(a) == spec_encode_eval_keys(b),
    ensures
        a == b,
{
    lemma_eval_keys_shape(a);
    lemma_eval_keys_shape(b);
    lemma_params_injective(a.params, b.params);
    lemma_pow10_values();
    lemma_dec_digits_props(a.key_id as nat, 20);
    lemma_dec_digits_props(b.key_id as nat, 20);
}

/// Encoding is injective on well-formed ciphertexts.
pub proof fn lemma_encode_ciphertext_injective(a: Ciphertext, b: Ciphertext)
    requires
        a.wf(),
        b.wf(),
        spec_encode_ciphertext(a) == spec_encode_ciphertext(b),
    ensures
        a == b,
{
    lemma_ciphertext_shape(a);
    lemma_ciphertext_shape(b);
    lemma_params_injective(a.params, b.params);
    lemma_pow10_values();
    lemma_dec_digits_props(a.key_id as nat, 20);
    lemma_dec_digits_props(b.key_id as nat, 20);
    lemma_dec_digits_props(a.level as nat, 10);
    lemma_dec_digits_props(b.level as nat, 10);
    lemma_dec_digits_props(a.scale_exp as nat, 10);
    lemma_dec_digits_props(b.scale_exp as nat, 10);
    lemma_dec_digits_props(mantissa_magnitude(a.mantissa), 19);
    lemma_dec_digits_props(mantissa_magnitude(b.mantissa), 19);
    assert(sign_byte(a.mantissa) == sign_byte(b.mantissa));
    assert(mantissa_magnitude(a.mantissa) == mantissa_magnitude(b.mantissa));
}

proof fn lemma_params_injective(a: SchemeParameters, b: SchemeParameters)
    requires
        spec_encode_params(a) == spec_encode_params(b),
    ensures
        a == b,
{
    lemma_params_shape(a);
    lemma_params_shape(b);
    lemma_pow10_values();
    lemma_dec_digits_props(a.mult_depth as nat, 10);
    lemma_dec_digits_props(b.mult_depth as nat, 10);
    lemma_dec_digits_props(a.scale_mod_size as nat, 10);
    lemma_dec_digits_props(b.scale_mod_size as nat, 10);
    lemma_dec_digits_props(a.batch_size as nat, 10);
    lemma_dec_digits_props(b.batch_size as nat, 10);
}

/// Transport safety: every byte is printable ASCII.
pub open spec fn printable_ascii(s: Seq<u8>) -> bool {
    forall|i: int| 0 <= i < s.len() ==> 32 <= #[trigger] s[i] < 127
}

proof fn lemma_params_block_printable(p: SchemeParameters)
    ensures
        forall|i: int|
            0 <= i < 31 ==> is_dec_digit(#[trigger] spec_encode_params(p)[i]),
{
    lemma_params_shape(p);
    lemma_pow10_values();
    lemma_dec_digits_props(p.mult_depth as nat, 10);
    lemma_dec_digits_props(p.scale_mod_size as nat, 10);
    lemma_dec_digits_props(p.batch_size as nat, 10);
    let s = spec_encode_params(p);
    assert forall|i: int| 0 <= i < 31 implies is_dec_digit(#[trigger] s[i]) by {
        if i == 0 {
            assert(s[0] == 48 + family_code(p.family));
        } else if i < 11 {
            assert(s[i] == dec_digits(p.mult_depth as nat, 10)[i - 1]);
        } else if i < 21 {
            assert(s[i] == dec_digits(p.scale_mod_size as nat, 10)[i - 11]);
        } else {
            assert(s[i] == dec_digits(p.batch_size as nat, 10)[i - 21]);
        }
    }
}

/// The wire forms are transport-safe: nothing but printable ASCII, so
/// they can travel as the string fields of the RPC schema.
pub proof fn lemma_wire_forms_are_printable(pk: PublicKey, ek: EvaluationKeySet, c: Ciphertext)
    requires
        c.wf(),
    ensures
        printable_ascii(spec_encode_public_key(pk)),
        printable_ascii(spec_encode_eval_keys(ek)),
        printable_ascii(spec_encode_ciphertext(c)),
{
    lemma_pow10_values();
    lemma_public_key_shape(pk);
    lemma_eval_keys_shape(ek);
    lemma_ciphertext_shape(c);
    lemma_params_block_printable(pk.params);
    lemma_params_block_printable(ek.params);
    lemma_params_block_printable(c.params);
    lemma_dec_digits_props(pk.key_id as nat, 20);
    lemma_dec_digits_props(ek.key_id as nat, 20);
    lemma_dec_digits_props(c.key_id as nat, 20);
    lemma_dec_digits_props(c.level as nat, 10);
    lemma_dec_digits_props(c.scale_exp as nat, 10);
    lemma_dec_digits_props(mantissa_magnitude(c.mantissa), 19);

    let spk = spec_encode_public_key(pk);
    assert forall|i: int| 0 <= i < spk.len() implies 32 <= #[trigger] spk[i] < 127 by {
        if 2 <= i < 33 {
            assert(spk[i] == spec_encode_params(pk.params)[i - 2]);
        } else if 33 <= i < 53 {
            assert(spk[i] == dec_digits(pk.key_id as nat, 20)[i - 33]);
        }
    }

    let sek = spec_encode_eval_keys(ek);
    assert forall|i: int| 0 <= i < sek.len() implies 32 <= #[trigger] sek[i] < 127 by {
        if 2 <= i < 33 {
            assert(sek[i] == spec_encode_params(ek.params)[i - 2]);
        } else if 33 <= i < 53 {
            assert(sek[i] == dec_digits(ek.key_id as nat, 20)[i - 33]);
        }
    }

    let sct = spec_encode_ciphertext(c);
    assert forall|i: int| 0 <= i < sct.len() implies 32 <= #[trigger] sct[i] < 127 by {
        if 2 <= i < 33 {
            assert(sct[i] == spec_encode_params(c.params)[i - 2]);
        } else if 33 <= i < 53 {
            assert(sct[i] == dec_digits(c.key_id as nat, 20)[i - 33]);
        } else if 53 <= i < 63 {
            assert(sct[i] == dec_digits(c.level as nat, 10)[i - 53]);
        } else if 63 <= i < 73 {
            assert(sct[i] == dec_digits(c.scale_exp as nat, 10)[i - 63]);
        } else if i == 73 {
            assert(sct[i] == sign_byte(c.mantissa));
        } else if 74 <= i < 93 {
            assert(sct[i] == dec_digits(mantissa_magnitude(c.mantissa), 19)[i - 74]);
        }
    }
}

/// Round trip: decoding the wire form of a public key recovers the key.
pub proof fn lemma_public_key_round_trip(pk: PublicKey)
    ensures
        spec_decode_public_key(spec_encode_public_key(pk)) == Some(pk),
{
    let s = spec_encode_public_key(pk);
    assert(exists|x: PublicKey| s == spec_encode_public_key(x));
    let x = choose|x: PublicKey| s == spec_encode_public_key(x);
    lemma_encode_public_key_injective(pk, x);
}

/// Round trip: decoding the wire form of an evaluation key set recovers it.
pub proof fn lemma_eval_keys_round_trip(ek: EvaluationKeySet)
    ensures
        spec_decode_eval_keys(spec_encode_eval_keys(ek)) == Some(ek),
{
    let s = spec_encode_eval_keys(ek);
    assert(exists|x: EvaluationKeySet| s == spec_encode_eval_keys(x));
    let x = choose|x: EvaluationKeySet| s == spec_encode_eval_keys(x);
    lemma_encode_eval_keys_injective(ek, x);
}

/// Round trip: decoding the wire form of a well-formed ciphertext recovers
/// the ciphertext, so every downstream operation sees an equivalent value.
pub proof fn lemma_ciphertext_round_trip(c: Ciphertext)
    requires
        c.wf(),
    ensures
        spec_decode_ciphertext(spec_encode_ciphertext(c)) == Some(c),
{
    let s = spec_encode_ciphertext(c);
    assert(exists|x: Ciphertext| x.wf() && s == spec_encode_ciphertext(x));
    let x = choose|x: Ciphertext| x.wf() && s == spec_encode_ciphertext(x);
    lemma_encode_ciphertext_injective(c, x);
}

} // verus!

use homomorphic_enc::codec::{
    decode_ciphertext, decode_eval_keys, decode_public_key, encode_ciphertext, encode_eval_keys,
    encode_public_key, CIPHERTEXT_WIRE_LEN, KEY_WIRE_LEN,
};
use homomorphic_enc::engine::{Ciphertext, EvaluationKeySet, PublicKey};
use homomorphic_enc::errors::ProtocolError;
use homomorphic_enc::params::SchemeParameters;

fn sample_public_key() -> PublicKey {
    PublicKey { params: SchemeParameters::protocol(), key_id: 42 }
}

fn sample_eval_keys() -> EvaluationKeySet {
    EvaluationKeySet { params: SchemeParameters::protocol(), key_id: 42 }
}

fn sample_ciphertext() -> Ciphertext {
    Ciphertext {
        params: SchemeParameters::protocol(),
        key_id: 42,
        level: 0,
        scale_exp: 4,
        mantissa: -553000,
    }
}

#[test]
fn public_key_round_trip() {
    let pk = sample_public_key();
    let bytes = encode_public_key(&pk);
    assert_eq!(bytes.len(), KEY_WIRE_LEN);
    assert_eq!(decode_public_key(&bytes), Ok(pk));
}

#[test]
fn eval_keys_round_trip() {
    let ek = sample_eval_keys();
    let bytes = encode_eval_keys(&ek);
    assert_eq!(bytes.len(), KEY_WIRE_LEN);
    assert_eq!(decode_eval_keys(&bytes), Ok(ek));
}

#[test]
fn ciphertext_round_trip_negative_mantissa() {
    let c = sample_ciphertext();
    let bytes = encode_ciphertext(&c);
    assert_eq!(bytes.len(), CIPHERTEXT_WIRE_LEN);
    assert_eq!(decode_ciphertext(&bytes), Ok(c));
}

#[test]
fn ciphertext_round_trip_deep_level() {
    let c = Ciphertext {
        params: SchemeParameters::protocol(),
        key_id: 7,
        level: 1,
        scale_exp: 8,
        mantissa: 11_106_000_000,
    };
    let bytes = encode_ciphertext(&c);
    assert_eq!(decode_ciphertext(&bytes), Ok(c));
}

#[test]
fn wire_forms_are_printable_ascii() {
    let forms = [
        encode_public_key(&sample_public_key()),
        encode_eval_keys(&sample_eval_keys()),
        encode_ciphertext(&sample_ciphertext()),
    ];
    for bytes in forms {
        let text = String::from_utf8(bytes).unwrap();
        assert!(text.bytes().all(|b| (32..127).contains(&b)));
    }
}

#[test]
fn empty_input_is_decode_error() {
    let empty: Vec<u8> = Vec::new();
    assert_eq!(decode_public_key(&empty), Err(ProtocolError::DecodeError));
    assert_eq!(decode_eval_keys(&empty), Err(ProtocolError::DecodeError));
    assert_eq!(decode_ciphertext(&empty), Err(ProtocolError::DecodeError));
}

#[test]
fn truncated_input_is_decode_error() {
    let mut bytes = encode_public_key(&sample_public_key());
    bytes.pop();
    assert_eq!(decode_public_key(&bytes), Err(ProtocolError::DecodeError));
}

#[test]
fn wrong_tag_is_decode_error() {
    // A public key's bytes are not a ciphertext, and vice versa.
    let pk_bytes = encode_public_key(&sample_public_key());
    assert_eq!(decode_ciphertext(&pk_bytes), Err(ProtocolError::DecodeError));
    assert_eq!(decode_eval_keys(&pk_bytes), Err(ProtocolError::DecodeError));
    let ct_bytes = encode_ciphertext(&sample_ciphertext());
    assert_eq!(decode_public_key(&ct_bytes), Err(ProtocolError::DecodeError));
}

#[test]
fn corrupted_digit_is_decode_error() {
    let mut bytes = encode_public_key(&sample_public_key());
    bytes[40] = b'X';
    assert_eq!(decode_public_key(&bytes), Err(ProtocolError::DecodeError));
}

#[test]
fn negative_zero_is_decode_error() {
    let c = Ciphertext {
        params: SchemeParameters::protocol(),
        key_id: 1,
        level: 0,
        scale_exp: 0,
        mantissa: 0,
    };
    let mut bytes = encode_ciphertext(&c);
    // Zero is written with a '+' sign; a '-' zero has no preimage.
    assert_eq!(bytes[73], b'+');
    bytes[73] = b'-';
    assert_eq!(decode_ciphertext(&bytes), Err(ProtocolError::DecodeError));
}

#[test]
fn depth_overrun_is_decode_error() {
    let mut bytes = encode_ciphertext(&sample_ciphertext());
    // The level field ends at byte 62; level 9 exceeds the depth budget 1.
    bytes[62] = b'9';
    assert_eq!(decode_ciphertext(&bytes), Err(ProtocolError::DecodeError));
}

#[test]
fn oversized_mantissa_is_decode_error() {
    let mut bytes = encode_ciphertext(&sample_ciphertext());
    // A 19-digit magnitude starting with 9 exceeds a fresh ciphertext's
    // capacity.
    bytes[74] = b'9';
    assert_eq!(decode_ciphertext(&bytes), Err(ProtocolError::DecodeError));
}

#[test]
fn family_digit_out_of_range_is_decode_error() {
    let mut bytes = encode_public_key(&sample_public_key());
    // Byte 2 names the scheme family; only 0 and 1 exist.
    bytes[2] = b'7';
    assert_eq!(decode_public_key(&bytes), Err(ProtocolError::DecodeError));
}

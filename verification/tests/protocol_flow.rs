use homomorphic_enc::client::{build_request, decrypt_result, encrypt_reading, prepare_secrets};
use homomorphic_enc::codec::{encode_ciphertext, encode_eval_keys, encode_public_key,
    ComputationRequest, ComputationResult};
use homomorphic_enc::engine::{Ciphertext, Context, EvaluationKeySet, Plaintext, PublicKey};
use homomorphic_enc::errors::ProtocolError;
use homomorphic_enc::keymgr::KeyManager;
use homomorphic_enc::params::{SchemeFamily, SchemeParameters};
use homomorphic_enc::server::MyEncryptionService;

#[test]
fn additive_homomorphism_example() {
    let ctx = Context::generate(SchemeParameters::protocol());
    let kp = ctx.key_gen(3);
    let a = Plaintext { mantissa: 12340, scale_exp: 4 };
    let b = Plaintext { mantissa: 7660, scale_exp: 4 };
    let ca = ctx.encrypt(&kp.public_key, &a);
    let cb = ctx.encrypt(&kp.public_key, &b);
    let sum = ctx.eval_add(&ca, &cb);
    let pt = ctx.decrypt(&kp.private_key, &sum);
    assert_eq!(pt.mantissa, 20000);
    assert_eq!(pt.scale_exp, 4);
}

#[test]
fn multiplicative_homomorphism_example() {
    let mut ctx = Context::generate(SchemeParameters::protocol());
    let kp = ctx.key_gen(9);
    ctx.eval_mult_key_gen(&kp.private_key);
    let a = Plaintext { mantissa: 20000, scale_exp: 4 };
    let b = Plaintext { mantissa: 35000, scale_exp: 4 };
    let ca = ctx.encrypt(&kp.public_key, &a);
    let cb = ctx.encrypt(&kp.public_key, &b);
    let product = ctx.eval_mult(&ca, &cb);
    let pt = ctx.decrypt(&kp.private_key, &product);
    // 2.0 × 3.5 = 7.0 at twice the scale.
    assert_eq!(pt.mantissa, 700_000_000);
    assert_eq!(pt.scale_exp, 8);
}

#[test]
fn export_before_generation_is_uninitialized_key_error() {
    let mgr = KeyManager::new(SchemeParameters::protocol());
    assert!(matches!(
        mgr.export_public_material(),
        Err(ProtocolError::UninitializedKeyError)
    ));
}

#[test]
fn export_after_generation_yields_public_material() {
    let mut mgr = KeyManager::new(SchemeParameters::protocol());
    mgr.generate_key_pair(11);
    let (pk, ek) = mgr.export_public_material().unwrap();
    assert_eq!(pk.key_id, 11);
    assert_eq!(pk.params, SchemeParameters::protocol());
    assert_eq!(ek, Some(EvaluationKeySet { params: pk.params, key_id: 11 }));
}

#[test]
fn decrypt_before_generation_is_uninitialized_key_error() {
    let mgr = KeyManager::new(SchemeParameters::protocol());
    let c = Ciphertext {
        params: SchemeParameters::protocol(),
        key_id: 11,
        level: 0,
        scale_exp: 4,
        mantissa: 1,
    };
    assert!(matches!(
        mgr.decrypt_ciphertext(&c),
        Err(ProtocolError::UninitializedKeyError)
    ));
}

#[test]
fn decrypt_under_foreign_key_is_scheme_mismatch() {
    let mut mgr = KeyManager::new(SchemeParameters::protocol());
    mgr.generate_key_pair(11);
    let c = Ciphertext {
        params: SchemeParameters::protocol(),
        key_id: 12,
        level: 0,
        scale_exp: 4,
        mantissa: 1,
    };
    assert!(matches!(
        mgr.decrypt_ciphertext(&c),
        Err(ProtocolError::SchemeMismatchError)
    ));
}

fn well_formed_request(key_id: u64, reading_mantissa: i64) -> (KeyManager, ComputationRequest) {
    let (mgr, pk, ek) = prepare_secrets(key_id);
    let cipher = encrypt_reading(&mgr, &pk, reading_mantissa);
    let request = build_request(&cipher, &pk, &ek);
    (mgr, request)
}

#[test]
fn end_to_end_cost_scenario() {
    // distance = 55.3, rate = 0.2, fee = 100.0 → cost = 111.06.
    let (mgr, request) = well_formed_request(7, 553000);
    let service = MyEncryptionService::new();
    let response = service.process_encrypted_data(&request).unwrap();
    let cost = decrypt_result(&mgr, &response).unwrap();
    assert_eq!(cost.mantissa, 11_106_000_000);
    assert_eq!(cost.scale_exp, 8);
    let as_float = cost.mantissa as f64 / 1e8_f64;
    assert!((as_float - 111.06).abs() < 0.01);
}

#[test]
fn corrupted_cipher_fails_alone_and_next_request_succeeds() {
    let service = MyEncryptionService::new();

    let (_, mut corrupted) = well_formed_request(7, 553000);
    corrupted.vss_odometer_cipher = b"not a ciphertext".to_vec();
    assert!(matches!(
        service.process_encrypted_data(&corrupted),
        Err(ProtocolError::DecodeError)
    ));

    let (mgr, request) = well_formed_request(7, 553000);
    let response = service.process_encrypted_data(&request).unwrap();
    let cost = decrypt_result(&mgr, &response).unwrap();
    assert_eq!(cost.mantissa, 11_106_000_000);
}

#[test]
fn missing_eval_keys_is_decode_error() {
    let (_, mut request) = well_formed_request(7, 553000);
    request.mul_eval_keys = Vec::new();
    let service = MyEncryptionService::new();
    assert!(matches!(
        service.process_encrypted_data(&request),
        Err(ProtocolError::DecodeError)
    ));
}

#[test]
fn cipher_under_foreign_key_is_scheme_mismatch() {
    let (mgr, pk, _) = prepare_secrets(1);
    let cipher = encrypt_reading(&mgr, &pk, 553000);
    let (_, other_pk, other_ek) = prepare_secrets(2);
    // The cipher was produced under key 1, the announced key is key 2.
    let request = build_request(&cipher, &other_pk, &other_ek);
    let service = MyEncryptionService::new();
    assert!(matches!(
        service.process_encrypted_data(&request),
        Err(ProtocolError::SchemeMismatchError)
    ));
}

#[test]
fn foreign_parameters_are_scheme_mismatch() {
    let params = SchemeParameters {
        family: SchemeFamily::ExactModular,
        mult_depth: 1,
        scale_mod_size: 50,
        batch_size: 8,
    };
    let pk = PublicKey { params, key_id: 5 };
    let ek = EvaluationKeySet { params, key_id: 5 };
    let cipher = Ciphertext { params, key_id: 5, level: 0, scale_exp: 4, mantissa: 100 };
    let request = ComputationRequest {
        vss_odometer_cipher: encode_ciphertext(&cipher),
        pub_key: encode_public_key(&pk),
        mul_eval_keys: encode_eval_keys(&ek),
    };
    let service = MyEncryptionService::new();
    assert!(matches!(
        service.process_encrypted_data(&request),
        Err(ProtocolError::SchemeMismatchError)
    ));
}

#[test]
fn wrong_reading_scale_is_scheme_mismatch() {
    let (mgr, pk, ek) = prepare_secrets(4);
    let pt = Plaintext { mantissa: 553000, scale_exp: 5 };
    let cipher = mgr.ctx.encrypt(&pk, &pt);
    let request = build_request(&cipher, &pk, &ek);
    let service = MyEncryptionService::new();
    assert!(matches!(
        service.process_encrypted_data(&request),
        Err(ProtocolError::SchemeMismatchError)
    ));
}

#[test]
fn decrypt_result_rejects_garbage_and_foreign_results() {
    let (mgr, _, _) = prepare_secrets(4);
    let garbage = ComputationResult { cost_cipher: b"????".to_vec() };
    assert!(matches!(
        decrypt_result(&mgr, &garbage),
        Err(ProtocolError::DecodeError)
    ));

    let foreign = Ciphertext {
        params: SchemeParameters::protocol(),
        key_id: 999,
        level: 1,
        scale_exp: 8,
        mantissa: 1,
    };
    let foreign_result = ComputationResult { cost_cipher: encode_ciphertext(&foreign) };
    assert!(matches!(
        decrypt_result(&mgr, &foreign_result),
        Err(ProtocolError::SchemeMismatchError)
    ));
}

#[test]
fn zero_distance_costs_the_flat_fee() {
    let (mgr, request) = well_formed_request(3, 0);
    let service = MyEncryptionService::new();
    let response = service.process_encrypted_data(&request).unwrap();
    let cost = decrypt_result(&mgr, &response).unwrap();
    // 100.0 + 0.2 × 0 = 100.0 at twice the reading scale.
    assert_eq!(cost.mantissa, 10_000_000_000);
    assert_eq!(cost.scale_exp, 8);
}

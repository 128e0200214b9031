use num_bigint::BigUint;
use zkp::protocol::{AuthError, AuthService};
use zkp::zkp::ChaumPedersenZKP;

fn small_parameters() -> ChaumPedersenZKP {
    ChaumPedersenZKP {
        generator_g: BigUint::from(2u32),
        generator_h: BigUint::from(3u32),
        modulus_p: BigUint::from(23u32),
        subgroup_order_q: BigUint::from(11u32),
    }
}

#[test]
fn protocol_flow() {
    let zkp = small_parameters();
    let secret_x = BigUint::from(4u32);
    let public_y1 = ChaumPedersenZKP::mod_exp(&zkp.generator_g, &secret_x, &zkp.modulus_p);
    let public_y2 = ChaumPedersenZKP::mod_exp(&zkp.generator_h, &secret_x, &zkp.modulus_p);

    let mut service = AuthService::with_parameters(small_parameters());

    let nonce = BigUint::from(6u32);
    let (t1, t2) = zkp.compute_commitment(&nonce);
    let unknown = String::from("bob");
    let early = service.request_challenge(&unknown, t1.clone(), t2.clone());
    assert!(matches!(early, Err(AuthError::NotFound(ref who)) if who == "bob"));

    let message = service.register(String::from("alice"), public_y1, public_y2);
    assert_eq!(message, "User alice registration successful");

    let alice = String::from("alice");
    let (auth_id, challenge) = service
        .request_challenge(&alice, t1.clone(), t2.clone())
        .unwrap();
    assert_eq!(auth_id.len(), 12);
    assert!(auth_id.chars().all(|c| c.is_ascii_alphanumeric()));
    assert!(challenge < zkp.subgroup_order_q);

    let (auth_id_2, _challenge_2) = service
        .request_challenge(&alice, t1.clone(), t2.clone())
        .unwrap();
    assert_ne!(auth_id, auth_id_2, "each issued attempt identifier must be fresh");

    let missing = service.submit_challenge_answer(&String::from("no-such-id"), &secret_x);
    assert!(matches!(missing, Err(AuthError::NotFound(ref id)) if id == "no-such-id"));

    let (auth_id_3, challenge_3) = service
        .request_challenge(&alice, t1.clone(), t2.clone())
        .unwrap();
    let honest = zkp.compute_response(&nonce, &challenge_3, &secret_x);
    let wrong = (&honest + BigUint::from(1u32)) % &zkp.subgroup_order_q;
    let rejected = service.submit_challenge_answer(&auth_id_3, &wrong);
    assert!(matches!(rejected, Err(AuthError::PermissionDenied(ref who)) if who == "alice"));

    let (auth_id_4, challenge_4) = service
        .request_challenge(&alice, t1.clone(), t2.clone())
        .unwrap();
    let response = zkp.compute_response(&nonce, &challenge_4, &secret_x);
    let session = service.submit_challenge_answer(&auth_id_4, &response).unwrap();
    assert_eq!(session.len(), 12);
    assert!(session.chars().all(|c| c.is_ascii_alphanumeric()));
}

#[test]
fn rechallenge_invalidates_previous_attempt() {
    let (generator_g, generator_h, modulus_p, subgroup_order_q) =
        ChaumPedersenZKP::get_standard_parameters();
    let zkp = ChaumPedersenZKP {
        generator_g,
        generator_h,
        modulus_p,
        subgroup_order_q,
    };
    let secret_x = BigUint::from_bytes_be(b"a very secret password");
    let public_y1 = ChaumPedersenZKP::mod_exp(&zkp.generator_g, &secret_x, &zkp.modulus_p);
    let public_y2 = ChaumPedersenZKP::mod_exp(&zkp.generator_h, &secret_x, &zkp.modulus_p);

    let mut service = AuthService::new();
    service.register(String::from("alice"), public_y1, public_y2);
    let alice = String::from("alice");

    let nonce_1 = ChaumPedersenZKP::random_biguint_below(&zkp.subgroup_order_q);
    let (t1_first, t2_first) = zkp.compute_commitment(&nonce_1);
    let (auth_id_1, challenge_1) = service
        .request_challenge(&alice, t1_first, t2_first)
        .unwrap();
    let response_1 = zkp.compute_response(&nonce_1, &challenge_1, &secret_x);

    let nonce_2 = ChaumPedersenZKP::random_biguint_below(&zkp.subgroup_order_q);
    let (t1_second, t2_second) = zkp.compute_commitment(&nonce_2);
    let (auth_id_2, challenge_2) = service
        .request_challenge(&alice, t1_second, t2_second)
        .unwrap();

    let stale = service.submit_challenge_answer(&auth_id_1, &response_1);
    assert!(
        matches!(stale, Err(AuthError::PermissionDenied(ref who)) if who == "alice"),
        "the first challenge's answer must not verify against the replaced state"
    );

    let response_2 = zkp.compute_response(&nonce_2, &challenge_2, &secret_x);
    let session = service.submit_challenge_answer(&auth_id_2, &response_2).unwrap();
    assert_eq!(session.len(), 12);
}

#[test]
fn reregistration_replaces_public_keys() {
    let zkp = small_parameters();
    let mut service = AuthService::with_parameters(small_parameters());

    let old_secret = BigUint::from(4u32);
    let old_y1 = ChaumPedersenZKP::mod_exp(&zkp.generator_g, &old_secret, &zkp.modulus_p);
    let old_y2 = ChaumPedersenZKP::mod_exp(&zkp.generator_h, &old_secret, &zkp.modulus_p);
    service.register(String::from("alice"), old_y1, old_y2);

    let new_secret = BigUint::from(7u32);
    let new_y1 = ChaumPedersenZKP::mod_exp(&zkp.generator_g, &new_secret, &zkp.modulus_p);
    let new_y2 = ChaumPedersenZKP::mod_exp(&zkp.generator_h, &new_secret, &zkp.modulus_p);
    service.register(String::from("alice"), new_y1, new_y2);

    let alice = String::from("alice");
    let nonce = BigUint::from(6u32);
    let (t1, t2) = zkp.compute_commitment(&nonce);
    let (auth_id, challenge) = service.request_challenge(&alice, t1, t2).unwrap();

    let stale = zkp.compute_response(&nonce, &challenge, &old_secret);
    let fresh = zkp.compute_response(&nonce, &challenge, &new_secret);
    if stale != fresh {
        let rejected = service.submit_challenge_answer(&auth_id, &stale);
        assert!(matches!(rejected, Err(AuthError::PermissionDenied(_))));
    }
    let session = service.submit_challenge_answer(&auth_id, &fresh).unwrap();
    assert_eq!(session.len(), 12);
}

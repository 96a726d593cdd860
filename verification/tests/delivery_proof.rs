use ahjoor_escrow::errors::ContractError;
use ahjoor_escrow::host::{delivery_digest, digest_words};
use ahjoor_escrow::model::Hash32;
use ahjoor_escrow::state::AhjoorEscrowContract;
use soroban_sdk::Env;

#[test]
fn digest_words_packs_big_endian() {
    let mut b = [0u8; 32];
    for (i, x) in b.iter_mut().enumerate() {
        *x = i as u8;
    }
    let h = digest_words(b);
    assert_eq!(h.w0, 0x0001_0203_0405_0607);
    assert_eq!(h.w1, 0x0809_0a0b_0c0d_0e0f);
    assert_eq!(h.w2, 0x1011_1213_1415_1617);
    assert_eq!(h.w3, 0x1819_1a1b_1c1d_1e1f);
}

#[test]
fn delivery_digest_is_sha256_of_the_proof() {
    let env = Env::default();
    // SHA-256 of 32 zero bytes.
    let h = delivery_digest(&env, [0u8; 32]);
    assert_eq!(
        h,
        Hash32 { w0: 0x6668_7aad_f862_bd77, w1: 0x6c8f_c18b_8e9f_8e20, w2: 0x0897_1485_6ee2_33b3, w3: 0x902a_591d_0d5f_2925 }
    );
}

#[test]
fn delivery_proof_needs_a_committed_hash() {
    let env = Env::default();
    let mut c = AhjoorEscrowContract::new(100);
    c.initialize(1).unwrap();
    c.add_allowed_token(1, 2).unwrap();
    let (id, _) = c.create_escrow(3, 4, 5, 50, 2, 10, None, Vec::new(), false, 0, 0, true).unwrap();

    let r = c.submit_delivery_proof(&env, 3, id, [1u8; 32]);
    assert_eq!(r.unwrap_err(), ContractError::OnlySellerCanSubmitDeliveryProof);
    let r = c.submit_delivery_proof(&env, 4, id, [1u8; 32]);
    assert_eq!(r.unwrap_err(), ContractError::NoDeliveryProofHashSet);
    let r = c.submit_delivery_digest(4, id, digest_words([1u8; 32]));
    assert_eq!(r.unwrap_err(), ContractError::NoDeliveryProofHashSet);
}

use curve25519_dalek::constants::ED25519_BASEPOINT_POINT;
use curve25519_dalek::edwards::CompressedEdwardsY;
use curve25519_dalek::scalar::Scalar;
use probability_cloud::cloud::HoldingsProofVerified;
use probability_cloud::cloud::ProbabilityCloud;
use probability_cloud::holdings::members_list_ring;
use probability_cloud::holdings::total_holdings;
use probability_cloud::holdings::HoldingsProof;
use probability_cloud::holdings::MemberBalance;
use probability_cloud::settlement::AccountRole;
use probability_cloud::program::prove_holdings;
use probability_cloud::program::transfer_with_ring_proof;
use probability_cloud::program::ProveHoldings;
use probability_cloud::program::TransferWithRing;
use probability_cloud::statement::domain_tag;
use probability_cloud::statement::holdings_statement;
use probability_cloud::ring::key_has_small_order;
use probability_cloud::ring::link_challenge;
use probability_cloud::ring::reduce_digest;
use probability_cloud::ring::ring_has_proper_keys;
use probability_cloud::ring::ring_signature_closes;
use probability_cloud::statement::transfer_statement;
use probability_cloud::ring::RingProof;
use probability_cloud::ring::Verdict;
use probability_cloud::ring::BASEPOINT;
use probability_cloud::statement::HOLDINGS_PURPOSE;
use probability_cloud::ring::NEUTRAL_POINT;
use probability_cloud::statement::TRANSFER_PURPOSE;
use probability_cloud::ErrorCode;
use sha2::Digest;
use sha2::Sha256;

// A prover, written against the curve and the hash directly.

fn scalar_from(label: &str, index: u64) -> Scalar {
    let mut hasher = Sha256::new();
    hasher.update(label.as_bytes());
    hasher.update(index.to_le_bytes());
    let bytes: [u8; 32] = hasher.finalize().into();
    Scalar::from_bytes_mod_order(bytes)
}

fn secret_key(member: u64) -> Scalar {
    scalar_from("secret", member)
}

fn public_key(member: u64) -> [u8; 32] {
    (ED25519_BASEPOINT_POINT * secret_key(member)).compress().to_bytes()
}

fn challenge(statement: &[u8], commitment: &[u8; 32]) -> Scalar {
    let mut hasher = Sha256::new();
    hasher.update(statement);
    hasher.update(commitment);
    let mut bytes: [u8; 32] = hasher.finalize().into();
    bytes[31] &= 0x0f;
    Scalar::from_canonical_bytes(bytes).unwrap()
}

fn sign(ring: &[[u8; 32]], place: usize, secret: Scalar, statement: &[u8]) -> Vec<u8> {
    let n = ring.len();
    let mut challenges = vec![Scalar::ZERO; n];
    let mut responses = vec![Scalar::ZERO; n];
    let nonce = scalar_from("nonce", place as u64);
    let opening = (ED25519_BASEPOINT_POINT * nonce).compress().to_bytes();
    challenges[(place + 1) % n] = challenge(statement, &opening);
    let mut i = (place + 1) % n;
    while i != place {
        responses[i] = scalar_from("response", i as u64);
        let key = CompressedEdwardsY(ring[i]).decompress().unwrap();
        let commitment = (ED25519_BASEPOINT_POINT * responses[i] + key * challenges[i])
            .compress()
            .to_bytes();
        challenges[(i + 1) % n] = challenge(statement, &commitment);
        i = (i + 1) % n;
    }
    responses[place] = nonce - challenges[place] * secret;
    let mut signature = challenges[0].to_bytes().to_vec();
    for response in &responses {
        signature.extend_from_slice(&response.to_bytes());
    }
    signature
}

fn ring_of(members: &[u64]) -> Vec<[u8; 32]> {
    members.iter().map(|m| public_key(*m)).collect()
}

fn cloud_of(authority: u8, cloud_id: u64, members: &[u64]) -> ProbabilityCloud {
    ProbabilityCloud::new([authority; 32], cloud_id, ring_of(members), 1_700_000_000).unwrap()
}

const A: u64 = 1;
const B: u64 = 2;
const C: u64 = 3;
const D: u64 = 4;

#[test]
fn base_point_is_that_of_the_curve() {
    assert_eq!(BASEPOINT, ED25519_BASEPOINT_POINT.compress().to_bytes());
}

#[test]
fn reduce_digest_clears_the_four_highest_bits() {
    let mut digest = [0xffu8; 32];
    let mut expected = [0xffu8; 32];
    expected[31] = 0x0f;
    assert_eq!(reduce_digest(digest), expected);
    digest[31] = 0x25;
    expected[31] = 0x05;
    assert_eq!(reduce_digest(digest), expected);
    assert_eq!(reduce_digest([0u8; 32]), [0u8; 32]);
}

#[test]
fn link_challenge_is_the_reduced_sha256_of_statement_and_commitment() {
    // SHA-256 of thirty-two zero bytes, with the last byte 0x25 reduced to 0x05.
    let expected: [u8; 32] = [
        0x66, 0x68, 0x7a, 0xad, 0xf8, 0x62, 0xbd, 0x77, 0x6c, 0x8f, 0xc1, 0x8b, 0x8e, 0x9f, 0x8e,
        0x20, 0x08, 0x97, 0x14, 0x85, 0x6e, 0xe2, 0x33, 0xb3, 0x90, 0x2a, 0x59, 0x1d, 0x0d, 0x5f,
        0x29, 0x05,
    ];
    assert_eq!(link_challenge(&[], &[0u8; 32]), expected);
    assert_eq!(link_challenge(&[0u8; 16], &[0u8; 32]), challenge(&[0u8; 16], &[0u8; 32]).to_bytes());
    assert_eq!(link_challenge(b"abc", &[7u8; 32]), challenge(b"abc", &[7u8; 32]).to_bytes());
}

#[test]
fn domain_tag_hashes_purpose_authority_identifier_and_ring() {
    let cloud = cloud_of(9, 0x0102030405060708, &[A, B, C]);
    let mut hasher = Sha256::new();
    hasher.update([TRANSFER_PURPOSE]);
    hasher.update([9u8; 32]);
    hasher.update([8u8, 7, 6, 5, 4, 3, 2, 1]);
    hasher.update(public_key(A));
    hasher.update(public_key(B));
    hasher.update(public_key(C));
    let expected: [u8; 32] = hasher.finalize().into();
    assert_eq!(domain_tag(TRANSFER_PURPOSE, &cloud), expected);
    assert_ne!(domain_tag(HOLDINGS_PURPOSE, &cloud), expected);
    assert_ne!(domain_tag(TRANSFER_PURPOSE, &cloud_of(9, 1, &[A, B, C])), expected);
    assert_ne!(domain_tag(TRANSFER_PURPOSE, &cloud_of(8, 0x0102030405060708, &[A, B, C])), expected);
    assert_ne!(domain_tag(TRANSFER_PURPOSE, &cloud_of(9, 0x0102030405060708, &[A, C, B])), expected);
}

#[test]
fn transfer_statement_lays_out_sender_recipient_amount_and_tag() {
    let cloud = cloud_of(9, 5, &[A, B, C]);
    let statement = transfer_statement(&cloud, &[1u8; 32], &[2u8; 32], 100);
    assert_eq!(statement.len(), 104);
    assert_eq!(&statement[0..32], &[1u8; 32]);
    assert_eq!(&statement[32..64], &[2u8; 32]);
    assert_eq!(&statement[64..72], &[100u8, 0, 0, 0, 0, 0, 0, 0]);
    assert_eq!(&statement[72..104], &domain_tag(TRANSFER_PURPOSE, &cloud));
}

#[test]
fn holdings_statement_lays_out_threshold_and_tag() {
    let cloud = cloud_of(9, 5, &[A, B, C]);
    let statement = holdings_statement(&cloud, 0x0102);
    assert_eq!(statement.len(), 40);
    assert_eq!(&statement[0..8], &[2u8, 1, 0, 0, 0, 0, 0, 0]);
    assert_eq!(&statement[8..40], &domain_tag(HOLDINGS_PURPOSE, &cloud));
}

#[test]
fn signature_of_every_member_closes() {
    for size in [2usize, 3, 5] {
        let members: Vec<u64> = (1..=size as u64).collect();
        let ring = ring_of(&members);
        for place in 0..size {
            let signature = sign(&ring, place, secret_key(members[place]), b"statement");
            assert_eq!(signature.len(), 32 * (size + 1));
            assert!(ring_signature_closes(&ring, b"statement", &signature));
        }
    }
}

#[test]
fn signature_over_the_largest_ring_closes() {
    let members: Vec<u64> = (1..=20u64).collect();
    let ring = ring_of(&members);
    for place in [0usize, 19] {
        let signature = sign(&ring, place, secret_key(members[place]), b"statement");
        assert_eq!(signature.len(), 32 * 21);
        assert!(ring_signature_closes(&ring, b"statement", &signature));
    }
}

#[test]
fn signature_does_not_close_over_another_statement_ring_or_order() {
    let ring = ring_of(&[A, B, C]);
    let signature = sign(&ring, 1, secret_key(B), b"statement");
    assert!(ring_signature_closes(&ring, b"statement", &signature));
    assert!(!ring_signature_closes(&ring, b"statemenu", &signature));
    assert!(!ring_signature_closes(&ring_of(&[A, B, D]), b"statement", &signature));
    assert!(!ring_signature_closes(&ring_of(&[B, A, C]), b"statement", &signature));
    assert!(!ring_signature_closes(&ring_of(&[A, B]), b"statement", &signature));
    assert!(!ring_signature_closes(&ring_of(&[A, B, C, D]), b"statement", &signature));
}

#[test]
fn signature_that_is_altered_or_cut_does_not_close() {
    let ring = ring_of(&[A, B, C]);
    let signature = sign(&ring, 2, secret_key(C), b"statement");
    for at in [0usize, 31, 32, 64, 127] {
        let mut altered = signature.clone();
        altered[at] ^= 1;
        assert!(!ring_signature_closes(&ring, b"statement", &altered));
    }
    assert!(!ring_signature_closes(&ring, b"statement", &signature[..127]));
    assert!(!ring_signature_closes(&ring, b"statement", &signature[..96]));
    assert!(!ring_signature_closes(&ring, b"statement", &[]));
    let mut longer = signature.clone();
    longer.push(0);
    assert!(!ring_signature_closes(&ring, b"statement", &longer));
}

#[test]
fn no_signature_closes_over_an_empty_ring() {
    assert!(!ring_signature_closes(&Vec::new(), b"statement", &[0u8; 32]));
    assert!(!ring_signature_closes(&Vec::new(), b"statement", &[]));
}

#[test]
fn small_order_is_told_as_the_curve_tells_it() {
    let mut order_two = [0xffu8; 32];
    order_two[0] = 0xec;
    order_two[31] = 0x7f;
    let mut order_four = [0u8; 32];
    let small = [NEUTRAL_POINT, order_two, order_four];
    for key in small {
        assert!(CompressedEdwardsY(key).decompress().unwrap().is_small_order());
        assert!(key_has_small_order(&key));
    }
    order_four[31] = 0x80;
    assert!(CompressedEdwardsY(order_four).decompress().unwrap().is_small_order());
    assert!(key_has_small_order(&order_four));
    for member in [A, B, C, D] {
        assert!(!key_has_small_order(&public_key(member)));
    }
    assert!(!key_has_small_order(&BASEPOINT));
    // no point at all
    let mut no_point = [0u8; 32];
    no_point[0] = 2;
    assert!(!key_has_small_order(&no_point));
    assert!(ring_has_proper_keys(&ring_of(&[A, B, C])));
    assert!(!ring_has_proper_keys(&vec![public_key(A), NEUTRAL_POINT, public_key(B)]));
}

#[test]
fn ring_with_a_key_of_small_order_closes_for_nobody() {
    // With the neutral point as a key, a response alone makes the link:
    // anyone could sign in its place.
    let ring = vec![NEUTRAL_POINT, public_key(A)];
    let forged = sign(&ring, 0, Scalar::ZERO, b"statement");
    assert!(!ring_signature_closes(&ring, b"statement", &forged));
    let honest = sign(&ring, 1, secret_key(A), b"statement");
    assert!(!ring_signature_closes(&ring, b"statement", &honest));
    let cloud = ProbabilityCloud::new([9u8; 32], 1, ring, 0).unwrap();
    let public_inputs = transfer_statement(&cloud, &[1u8; 32], &[2u8; 32], 5);
    let proof = sign(cloud.ring_public_keys(), 0, Scalar::ZERO, &public_inputs);
    let ctx = TransferWithRing { cloud: &cloud, sender: [1u8; 32], recipient: [2u8; 32] };
    assert_eq!(
        transfer_with_ring_proof(&ctx, proof, public_inputs, 5),
        Err(ErrorCode::InvalidProof)
    );
}

#[test]
fn signature_by_a_key_outside_the_ring_does_not_close() {
    let ring = ring_of(&[A, B, C]);
    let signature = sign(&ring, 1, secret_key(D), b"statement");
    assert!(!ring_signature_closes(&ring, b"statement", &signature));
}

#[test]
fn scalar_that_is_not_canonical_or_key_that_is_no_point_does_not_close() {
    let ring = ring_of(&[A, B]);
    let mut signature = sign(&ring, 0, secret_key(A), b"statement");
    for byte in signature[32..64].iter_mut() {
        *byte = 0xff;
    }
    assert!(!ring_signature_closes(&ring, b"statement", &signature));
    // y = 2 is the y-coordinate of no point of the curve
    let mut no_point = [0u8; 32];
    no_point[0] = 2;
    assert!(CompressedEdwardsY(no_point).decompress().is_none());
    let bad_ring = vec![public_key(A), no_point];
    let signature = sign(&ring, 0, secret_key(A), b"statement");
    assert!(!ring_signature_closes(&bad_ring, b"statement", &signature));
}

#[test]
fn member_b_authorises_a_transfer_and_the_proof_fails_against_another_cloud() {
    let cloud = cloud_of(9, 1, &[A, B, C]);
    let sender = public_key(B);
    let recipient = public_key(D);
    let public_inputs = transfer_statement(&cloud, &sender, &recipient, 100);
    let proof = sign(cloud.ring_public_keys(), 1, secret_key(B), &public_inputs);
    let ctx = TransferWithRing { cloud: &cloud, sender, recipient };
    let settlement =
        transfer_with_ring_proof(&ctx, proof.clone(), public_inputs.clone(), 100).unwrap();
    assert_eq!(settlement.program_id, [0u8; 32]);
    assert_eq!(
        settlement.accounts,
        vec![
            AccountRole { key: sender, is_signer: true, is_writable: true },
            AccountRole { key: recipient, is_signer: false, is_writable: true },
        ]
    );
    assert_eq!(settlement.data, vec![2u8, 0, 0, 0, 100, 0, 0, 0, 0, 0, 0, 0]);

    // the same ring under another identifier
    let other = cloud_of(9, 2, &[A, B, C]);
    let ctx = TransferWithRing { cloud: &other, sender, recipient };
    assert_eq!(
        transfer_with_ring_proof(&ctx, proof.clone(), public_inputs.clone(), 100),
        Err(ErrorCode::InvalidPublicInputs)
    );
    let restated = transfer_statement(&other, &sender, &recipient, 100);
    assert_eq!(
        transfer_with_ring_proof(&ctx, proof.clone(), restated, 100),
        Err(ErrorCode::InvalidProof)
    );

    // another ring that holds B too
    let other = cloud_of(9, 1, &[D, B, A]);
    let ctx = TransferWithRing { cloud: &other, sender, recipient };
    assert_eq!(
        transfer_with_ring_proof(&ctx, proof.clone(), public_inputs.clone(), 100),
        Err(ErrorCode::InvalidPublicInputs)
    );
    let restated = transfer_statement(&other, &sender, &recipient, 100);
    assert_eq!(
        transfer_with_ring_proof(&ctx, proof, restated, 100),
        Err(ErrorCode::InvalidProof)
    );
}

#[test]
fn every_member_of_a_ring_can_authorise_a_transfer() {
    let cloud = cloud_of(3, 77, &[A, B, C, D]);
    let sender = [5u8; 32];
    let recipient = [6u8; 32];
    for (place, member) in [A, B, C, D].into_iter().enumerate() {
        let amount = 1000 + place as u64;
        let public_inputs = transfer_statement(&cloud, &sender, &recipient, amount);
        let proof = sign(cloud.ring_public_keys(), place, secret_key(member), &public_inputs);
        let ctx = TransferWithRing { cloud: &cloud, sender, recipient };
        let settlement = transfer_with_ring_proof(&ctx, proof, public_inputs, amount).unwrap();
        let mut data = vec![2u8, 0, 0, 0];
        data.extend_from_slice(&amount.to_le_bytes());
        assert_eq!(settlement.data, data);
        assert_eq!(settlement.accounts[0].key, sender);
        assert_eq!(settlement.accounts[1].key, recipient);
    }
}

#[test]
fn largest_amount_is_settled_in_full() {
    let cloud = cloud_of(3, 77, &[A, B]);
    let public_inputs = transfer_statement(&cloud, &[5u8; 32], &[6u8; 32], u64::MAX);
    let proof = sign(cloud.ring_public_keys(), 0, secret_key(A), &public_inputs);
    let ctx = TransferWithRing { cloud: &cloud, sender: [5u8; 32], recipient: [6u8; 32] };
    let settlement = transfer_with_ring_proof(&ctx, proof, public_inputs, u64::MAX).unwrap();
    assert_eq!(
        settlement.data,
        vec![2u8, 0, 0, 0, 255, 255, 255, 255, 255, 255, 255, 255]
    );
}

#[test]
fn proof_of_one_transfer_does_not_authorise_another() {
    let cloud = cloud_of(9, 1, &[A, B, C]);
    let sender = public_key(B);
    let recipient = public_key(D);
    let public_inputs = transfer_statement(&cloud, &sender, &recipient, 100);
    let proof = sign(cloud.ring_public_keys(), 1, secret_key(B), &public_inputs);
    let ctx = TransferWithRing { cloud: &cloud, sender, recipient };
    assert_eq!(
        transfer_with_ring_proof(&ctx, proof.clone(), public_inputs.clone(), 101),
        Err(ErrorCode::InvalidPublicInputs)
    );
    let ctx = TransferWithRing { cloud: &cloud, sender, recipient: public_key(A) };
    assert_eq!(
        transfer_with_ring_proof(&ctx, proof.clone(), public_inputs.clone(), 100),
        Err(ErrorCode::InvalidPublicInputs)
    );
    let ctx = TransferWithRing { cloud: &cloud, sender: public_key(A), recipient };
    assert_eq!(
        transfer_with_ring_proof(&ctx, proof.clone(), public_inputs.clone(), 100),
        Err(ErrorCode::InvalidPublicInputs)
    );
    let ctx = TransferWithRing { cloud: &cloud, sender, recipient };
    let restated = transfer_statement(&cloud, &sender, &recipient, 101);
    assert_eq!(
        transfer_with_ring_proof(&ctx, proof, restated, 101),
        Err(ErrorCode::InvalidProof)
    );
}

#[test]
fn empty_proof_or_public_inputs_are_refused_at_once() {
    let cloud = cloud_of(9, 1, &[A, B, C]);
    let sender = public_key(B);
    let recipient = public_key(D);
    let public_inputs = transfer_statement(&cloud, &sender, &recipient, 100);
    let proof = sign(cloud.ring_public_keys(), 1, secret_key(B), &public_inputs);
    let ctx = TransferWithRing { cloud: &cloud, sender, recipient };
    assert_eq!(
        transfer_with_ring_proof(&ctx, vec![], public_inputs.clone(), 100),
        Err(ErrorCode::InvalidProof)
    );
    assert_eq!(
        transfer_with_ring_proof(&ctx, proof.clone(), vec![], 100),
        Err(ErrorCode::InvalidPublicInputs)
    );
    assert_eq!(transfer_with_ring_proof(&ctx, vec![], vec![], 100), Err(ErrorCode::InvalidProof));
    assert_eq!(
        transfer_with_ring_proof(&ctx, vec![1], vec![1], 100),
        Err(ErrorCode::InvalidPublicInputs)
    );
    assert_eq!(
        transfer_with_ring_proof(&ctx, vec![1], public_inputs, 100),
        Err(ErrorCode::InvalidProof)
    );
}

#[test]
fn ring_proof_verdicts() {
    let cloud = cloud_of(9, 1, &[A, B, C]);
    let public_inputs = transfer_statement(&cloud, &[1u8; 32], &[2u8; 32], 5);
    let signature_bytes = sign(cloud.ring_public_keys(), 0, secret_key(A), &public_inputs);
    let proof = RingProof { signature_bytes: signature_bytes.clone(), public_inputs: public_inputs.clone() };
    assert_eq!(proof.verify(&cloud), Verdict::Accepted);
    let empty = RingProof { signature_bytes: vec![], public_inputs: public_inputs.clone() };
    assert_eq!(empty.verify(&cloud), Verdict::Rejected(ErrorCode::InvalidProof));
    let empty = RingProof { signature_bytes: signature_bytes.clone(), public_inputs: vec![] };
    assert_eq!(empty.verify(&cloud), Verdict::Rejected(ErrorCode::InvalidPublicInputs));
    let mut short = public_inputs.clone();
    short.pop();
    let cut = RingProof { signature_bytes: signature_bytes.clone(), public_inputs: short };
    assert_eq!(cut.verify(&cloud), Verdict::Rejected(ErrorCode::InvalidPublicInputs));
    let mut altered = public_inputs.clone();
    altered[0] ^= 1;
    let forged = RingProof { signature_bytes, public_inputs: altered };
    assert_eq!(forged.verify(&cloud), Verdict::Rejected(ErrorCode::InvalidProof));
    assert_eq!(
        proof.verify(&cloud_of(9, 2, &[A, B, C])),
        Verdict::Rejected(ErrorCode::InvalidPublicInputs)
    );
}

#[test]
fn verifying_twice_gives_the_same_verdict() {
    let cloud = cloud_of(9, 1, &[A, B, C]);
    let public_inputs = transfer_statement(&cloud, &[1u8; 32], &[2u8; 32], 5);
    let signature_bytes = sign(cloud.ring_public_keys(), 2, secret_key(C), &public_inputs);
    let good = RingProof { signature_bytes: signature_bytes.clone(), public_inputs: public_inputs.clone() };
    let mut altered = signature_bytes;
    altered[40] ^= 0x10;
    let bad = RingProof { signature_bytes: altered, public_inputs };
    let before = (
        RingProof {
            signature_bytes: good.signature_bytes.clone(),
            public_inputs: good.public_inputs.clone(),
        },
        RingProof {
            signature_bytes: bad.signature_bytes.clone(),
            public_inputs: bad.public_inputs.clone(),
        },
    );
    assert_eq!(good.verify(&cloud), Verdict::Accepted);
    assert_eq!(good.verify(&cloud), Verdict::Accepted);
    assert_eq!(bad.verify(&cloud), Verdict::Rejected(ErrorCode::InvalidProof));
    assert_eq!(bad.verify(&cloud), Verdict::Rejected(ErrorCode::InvalidProof));
    assert_eq!((good, bad), before);
    assert_eq!(cloud, cloud_of(9, 1, &[A, B, C]));

    let members = balances(&[A, B, C], &[1, 2, 3]);
    let request = holdings_request(&cloud, 0, A, 6);
    assert_eq!(request.verify(&cloud, &members), Verdict::Accepted);
    assert_eq!(request.verify(&cloud, &members), Verdict::Accepted);
}

fn balances(members: &[u64], amounts: &[u64]) -> Vec<MemberBalance> {
    members
        .iter()
        .zip(amounts)
        .map(|(member, balance)| MemberBalance { key: public_key(*member), balance: *balance })
        .collect()
}

fn holdings_request(cloud: &ProbabilityCloud, place: usize, member: u64, threshold: u64) -> HoldingsProof {
    let statement = holdings_statement(cloud, threshold);
    HoldingsProof {
        proof_bytes: sign(cloud.ring_public_keys(), place, secret_key(member), &statement),
        threshold,
    }
}

#[test]
fn holdings_are_attested_up_to_the_aggregate_and_not_above() {
    let cloud = cloud_of(9, 12, &[A, B, C]);
    let members = balances(&[A, B, C], &[400, 0, 600]);
    assert_eq!(total_holdings(&members), 1000);
    for threshold in [0u64, 1, 400, 999, 1000] {
        let request = holdings_request(&cloud, 1, B, threshold);
        let ctx = ProveHoldings { cloud: &cloud, members: &members, unix_timestamp: 1_700_000_123 };
        assert_eq!(
            prove_holdings(&ctx, request.proof_bytes, threshold),
            Ok(HoldingsProofVerified { cloud_id: 12, threshold, timestamp: 1_700_000_123 })
        );
    }
    for threshold in [1001u64, 1002, u64::MAX] {
        let request = holdings_request(&cloud, 1, B, threshold);
        let ctx = ProveHoldings { cloud: &cloud, members: &members, unix_timestamp: 1_700_000_123 };
        assert_eq!(
            prove_holdings(&ctx, request.proof_bytes, threshold),
            Err(ErrorCode::InvalidProof)
        );
    }
}

#[test]
fn holdings_at_the_top_of_the_range_do_not_wrap() {
    let cloud = cloud_of(9, 12, &[A, B, C]);
    let members = balances(&[A, B, C], &[u64::MAX, u64::MAX, 5]);
    assert_eq!(total_holdings(&members), 2 * (u64::MAX as u128) + 5);
    let request = holdings_request(&cloud, 0, A, u64::MAX);
    assert_eq!(request.verify(&cloud, &members), Verdict::Accepted);
}

#[test]
fn a_key_that_the_ring_repeats_is_counted_once() {
    let cloud = cloud_of(9, 12, &[A, B, A]);
    let members = balances(&[A, B, A], &[10, 20, 10]);
    assert_eq!(total_holdings(&members), 30);
    assert_eq!(holdings_request(&cloud, 1, B, 30).verify(&cloud, &members), Verdict::Accepted);
    assert_eq!(
        holdings_request(&cloud, 1, B, 31).verify(&cloud, &members),
        Verdict::Rejected(ErrorCode::InvalidProof)
    );
    assert_eq!(total_holdings(&Vec::new()), 0);
    assert_eq!(total_holdings(&balances(&[A, A, A], &[7, 8, 9])), 7);
}

#[test]
fn holdings_request_needs_a_proof_the_ring_and_a_signature() {
    let cloud = cloud_of(9, 12, &[A, B, C]);
    let members = balances(&[A, B, C], &[400, 0, 600]);
    let request = holdings_request(&cloud, 2, C, 500);
    assert_eq!(request.verify(&cloud, &members), Verdict::Accepted);

    let empty = HoldingsProof { proof_bytes: vec![], threshold: 500 };
    assert_eq!(empty.verify(&cloud, &members), Verdict::Rejected(ErrorCode::InvalidProof));
    let ctx = ProveHoldings { cloud: &cloud, members: &members, unix_timestamp: 0 };
    assert_eq!(prove_holdings(&ctx, vec![], 500), Err(ErrorCode::InvalidProof));
    assert_eq!(prove_holdings(&ctx, vec![1], 500), Err(ErrorCode::InvalidProof));

    // balances of other keys, in another order, or too few
    for listed in [
        balances(&[A, B, D], &[400, 0, 600]),
        balances(&[B, A, C], &[0, 400, 600]),
        balances(&[A, B], &[400, 600]),
        balances(&[A, B, C, D], &[400, 0, 600, 0]),
    ] {
        assert!(!members_list_ring(&listed, cloud.ring_public_keys()));
        assert_eq!(
            request.verify(&cloud, &listed),
            Verdict::Rejected(ErrorCode::InvalidPublicInputs)
        );
    }
    assert!(members_list_ring(&members, cloud.ring_public_keys()));

    // a signature of another threshold, of a transfer, by a stranger, for another cloud
    let other = HoldingsProof { proof_bytes: request.proof_bytes.clone(), threshold: 499 };
    assert_eq!(other.verify(&cloud, &members), Verdict::Rejected(ErrorCode::InvalidProof));
    let transfer = transfer_statement(&cloud, &[1u8; 32], &[2u8; 32], 500);
    let crossed = HoldingsProof {
        proof_bytes: sign(cloud.ring_public_keys(), 2, secret_key(C), &transfer),
        threshold: 500,
    };
    assert_eq!(crossed.verify(&cloud, &members), Verdict::Rejected(ErrorCode::InvalidProof));
    let stranger = holdings_request(&cloud, 2, D, 500);
    assert_eq!(stranger.verify(&cloud, &members), Verdict::Rejected(ErrorCode::InvalidProof));
    let elsewhere = cloud_of(9, 13, &[A, B, C]);
    assert_eq!(request.verify(&elsewhere, &members), Verdict::Rejected(ErrorCode::InvalidProof));
}

use k256::schnorr::signature::hazmat::PrehashVerifier;
use k256::schnorr::{Signature, VerifyingKey};
use mdk_e2e_test::identity::{
    is_valid_proof, preimage, try_pad32, try_signing_key, try_test_identity, AccountIdentityProofRequest,
    SigningKey, TestAccountIdentityProofSigner,
};
use mdk_e2e_test::{pad32, test_identity};

const ALICE: &str = "b774681c8831e75685ec641b59a1c458f7da8dd287e13382957843387d51f9cd";
const BOB: &str = "4eea1c7754a13568590b377e37ba58fe9dd72212ac415e991ea6595d28aa42ff";
const ORDER: &str = "fffffffffffffffffffffffffffffffebaaedce6af48a03bbfd25e8cd0364141";

fn array(hex_text: &str) -> [u8; 32] {
    let mut out = [0u8; 32];
    out.copy_from_slice(&hex::decode(hex_text).unwrap());
    out
}

#[test]
fn pad32_known_keys() {
    assert_eq!(hex::encode(pad32(b"alice")), ALICE);
    assert_eq!(hex::encode(pad32(b"bob")), BOB);
    assert_eq!(
        hex::encode(pad32(b"")),
        "27afc713b791dd93a1c53be7a7faad1f98778edcbb3d5a7f08f5e40a9143105a"
    );
}

#[test]
fn pad32_is_deterministic_and_32_bytes() {
    for seed in [&b"alice"[..], b"bob", b"", &[0xff; 100]] {
        let first = pad32(seed);
        assert_eq!(first.len(), 32);
        assert_eq!(first, pad32(seed));
        assert_eq!(try_pad32(seed), Some(first));
    }
    assert_ne!(pad32(b"alice"), pad32(b"bob"));
}

#[test]
fn test_identity_has_the_key_of_pad32() {
    for seed in [&b"alice"[..], b"bob", b"carol"] {
        let (pubkey, _signer) = test_identity(seed);
        assert_eq!(pubkey, pad32(seed));
        let (again, _signer) = try_test_identity(seed).unwrap();
        assert_eq!(again, pubkey);
    }
}

#[test]
fn preimage_is_label_seed_number() {
    assert_eq!(
        hex::encode(preimage(b"bob", 258)),
        "63676b612d656e67696e652d746573742d6964656e746974792d7631626f620000000000000102"
    );
}

#[test]
fn candidates_outside_the_scalar_range_are_passed_over() {
    assert!(SigningKey::from_material([0u8; 32]).is_none());
    assert!(SigningKey::from_material(array(ORDER)).is_none());
    assert!(SigningKey::from_material([0xff; 32]).is_none());

    let generator = "79be667ef9dcbbac55a06295ce870b07029bfcdb2dce28d959f2815b16f81798";
    let mut one = [0u8; 32];
    one[31] = 1;
    let key = SigningKey::from_material(one).unwrap();
    assert_eq!(hex::encode(key.verifying_key()), generator);

    let mut largest = array(ORDER);
    largest[31] -= 1;
    let key = SigningKey::from_material(largest).unwrap();
    assert_eq!(hex::encode(key.verifying_key()), generator);
}

#[test]
fn signing_key_is_the_first_candidate() {
    let key = try_signing_key(b"alice").unwrap();
    let secret = array("279e60f460f93ed2f9a78e9569595e28a37294d82640cf12ede79301e8a05bd1");
    let same = SigningKey::from_material(secret).unwrap();
    assert_eq!(key.verifying_key(), same.verifying_key());
    assert_eq!(hex::encode(key.verifying_key()), ALICE);
}

#[test]
fn proof_for_own_account_is_a_signature() {
    let (pubkey, signer) = test_identity(b"alice");
    let event_id: Vec<u8> = (0u8..32).collect();
    let request = AccountIdentityProofRequest {
        account_identity: pubkey.clone(),
        proof_event_id: Ok(event_id.clone()),
    };
    let signature = signer.sign_account_identity_proof(&request).unwrap();
    assert_eq!(
        hex::encode(signature),
        "58b058e0acfc09da771cd4ff66b6bcf3cca069281cecc0009830ed54df69f553\
         c2a58168a7ebafe17ac5b80c278a71460ff14f7e30d4960d2321862e3d012920"
    );
    let key = VerifyingKey::from_bytes(&pubkey).unwrap();
    let parsed = Signature::try_from(&signature[..]).unwrap();
    assert!(key.verify_prehash(&event_id, &parsed).is_ok());
}

#[test]
fn proof_for_another_account_is_refused() {
    let (_pubkey, signer) = test_identity(b"alice");
    let refused = Err("request account identity does not match test key".to_string());
    for account in [pad32(b"bob"), vec![], pad32(b"alice")[..31].to_vec()] {
        let with_id = AccountIdentityProofRequest {
            account_identity: account.clone(),
            proof_event_id: Ok(vec![7; 32]),
        };
        assert_eq!(signer.sign_account_identity_proof(&with_id), refused);
        let without_id = AccountIdentityProofRequest {
            account_identity: account,
            proof_event_id: Err("no event id".to_string()),
        };
        assert_eq!(signer.sign_account_identity_proof(&without_id), refused);
    }
}

#[test]
fn missing_event_id_passes_its_reason_on() {
    let key = try_signing_key(b"bob").unwrap();
    let signer = TestAccountIdentityProofSigner::new(key);
    let request = AccountIdentityProofRequest {
        account_identity: pad32(b"bob"),
        proof_event_id: Err("no event id".to_string()),
    };
    assert_eq!(
        signer.sign_account_identity_proof(&request),
        Err("no event id".to_string())
    );
}

#[test]
fn every_proof_is_valid_for_its_account_and_event() {
    for seed in [&b"alice"[..], b"bob", b"carol", b""] {
        let (pubkey, signer) = test_identity(seed);
        for event_id in [vec![], vec![7; 32], (0u8..32).collect(), vec![0xff; 100]] {
            let request = AccountIdentityProofRequest {
                account_identity: pubkey.clone(),
                proof_event_id: Ok(event_id.clone()),
            };
            let signature = signer.sign_account_identity_proof(&request).unwrap();
            assert!(is_valid_proof(&pubkey, &event_id, &signature));
        }
    }
}

#[test]
fn altered_proofs_are_not_valid() {
    let (pubkey, signer) = test_identity(b"alice");
    let event_id = vec![7u8; 32];
    let request = AccountIdentityProofRequest {
        account_identity: pubkey.clone(),
        proof_event_id: Ok(event_id.clone()),
    };
    let signature = signer.sign_account_identity_proof(&request).unwrap();
    assert!(is_valid_proof(&pubkey, &event_id, &signature));

    assert!(!is_valid_proof(&pubkey, &[8u8; 32], &signature));
    assert!(!is_valid_proof(&pubkey, &event_id[..31], &signature));
    assert!(!is_valid_proof(&pad32(b"bob"), &event_id, &signature));
    for place in [0, 31, 32, 63] {
        let mut altered = signature;
        altered[place] ^= 1;
        assert!(!is_valid_proof(&pubkey, &event_id, &altered));
    }
}

#[test]
fn bytes_that_are_no_key_or_no_signature_prove_nothing() {
    let (pubkey, signer) = test_identity(b"alice");
    let event_id = vec![7u8; 32];
    let request = AccountIdentityProofRequest {
        account_identity: pubkey.clone(),
        proof_event_id: Ok(event_id.clone()),
    };
    let signature = signer.sign_account_identity_proof(&request).unwrap();

    assert!(!is_valid_proof(&[0xff; 32], &event_id, &signature));
    assert!(!is_valid_proof(&[0; 32], &event_id, &signature));
    assert!(!is_valid_proof(&[], &event_id, &signature));
    assert!(!is_valid_proof(&pubkey[..31], &event_id, &signature));
    let mut longer = pubkey.clone();
    longer.push(0);
    assert!(!is_valid_proof(&longer, &event_id, &signature));

    assert!(!is_valid_proof(&pubkey, &event_id, &[0; 64]));
    assert!(!is_valid_proof(&pubkey, &event_id, &[0xff; 64]));
    let mut no_scalar = signature;
    no_scalar[32..].copy_from_slice(&array(ORDER));
    assert!(!is_valid_proof(&pubkey, &event_id, &no_scalar));
}

#[test]
fn signer_knows_its_own_account() {
    let (pubkey, signer) = test_identity(b"alice");
    assert!(signer.is_for(&pubkey));
    assert!(!signer.is_for(&pad32(b"bob")));
    assert!(!signer.is_for(&vec![]));
    assert!(!signer.is_for(&pubkey[..31].to_vec()));
}

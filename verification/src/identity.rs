//! Deterministic test identities: a secp256k1 key derived from a seed, and a
//! signer that proves ownership of it.

use crate::bytes::{be_u64, be_value, law_be_u64_value, u64_to_be};
use k256::schnorr::signature::hazmat::{PrehashSigner, PrehashVerifier};
use sha2::{Digest, Sha256};
use vstd::prelude::*;
use vstd::slice::slice_to_vec;
use vstd::utf8::{encode_utf8, is_ascii_chars, is_ascii_chars_encode_utf8};

verus! {

/// The error of the `k256` crate, carried as an opaque value.
#[verifier::external_type_specification]
#[verifier::external_body]
pub struct ExSignatureError(k256::schnorr::Error);

// ---------------------------------------------------------------------------
// Model
// ---------------------------------------------------------------------------

/// The order of the secp256k1 group.
pub open spec fn secp256k1_order() -> int {
    0xFFFF_FFFF_FFFF_FFFF_FFFF_FFFF_FFFF_FFFE_BAAE_DCE6_AF48_A03B_BFD2_5E8C_D036_4141int
}

/// Whether `bytes` are a secret scalar of secp256k1: 32 bytes, big-endian, not
/// zero and below the group order.
pub open spec fn is_secret_scalar(bytes: Seq<u8>) -> bool {
    &&& bytes.len() == 32
    &&& 0 < be_value(bytes) < secp256k1_order()
}

/// The SHA-256 digest that `sha2` computes.
pub uninterp spec fn sha256(data: Seq<u8>) -> Seq<u8>;

/// The x-only public key that `k256` derives from a secret scalar.
pub uninterp spec fn schnorr_public_key(secret: Seq<u8>) -> Seq<u8>;

/// The signature that `k256` makes over a message with a secret scalar and no
/// auxiliary randomness, if it makes one.
pub uninterp spec fn schnorr_signature(secret: Seq<u8>, message: Seq<u8>) -> Option<Seq<u8>>;

/// Whether `k256` takes a signature over a message for one of the owner of an
/// x-only public key.
pub uninterp spec fn schnorr_verifies(
    public_key: Seq<u8>,
    message: Seq<u8>,
    signature: Seq<u8>,
) -> bool;

/// What is hashed for the key candidate with the given number: a domain label,
/// the seed, and the number.
pub open spec fn key_preimage(seed: Seq<u8>, counter: u64) -> Seq<u8> {
    encode_utf8("cgka-engine-test-identity-v1"@) + seed + be_u64(counter)
}

/// The key candidate with the given number.
pub open spec fn key_candidate(seed: Seq<u8>, counter: u64) -> Seq<u8> {
    sha256(key_preimage(seed, counter))
}

/// Whether `counter` numbers the first candidate that is a secret scalar.
pub open spec fn is_key_counter(seed: Seq<u8>, counter: u64) -> bool {
    &&& is_secret_scalar(key_candidate(seed, counter))
    &&& forall|c: u64| c < counter ==> !is_secret_scalar(#[trigger] key_candidate(seed, c))
}

/// Whether some candidate is a secret scalar, so that the seed has an identity.
pub open spec fn has_identity(seed: Seq<u8>) -> bool {
    exists|c: u64| is_secret_scalar(#[trigger] key_candidate(seed, c))
}

/// The secret scalar of a seed: the first candidate that is one.
pub open spec fn identity_secret(seed: Seq<u8>) -> Seq<u8> {
    key_candidate(seed, choose|c: u64| is_key_counter(seed, c))
}

/// The x-only public key of a seed.
pub open spec fn identity_public_key(seed: Seq<u8>) -> Seq<u8> {
    schnorr_public_key(identity_secret(seed))
}

/// The first candidate that is a secret scalar is the seed's secret.
proof fn lemma_identity_secret(seed: Seq<u8>, counter: u64)
    requires
        is_key_counter(seed, counter),
    ensures
        has_identity(seed),
        identity_secret(seed) == key_candidate(seed, counter),
{
    let chosen = choose|c: u64| is_key_counter(seed, c);
    assert(is_key_counter(seed, chosen));
    assert(!(chosen < counter) && !(counter < chosen));
}

// ---------------------------------------------------------------------------
// Outside calls
// ---------------------------------------------------------------------------

/// `Sha256::digest` of `sha2`.
#[verifier::external_body]
pub(crate) fn sha256_digest(data: &[u8]) -> (digest: [u8; 32])
    ensures
        digest@ == sha256(data@),
{
    Sha256::digest(data).into()
}

/// `SigningKey::from_bytes` of `k256`, and the x-only public key of what it
/// gives: takes exactly the secret scalars.
#[verifier::external_body]
pub(crate) fn schnorr_verifying_key(secret: &[u8]) -> (r: Result<[u8; 32], k256::schnorr::Error>)
    ensures
        match r {
            Ok(public_key) => is_secret_scalar(secret@) && public_key@ == schnorr_public_key(
                secret@,
            ),
            Err(_) => !is_secret_scalar(secret@),
        },
{
    let key = k256::schnorr::SigningKey::from_bytes(secret)?;
    Ok(key.verifying_key().to_bytes().into())
}

/// `SigningKey::sign_prehash` of `k256`: a deterministic Schnorr signature over
/// the bytes as they stand, which verifies under the public key of the secret.
/// Where it fails, it does so with an error that has no cause, whose text is
/// always the same.
#[verifier::external_body]
pub(crate) fn schnorr_sign(secret: &[u8], message: &[u8]) -> (r: Result<[u8; 64], String>)
    requires
        is_secret_scalar(secret@),
    ensures
        match r {
            Ok(signature) => {
                &&& schnorr_signature(secret@, message@) == Some(signature@)
                &&& schnorr_verifies(schnorr_public_key(secret@), message@, signature@)
            },
            Err(text) => schnorr_signature(secret@, message@) is None && text@
                == "signature error"@,
        },
{
    let key = k256::schnorr::SigningKey::from_bytes(secret).unwrap();
    let signature: k256::schnorr::Signature = key.sign_prehash(message).map_err(|e| e.to_string())?;
    Ok(signature.to_bytes())
}

/// `VerifyingKey::verify_prehash` of `k256` over the bytes as they stand. Bytes
/// that `VerifyingKey::from_bytes` or `Signature::try_from` refuses, since they
/// are no public key or no signature, verify nothing.
#[verifier::external_body]
pub(crate) fn schnorr_verify(public_key: &[u8], message: &[u8], signature: &[u8; 64]) -> (r: bool)
    requires
        public_key@.len() == 32,
    ensures
        r == schnorr_verifies(public_key@, message@, signature@),
{
    let key = k256::schnorr::VerifyingKey::from_bytes(public_key);
    let signature = k256::schnorr::Signature::try_from(&signature[..]);
    match (key, signature) {
        (Ok(key), Ok(signature)) => key.verify_prehash(message, &signature).is_ok(),
        _ => false,
    }
}

// ---------------------------------------------------------------------------
// Keys
// ---------------------------------------------------------------------------

/// A signing key with its x-only public key.
pub struct SigningKey {
    secret: [u8; 32],
    verifying_key: [u8; 32],
}

impl SigningKey {
    /// The secret scalar.
    pub closed spec fn secret(&self) -> Seq<u8> {
        self.secret@
    }

    #[verifier::type_invariant]
    spec fn well_formed(self) -> bool {
        &&& is_secret_scalar(self.secret@)
        &&& self.verifying_key@ == schnorr_public_key(self.secret@)
    }

    /// The key of the given bytes, if they are a secret scalar.
    pub fn from_material(material: [u8; 32]) -> (key: Option<SigningKey>)
        ensures
            match key {
                Some(key) => is_secret_scalar(material@) && key.secret() == material@,
                None => !is_secret_scalar(material@),
            },
    {
        match schnorr_verifying_key(material.as_slice()) {
            Ok(verifying_key) => Some(SigningKey { secret: material, verifying_key }),
            Err(_) => None,
        }
    }

    /// The x-only public key.
    pub fn verifying_key(&self) -> (bytes: Vec<u8>)
        ensures
            bytes@ == schnorr_public_key(self.secret()),
            bytes@.len() == 32,
            is_secret_scalar(self.secret()),
    {
        proof {
            use_type_invariant(self);
        }
        slice_to_vec(self.verifying_key.as_slice())
    }
}

/// What is hashed for the key candidate with the given number.
pub fn preimage(seed: &[u8], counter: u64) -> (bytes: Vec<u8>)
    ensures
        bytes@ == key_preimage(seed@, counter),
{
    let mut bytes: Vec<u8> = slice_to_vec("cgka-engine-test-identity-v1".as_bytes());
    bytes.extend_from_slice(seed);
    bytes.extend_from_slice(u64_to_be(counter).as_slice());
    assert(bytes@ =~= key_preimage(seed@, counter));
    bytes
}

/// The key of a seed: the first candidate that is a secret scalar, if any is.
pub fn try_signing_key(seed: &[u8]) -> (key: Option<SigningKey>)
    ensures
        match key {
            Some(key) => has_identity(seed@) && key.secret() == identity_secret(seed@),
            None => !has_identity(seed@),
        },
{
    let mut counter: u64 = 0;
    loop
        invariant
            forall|c: u64| c < counter ==> !is_secret_scalar(#[trigger] key_candidate(seed@, c)),
        decreases u64::MAX - counter,
    {
        let material = sha256_digest(preimage(seed, counter).as_slice());
        match SigningKey::from_material(material) {
            Some(key) => {
                proof {
                    lemma_identity_secret(seed@, counter);
                }
                return Some(key);
            },
            None => {},
        }
        if counter == u64::MAX {
            return None;
        }
        counter += 1;
    }
}

/// The key of a seed that has an identity.
fn signing_key(seed: &[u8]) -> (key: SigningKey)
    requires
        has_identity(seed@),
    ensures
        key.secret() == identity_secret(seed@),
{
    try_signing_key(seed).unwrap()
}

/// Derive a deterministic 32-byte x-only secp256k1 pubkey from a human seed.
pub fn pad32(name: &[u8]) -> (pubkey: Vec<u8>)
    requires
        has_identity(name@),
    ensures
        pubkey@ == identity_public_key(name@),
        pubkey@.len() == 32,
{
    signing_key(name).verifying_key()
}

/// [`pad32`], where the seed has an identity.
pub fn try_pad32(name: &[u8]) -> (pubkey: Option<Vec<u8>>)
    ensures
        match pubkey {
            Some(pubkey) => has_identity(name@) && pubkey@ == identity_public_key(name@)
                && pubkey@.len() == 32,
            None => !has_identity(name@),
        },
{
    match try_signing_key(name) {
        Some(_) => Some(pad32(name)),
        None => None,
    }
}

// ---------------------------------------------------------------------------
// Proofs of identity
// ---------------------------------------------------------------------------

/// A request to prove ownership of an account.
#[derive(Debug)]
pub struct AccountIdentityProofRequest {
    /// The public key of the account.
    pub account_identity: Vec<u8>,
    /// The id of the event to sign, or why there is none.
    pub proof_event_id: Result<Vec<u8>, String>,
}

/// Signs identity proofs with the key of a test identity.
pub struct TestAccountIdentityProofSigner(SigningKey);

/// The answer to a proof request: a request for another account is refused, a
/// request without an event id passes its reason on, and any other gets the
/// signature over the event id.
pub open spec fn proof_answer(
    secret: Seq<u8>,
    account_identity: Seq<u8>,
    proof_event_id: Result<Seq<u8>, Seq<char>>,
) -> Result<Seq<u8>, Seq<char>> {
    if account_identity != schnorr_public_key(secret) {
        Err("request account identity does not match test key"@)
    } else {
        match proof_event_id {
            Err(reason) => Err(reason),
            Ok(event_id) => match schnorr_signature(secret, event_id) {
                Some(signature) => Ok(signature),
                None => Err("signature error"@),
            },
        }
    }
}

/// Whether `signature` proves that the owner of `account_identity` stands behind
/// the event with the given id: the account is a public key of 32 bytes, and the
/// signature verifies under it.
pub open spec fn proof_holds(
    account_identity: Seq<u8>,
    event_id: Seq<u8>,
    signature: Seq<u8>,
) -> bool {
    &&& account_identity.len() == 32
    &&& schnorr_verifies(account_identity, event_id, signature)
}

/// Whether `signature` proves that the owner of `account_identity` stands behind
/// the event with the given id.
pub fn is_valid_proof(account_identity: &[u8], event_id: &[u8], signature: &[u8; 64]) -> (r: bool)
    ensures
        r == proof_holds(account_identity@, event_id@, signature@),
        r == (account_identity@.len() == 32 && schnorr_verifies(
            account_identity@,
            event_id@,
            signature@,
        )),
{
    account_identity.len() == 32 && schnorr_verify(account_identity, event_id, signature)
}

impl AccountIdentityProofRequest {
    /// The event id of the request by its view.
    pub open spec fn event_id(&self) -> Result<Seq<u8>, Seq<char>> {
        match self.proof_event_id {
            Ok(event_id) => Ok(event_id@),
            Err(reason) => Err(reason@),
        }
    }
}

impl TestAccountIdentityProofSigner {
    /// The secret scalar of the identity.
    pub closed spec fn secret(&self) -> Seq<u8> {
        self.0.secret()
    }

    /// The signer that signs with `key`.
    pub fn new(key: SigningKey) -> (signer: Self)
        ensures
            signer.secret() == key.secret(),
    {
        TestAccountIdentityProofSigner(key)
    }

    /// Whether `account_identity` is the account of this identity.
    pub fn is_for(&self, account_identity: &Vec<u8>) -> (r: bool)
        ensures
            r == (account_identity@ == schnorr_public_key(self.secret())),
            r ==> account_identity@.len() == 32,
    {
        let public_key = self.0.verifying_key();
        let same_account: bool = public_key == *account_identity;
        assert(same_account ==> public_key@ =~= account_identity@);
        same_account
    }

    /// Signs the event id of a request for this identity's account. Every
    /// signature that comes out is a valid proof for the account and the event id
    /// of the request.
    pub fn sign_account_identity_proof(&self, request: &AccountIdentityProofRequest) -> (r: Result<
        [u8; 64],
        String,
    >)
        ensures
            match r {
                Ok(signature) => proof_answer(
                    self.secret(),
                    request.account_identity@,
                    request.event_id(),
                ) == Ok::<Seq<u8>, Seq<char>>(signature@),
                Err(reason) => proof_answer(
                    self.secret(),
                    request.account_identity@,
                    request.event_id(),
                ) == Err::<Seq<u8>, Seq<char>>(reason@),
            },
            r matches Ok(signature) ==> {
                &&& request.event_id() is Ok
                &&& proof_holds(request.account_identity@, request.event_id()->Ok_0, signature@)
            },
            r matches Ok(signature) ==> {
                &&& request.account_identity@ == schnorr_public_key(self.secret())
                &&& request.proof_event_id matches Ok(event_id)
                &&& schnorr_signature(self.secret(), event_id@) == Some(signature@)
                &&& schnorr_verifies(request.account_identity@, event_id@, signature@)
            },
            request.account_identity@ != schnorr_public_key(self.secret()) ==> (r matches Err(reason)
                && reason@ == "request account identity does not match test key"@),
            request.account_identity@ == schnorr_public_key(self.secret()) ==> (
            match request.proof_event_id {
                Err(why) => r matches Err(reason) && reason@ == why@,
                Ok(event_id) => schnorr_signature(self.secret(), event_id@) is Some ==> r is Ok,
            }),
    {
        if !self.is_for(&request.account_identity) {
            return Err("request account identity does not match test key".to_owned());
        }
        proof {
            use_type_invariant(&self.0);
        }
        match &request.proof_event_id {
            Err(reason) => Err(reason.clone()),
            Ok(event_id) => schnorr_sign(self.0.secret.as_slice(), event_id.as_slice()),
        }
    }
}

/// Returns (32-byte x-only pubkey, proof signer).
pub fn test_identity(seed: &[u8]) -> (identity: (Vec<u8>, TestAccountIdentityProofSigner))
    requires
        has_identity(seed@),
    ensures
        identity.0@ == identity_public_key(seed@),
        identity.0@.len() == 32,
        identity.1.secret() == identity_secret(seed@),
{
    let key = signing_key(seed);
    let pubkey = key.verifying_key();
    (pubkey, TestAccountIdentityProofSigner::new(key))
}

/// [`test_identity`], where the seed has an identity.
pub fn try_test_identity(seed: &[u8]) -> (identity: Option<
    (Vec<u8>, TestAccountIdentityProofSigner),
>)
    ensures
        match identity {
            Some(identity) => {
                &&& has_identity(seed@)
                &&& identity.0@ == identity_public_key(seed@)
                &&& identity.0@.len() == 32
                &&& identity.1.secret() == identity_secret(seed@)
            },
            None => !has_identity(seed@),
        },
{
    match try_signing_key(seed) {
        Some(_) => Some(test_identity(seed)),
        None => None,
    }
}

// ---------------------------------------------------------------------------
// Laws
// ---------------------------------------------------------------------------

proof fn lemma_first_candidate(seed: Seq<u8>, counter: u64)
    requires
        is_secret_scalar(key_candidate(seed, counter)),
    ensures
        exists|c: u64| is_key_counter(seed, c),
    decreases counter,
{
    if exists|c: u64| c < counter && is_secret_scalar(#[trigger] key_candidate(seed, c)) {
        let earlier = choose|c: u64|
            c < counter && is_secret_scalar(#[trigger] key_candidate(seed, c));
        lemma_first_candidate(seed, earlier);
    } else {
        assert(is_key_counter(seed, counter));
    }
}

/// What is hashed holds the label, the whole seed and the number, one after the
/// other and nothing else.
pub proof fn law_preimage_parts(seed: Seq<u8>, counter: u64)
    ensures
        key_preimage(seed, counter).len() == 28 + seed.len() + 8,
        forall|i: int|
            0 <= i < 28 ==> #[trigger] key_preimage(seed, counter)[i] as int
                == "cgka-engine-test-identity-v1"@[i] as int,
        key_preimage(seed, counter).subrange(28, 28 + seed.len() as int) == seed,
        be_value(
            key_preimage(seed, counter).subrange(28 + seed.len() as int, 28 + seed.len() as int + 8),
        ) == counter,
{
    let label = "cgka-engine-test-identity-v1"@;
    reveal_strlit("cgka-engine-test-identity-v1");
    assert(is_ascii_chars(label));
    is_ascii_chars_encode_utf8(label);
    assert(encode_utf8(label).len() == 28);
    law_be_u64_value(counter);
    let bytes = key_preimage(seed, counter);
    assert(bytes.subrange(28, 28 + seed.len() as int) =~= seed);
    assert(bytes.subrange(28 + seed.len() as int, 28 + seed.len() as int + 8) =~= be_u64(counter));
}

/// Different seeds, and different numbers for one seed, are hashed differently.
pub proof fn law_preimage_injective(seed: Seq<u8>, counter: u64, other: Seq<u8>, number: u64)
    requires
        key_preimage(seed, counter) == key_preimage(other, number),
    ensures
        seed == other,
        counter == number,
{
    law_preimage_parts(seed, counter);
    law_preimage_parts(other, number);
}

/// The secret of a seed is the first SHA-256 digest of label, whole seed and a
/// number counted up from zero that is a secret scalar, and its public key is that
/// of this secret. A seed has an identity exactly where some such digest is one.
pub proof fn law_identity_by_first_digest(seed: Seq<u8>)
    ensures
        ({
            let label = encode_utf8("cgka-engine-test-identity-v1"@);
            &&& has_identity(seed) <==> exists|c: u64|
                is_secret_scalar(sha256(label + seed + #[trigger] be_u64(c)))
            &&& has_identity(seed) ==> exists|c: u64|
                {
                    let digest = sha256(label + seed + #[trigger] be_u64(c));
                    &&& is_secret_scalar(digest)
                    &&& identity_secret(seed) == digest
                    &&& identity_public_key(seed) == schnorr_public_key(digest)
                    &&& forall|d: u64|
                        d < c ==> !is_secret_scalar(sha256(label + seed + #[trigger] be_u64(d)))
                }
        }),
{
    let label = encode_utf8("cgka-engine-test-identity-v1"@);
    assert forall|c: u64| #[trigger] key_candidate(seed, c) == sha256(label + seed + be_u64(c)) by {
    }
    if exists|c: u64| is_secret_scalar(sha256(label + seed + #[trigger] be_u64(c))) {
        let c = choose|c: u64| is_secret_scalar(sha256(label + seed + #[trigger] be_u64(c)));
        assert(is_secret_scalar(key_candidate(seed, c)));
    }
    if has_identity(seed) {
        law_identity_secret(seed);
        let c = choose|c: u64| #[trigger]
            is_key_counter(seed, c) && identity_secret(seed) == key_candidate(seed, c);
        assert(is_secret_scalar(sha256(label + seed + be_u64(c))));
        assert forall|d: u64| d < c implies !is_secret_scalar(
            sha256(label + seed + #[trigger] be_u64(d)),
        ) by {
            assert(!is_secret_scalar(key_candidate(seed, d)));
        }
    }
}

/// Whatever the key, a signer answers a request for the account of its key with the
/// signature over the whole event id, and with no other answer where there is one.
pub proof fn law_answer_is_signature(secret: Seq<u8>, event_id: Seq<u8>)
    ensures
        match proof_answer(
            secret,
            schnorr_public_key(secret),
            Ok::<Seq<u8>, Seq<char>>(event_id),
        ) {
            Ok(signature) => schnorr_signature(secret, event_id) == Some(signature),
            Err(text) => schnorr_signature(secret, event_id) is None && text == "signature error"@,
        },
{
}

/// Whatever the key, a signer hands on why a request for its account has no event
/// id.
pub proof fn law_answer_passes_reason_on(secret: Seq<u8>, reason: Seq<char>)
    ensures
        proof_answer(secret, schnorr_public_key(secret), Err::<Seq<u8>, Seq<char>>(reason))
            == Err::<Seq<u8>, Seq<char>>(reason),
{
}

/// Whatever the key, a signer signs nothing for another account.
pub proof fn law_answer_refuses_others(
    secret: Seq<u8>,
    account_identity: Seq<u8>,
    proof_event_id: Result<Seq<u8>, Seq<char>>,
)
    requires
        account_identity != schnorr_public_key(secret),
    ensures
        proof_answer(secret, account_identity, proof_event_id) == Err::<Seq<u8>, Seq<char>>(
            "request account identity does not match test key"@,
        ),
{
}

/// A proof holds exactly where the account has the 32 bytes of a public key and the
/// signature over the event id verifies under it.
pub proof fn law_proof_holds_where_it_verifies(
    account_identity: Seq<u8>,
    event_id: Seq<u8>,
    signature: Seq<u8>,
)
    ensures
        proof_holds(account_identity, event_id, signature) ==> schnorr_verifies(
            account_identity,
            event_id,
            signature,
        ),
        account_identity.len() != 32 ==> !proof_holds(account_identity, event_id, signature),
        account_identity.len() == 32 && schnorr_verifies(account_identity, event_id, signature)
            ==> proof_holds(account_identity, event_id, signature),
{
}

/// The secret of a seed that has an identity is a secret scalar, and every
/// candidate before it is none.
pub proof fn law_identity_secret(seed: Seq<u8>)
    requires
        has_identity(seed),
    ensures
        is_secret_scalar(identity_secret(seed)),
        exists|c: u64| #[trigger]
            is_key_counter(seed, c) && identity_secret(seed) == key_candidate(seed, c),
{
    let some = choose|c: u64| is_secret_scalar(#[trigger] key_candidate(seed, c));
    lemma_first_candidate(seed, some);
}

/// The signer of a test identity takes requests for the public key that comes
/// with it: the answer is the signature over the event id.
pub proof fn law_signs_own_account(seed: Seq<u8>, event_id: Seq<u8>)
    ensures
        proof_answer(
            identity_secret(seed),
            identity_public_key(seed),
            Ok::<Seq<u8>, Seq<char>>(event_id),
        ) == (match schnorr_signature(identity_secret(seed), event_id) {
            Some(signature) => Ok::<Seq<u8>, Seq<char>>(signature),
            None => Err("signature error"@),
        }),
{
}

/// The signer of a test identity refuses a request for any other account,
/// whatever its event id.
pub proof fn law_refuses_other_account(
    seed: Seq<u8>,
    account_identity: Seq<u8>,
    proof_event_id: Result<Seq<u8>, Seq<char>>,
)
    requires
        account_identity != identity_public_key(seed),
    ensures
        proof_answer(identity_secret(seed), account_identity, proof_event_id) == Err::<
            Seq<u8>,
            Seq<char>,
        >("request account identity does not match test key"@),
{
}

} // verus!

//! The cryptographic engine of the vault: hashing the master key into a
//! persistable verifier and checking candidates against it (argon2), and
//! encrypting or decrypting one fixed-size secret block under a fixed-size
//! key (AES-256), plus the random generator for fresh secrets.
//!
//! The cipher works on exactly one block: no padding of its own, no IV, no
//! chaining. The block size equals the maximum secret length, every secret
//! occupies exactly one stored block, and the caller pads shorter inputs
//! with spaces before encryption. This single-block design is a deliberate
//! format constraint: adding a mode of operation would silently change the
//! meaning of every previously stored ciphertext.

use vstd::prelude::*;

use aes::cipher::generic_array::GenericArray;
use aes::cipher::BlockDecrypt;
use aes::cipher::BlockEncrypt;
use aes::cipher::KeyInit;
use argon2::password_hash::SaltString;
use argon2::Argon2;
use argon2::PasswordHasher;
use argon2::PasswordVerifier;
use rand::Rng;
use rand::SeedableRng;

verus! {

use vstd::utf8::encode_utf8;

use crate::MAX_MASTER_KEY_LEN;
use crate::MAX_PASSWORD_LEN;

#[verifier::external_type_specification]
#[verifier::external_body]
pub struct ExChaCha20Rng(rand_chacha::ChaCha20Rng);

/// The AES-256 encryption of the 16-byte `block` under the 32-byte `key`.
pub uninterp spec fn aes256_encrypt(key: Seq<u8>, block: Seq<u8>) -> Seq<u8>;

/// The AES-256 decryption of the 16-byte `block` under the 32-byte `key`.
pub uninterp spec fn aes256_decrypt(key: Seq<u8>, block: Seq<u8>) -> Seq<u8>;

/// Whether argon2 verification of `candidate` against the PHC-encoded
/// `verifier` succeeds: the verifier parses, and re-running the hash with
/// the salt and cost parameters embedded in it reproduces its digest.
pub uninterp spec fn key_matches_verifier(verifier: Seq<char>, candidate: Seq<char>) -> bool;

/// Whether `verifier` parses as a PHC-encoded password hash that argon2
/// can check candidates against: checking reports a match or a mismatch,
/// never another failure, for every candidate within argon2's input
/// bound. A function of the text alone.
pub uninterp spec fn wellformed_verifier(verifier: Seq<char>) -> bool;

/// The largest input, in bytes, that argon2 accepts for hashing or
/// checking; anything longer is rejected as too long.
pub const MAX_HASHABLE_LEN: u64 = 0xFFFFFFFF;

/// `bytes` extended on the right with ASCII spaces up to `width`.
pub open spec fn space_padded(bytes: Seq<u8>, width: int) -> Seq<u8>
    recommends
        bytes.len() <= width,
{
    bytes + Seq::new((width - bytes.len()) as nat, |i: int| 32u8)
}

/// The cipher key derived from a master key: its UTF-8 bytes, space-padded
/// to the fixed key size. This padding is part of the stored-data format.
pub open spec fn padded_key_bytes(key: Seq<char>) -> Seq<u8> {
    space_padded(encode_utf8(key), MAX_MASTER_KEY_LEN as int)
}

/// The plaintext block stored for a secret: its UTF-8 bytes, space-padded
/// to the cipher's block size.
pub open spec fn padded_secret_bytes(secret: Seq<char>) -> Seq<u8> {
    space_padded(encode_utf8(secret), MAX_PASSWORD_LEN as int)
}

/// Extends `p_bytes` on the right with spaces up to `p_width`.
pub fn pad_with_spaces(p_bytes: &[u8], p_width: usize) -> (r: Vec<u8>)
    requires
        p_bytes@.len() <= p_width,
    ensures
        r@ == space_padded(p_bytes@, p_width as int),
        r@.len() == p_width,
{
    let mut padded = vstd::slice::slice_to_vec(p_bytes);
    proof {
        assert(padded@ =~= space_padded(p_bytes@, padded@.len() as int));
    }
    while padded.len() < p_width
        invariant
            p_bytes@.len() <= padded@.len() <= p_width,
            padded@ == space_padded(p_bytes@, padded@.len() as int),
        decreases p_width - padded.len(),
    {
        padded.push(32u8);
        proof {
            assert(padded@ =~= space_padded(p_bytes@, padded@.len() as int));
        }
    }
    padded
}

/// Relies on aes::Aes256 (`cipher::BlockEncrypt::encrypt_block`): AES-256
/// is, for each 32-byte key, a permutation of 16-byte blocks whose inverse
/// is `decrypt_block`, and it depends on nothing but the key and the block.
#[verifier::external_body]
pub fn encrypt(p_key: &[u8], p_data: &[u8]) -> (r: Vec<u8>)
    requires
        p_key@.len() == MAX_MASTER_KEY_LEN,
        p_data@.len() == MAX_PASSWORD_LEN,
    ensures
        r@ == aes256_encrypt(p_key@, p_data@),
        r@.len() == MAX_PASSWORD_LEN,
        aes256_decrypt(p_key@, r@) == p_data@,
{
    let key_block = GenericArray::clone_from_slice(p_key);
    let mut data_block = GenericArray::clone_from_slice(p_data);
    let cipher = aes::Aes256::new(&key_block);
    cipher.encrypt_block(&mut data_block);
    data_block.to_vec()
}

/// Relies on aes::Aes256 (`cipher::BlockDecrypt::decrypt_block`): the
/// inverse permutation of `encrypt_block` under the same key. Decrypting
/// under a different key yields deterministic garbage, never an error:
/// there is no integrity tag, so a wrong key is only detected indirectly.
#[verifier::external_body]
pub fn decrypt(p_key: &[u8], p_data: &[u8]) -> (r: Vec<u8>)
    requires
        p_key@.len() == MAX_MASTER_KEY_LEN,
        p_data@.len() == MAX_PASSWORD_LEN,
    ensures
        r@ == aes256_decrypt(p_key@, p_data@),
        r@.len() == MAX_PASSWORD_LEN,
        aes256_encrypt(p_key@, r@) == p_data@,
{
    let key_block = GenericArray::clone_from_slice(p_key);
    let mut data_block = GenericArray::clone_from_slice(p_data);
    let cipher = aes::Aes256::new(&key_block);
    cipher.decrypt_block(&mut data_block);
    data_block.to_vec()
}

/// Relies on argon2::Argon2::hash_password with a fresh random salt from
/// password_hash::SaltString::generate (seeded by rand_chacha's
/// ChaCha20Rng::from_entropy): the returned PHC string verifies against
/// the hashed input, and on an input within the key-length bound, with
/// the default parameters and a generated salt (always sixteen bytes,
/// within argon2's salt bounds), every failure path is unreachable, so
/// the call succeeds whatever salt the randomness drew. The salt is drawn
/// anew on every call, so two hashes of one key differ; nothing is
/// promised about the text itself. A failure comes out as its message
/// text.
#[verifier::external_body]
pub fn hash(p_input: &str) -> (r: Result<String, String>)
    ensures
        encode_utf8(p_input@).len() <= MAX_MASTER_KEY_LEN ==> r is Ok,
        r matches Ok(v) ==> key_matches_verifier(v@, p_input@),
        r matches Ok(v) ==> wellformed_verifier(v@),
{
    let mut cha_cha_rng = rand_chacha::ChaCha20Rng::from_entropy();
    let salt = SaltString::generate(&mut cha_cha_rng);
    let argon2 = Argon2::default();
    match argon2.hash_password(p_input.as_bytes(), &salt) {
        Ok(hashed) => Ok(hashed.to_string()),
        Err(err) => Err(format!("{}", err)),
    }
}

/// What checking a candidate master key against a stored verifier can say.
pub(crate) enum VerifyOutcome {
    /// The verifier parses and the candidate reproduces its digest.
    Match,
    /// The verifier parses but the candidate does not reproduce its digest.
    Mismatch,
    /// The verifier does not parse as a supported password hash.
    Malformed,
}

/// Relies on argon2::PasswordHash::new to parse the PHC string and on
/// argon2::Argon2::verify_password to re-run the hash with the embedded
/// salt and cost parameters and compare digests in constant time. Both
/// are functions of the verifier text and the candidate alone, and every
/// failure other than a digest mismatch (an unsupported algorithm id, bad
/// parameters, an undecodable salt) depends on the verifier text alone,
/// as long as the candidate itself is within argon2's input bound.
#[verifier::external_body]
pub(crate) fn verify(p_verifier: &str, p_candidate: &str) -> (r: VerifyOutcome)
    ensures
        (r is Match) == key_matches_verifier(p_verifier@, p_candidate@),
        !wellformed_verifier(p_verifier@) ==> r is Malformed,
        wellformed_verifier(p_verifier@) && encode_utf8(p_candidate@).len() <= MAX_HASHABLE_LEN
            ==> !(r is Malformed),
{
    let parsed = match argon2::PasswordHash::new(p_verifier) {
        Ok(parsed) => parsed,
        Err(_) => return VerifyOutcome::Malformed,
    };
    match Argon2::default().verify_password(p_candidate.as_bytes(), &parsed) {
        Ok(()) => VerifyOutcome::Match,
        Err(argon2::password_hash::Error::Password) => VerifyOutcome::Mismatch,
        Err(_) => VerifyOutcome::Malformed,
    }
}

/// Relies on rand_chacha::ChaCha20Rng::from_entropy: a cryptographically
/// secure generator seeded from the system entropy source. Nothing can be
/// promised of its output.
#[verifier::external_body]
pub(crate) fn new_entropy_rng() -> rand_chacha::ChaCha20Rng {
    rand_chacha::ChaCha20Rng::from_entropy()
}

/// Relies on rand::Rng::gen_range(33..127): the sample always lies in the
/// asked-for range of printable, non-space ASCII codes.
#[verifier::external_body]
pub(crate) fn gen_printable_byte(p_rng: &mut rand_chacha::ChaCha20Rng) -> (r: u8)
    ensures
        33 <= r < 127,
{
    p_rng.gen_range(33..127)
}

} // verus!

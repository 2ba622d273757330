//! A local secrets vault. A user sets one master key; the vault stores
//! named secrets encrypted so that only knowledge of the master key
//! recovers them. The master key is never persisted: each operation takes
//! it afresh, verifies it against a stored argon2 verifier, derives the
//! cipher key by space-padding it, and forgets it when the call returns.
//!
//! Secrets live in an embedded SQLite table of (name, ciphertext) pairs
//! with names unique among live entries; each ciphertext is exactly one
//! AES-256 block. The front ends around this library only gather input,
//! prompt and print.

use vstd::prelude::*;

pub mod crypto;
pub mod store;

verus! {

use vstd::string::StringExecFns;
use vstd::utf8::decode_utf8;
use vstd::utf8::encode_utf8;
use vstd::utf8::valid_utf8;

/// Maximum length, in bytes, of the master key; also the AES-256 key size.
pub const MAX_MASTER_KEY_LEN: usize = 32;

/// Maximum length, in bytes, of a stored secret; also the AES block size.
pub const MAX_PASSWORD_LEN: usize = 16;

/// Everything that a vault operation can report instead of succeeding.
/// All of these are recoverable and surfaced to the caller; no verified
/// function of this library panics. Failures of outside collaborators
/// (the hash, the store, the disk) carry their message text.
#[derive(Debug)]
pub enum Error {
    /// Hashing the master key failed inside argon2.
    HashError(String),
    /// The secret store reported a failure.
    DatabaseError(String),
    /// Reading or writing the master key record failed.
    IOError(String),
    /// Stored bytes were not valid UTF-8 where text was required.
    FromUtf8Error(String),
    /// No master key record exists yet.
    MasterKeyDoesntExist,
    /// The offered master key exceeds the maximum length.
    MasterKeyTooLong,
    /// A master key record already exists; it is set exactly once.
    MasterKeyAlreadyExists,
    /// The offered master key does not match the stored verifier.
    IncorrectKey,
    /// The stored verifier does not parse as a password hash.
    MalformedVerifier,
    /// A secret with that name already exists.
    PasswordAlreadyExists,
    /// No secret with that name exists.
    PasswordDoesntExist(String),
    /// The offered secret exceeds the block size.
    PasswordTooLong,
    /// An internal invariant did not hold (a stored blob of the wrong size).
    UnknownError,
}

impl Error {
    /// The one-line human-readable message for this error.
    pub fn get_message(&self) -> (r: String)
        ensures
            self is MasterKeyTooLong ==> r@ == "Your master key is too long! Master keys can only be up to 32 characters long."@,
            self is MasterKeyAlreadyExists ==> r@ == "The master key has already been set. Don't try to set it again, as it will break stuff."@,
            self is MasterKeyDoesntExist ==> r@ == "It looks like you didn't set a master key yet! Use the set-master command to do so."@,
            self is IncorrectKey ==> r@ == "The password is incorrect."@,
            self is MalformedVerifier ==> r@ == "The master key record is corrupted and cannot be checked against."@,
            self is PasswordAlreadyExists ==> r@ == "A password with that name already exists!"@,
            self matches Error::PasswordDoesntExist(name) ==> r@
                == "There appears to be no password saved that is named "@ + name@,
            self matches Error::HashError(text) ==> r@ == "Failed to hash the password: "@
                + text@,
            self matches Error::DatabaseError(text) ==> r@ == "SQL error: "@ + text@,
            self matches Error::IOError(text) ==> r@ == "IO Error: "@ + text@,
            self matches Error::FromUtf8Error(text) ==> r@ == "Invalid UTF-8 string: "@ + text@,
            self is PasswordTooLong ==> r@ == "Your password is too long! Passwords can only be up to 16 characters long."@,
            self is UnknownError ==> r@ == "Sorry, but something went wrong."@,
    {
        match self {
            Error::HashError(text) => "Failed to hash the password: ".to_owned().concat(
                text.as_str(),
            ),
            Error::DatabaseError(text) => "SQL error: ".to_owned().concat(text.as_str()),
            Error::IOError(text) => "IO Error: ".to_owned().concat(text.as_str()),
            Error::FromUtf8Error(text) => "Invalid UTF-8 string: ".to_owned().concat(
                text.as_str(),
            ),
            Error::MasterKeyTooLong => "Your master key is too long! Master keys can only be up to 32 characters long.".to_owned(),
            Error::MasterKeyAlreadyExists => "The master key has already been set. Don't try to set it again, as it will break stuff.".to_owned(),
            Error::MasterKeyDoesntExist => "It looks like you didn't set a master key yet! Use the set-master command to do so.".to_owned(),
            Error::IncorrectKey => "The password is incorrect.".to_owned(),
            Error::MalformedVerifier => "The master key record is corrupted and cannot be checked against.".to_owned(),
            Error::PasswordAlreadyExists => "A password with that name already exists!".to_owned(),
            Error::PasswordDoesntExist(name) => "There appears to be no password saved that is named ".to_owned().concat(name.as_str()),
            Error::PasswordTooLong => "Your password is too long! Passwords can only be up to 16 characters long.".to_owned(),
            Error::UnknownError => "Sorry, but something went wrong.".to_owned(),
        }
    }
}

/// Hashes a fresh master key into the verifier text to persist, when no
/// record exists yet. The caller reports in `p_key_file_exists` whether a
/// master key record is already persisted; the record is written exactly
/// once, and the existence check enforces it. On a fresh vault and a key
/// within the length bound it succeeds: hashing such a key cannot fail.
pub fn set_master_key(p_key_file_exists: bool, p_new_key: &str) -> (r: Result<String, Error>)
    ensures
        p_key_file_exists ==> r matches Err(Error::MasterKeyAlreadyExists),
        !p_key_file_exists && encode_utf8(p_new_key@).len() > MAX_MASTER_KEY_LEN ==> r matches Err(
            Error::MasterKeyTooLong,
        ),
        !p_key_file_exists && encode_utf8(p_new_key@).len() <= MAX_MASTER_KEY_LEN ==> {
            &&& r is Ok
            &&& (r matches Ok(verifier) ==> crypto::key_matches_verifier(verifier@, p_new_key@)
                && crypto::wellformed_verifier(verifier@))
        },
{
    if p_key_file_exists {
        return Err(Error::MasterKeyAlreadyExists);
    }
    if p_new_key.as_bytes().len() > MAX_MASTER_KEY_LEN {
        return Err(Error::MasterKeyTooLong);
    }
    match crypto::hash(p_new_key) {
        Ok(verifier) => Ok(verifier),
        Err(err) => Err(Error::HashError(err)),
    }
}

/// Authenticates a candidate master key against the persisted verifier
/// and, on success, returns the key unchanged for immediate use in cipher
/// operations; it is never cached. `p_stored_verifier` is the persisted
/// record, or nothing when the vault is uninitialized.
pub fn query_master_key(p_stored_verifier: Option<&str>, p_inputted_password: &str) -> (r: Result<
    String,
    Error,
>)
    ensures
        r is Ok <==> (p_stored_verifier matches Some(verifier) && crypto::key_matches_verifier(
            verifier@,
            p_inputted_password@,
        )),
        r matches Ok(key) ==> key@ == p_inputted_password@,
        (p_stored_verifier is None) <==> (r matches Err(Error::MasterKeyDoesntExist)),
        p_stored_verifier matches Some(verifier) && !crypto::wellformed_verifier(verifier@)
            ==> r matches Err(Error::MalformedVerifier),
        p_stored_verifier matches Some(verifier) && crypto::wellformed_verifier(verifier@)
            && !crypto::key_matches_verifier(verifier@, p_inputted_password@) && encode_utf8(
            p_inputted_password@,
        ).len() <= crypto::MAX_HASHABLE_LEN ==> r matches Err(Error::IncorrectKey),
        r matches Err(err) ==> (err is MasterKeyDoesntExist || err is IncorrectKey
            || err is MalformedVerifier),
{
    let verifier = match p_stored_verifier {
        Some(verifier) => verifier,
        None => {
            return Err(Error::MasterKeyDoesntExist);
        },
    };
    match crypto::verify(verifier, p_inputted_password) {
        crypto::VerifyOutcome::Match => Ok(p_inputted_password.to_owned()),
        crypto::VerifyOutcome::Mismatch => Err(Error::IncorrectKey),
        crypto::VerifyOutcome::Malformed => Err(Error::MalformedVerifier),
    }
}

/// Draws a fresh secret of the full block length, every byte a printable,
/// non-space ASCII code, from a cryptographically secure source.
pub fn generate_password() -> (r: Vec<u8>)
    ensures
        r@.len() == MAX_PASSWORD_LEN,
        forall|i: int| 0 <= i < r@.len() ==> 33 <= #[trigger] r@[i] < 127,
{
    let mut rng = crypto::new_entropy_rng();
    let mut password: Vec<u8> = Vec::new();
    while password.len() < MAX_PASSWORD_LEN
        invariant
            password@.len() <= MAX_PASSWORD_LEN,
            forall|i: int| 0 <= i < password@.len() ==> 33 <= #[trigger] password@[i] < 127,
        decreases MAX_PASSWORD_LEN - password.len(),
    {
        let byte = crypto::gen_printable_byte(&mut rng);
        password.push(byte);
    }
    password
}

/// The ciphertext block that the vault stores for `secret` under `key`:
/// the space-padded secret encrypted with the space-padded key.
pub open spec fn stored_ciphertext(key: Seq<char>, secret: Seq<char>) -> Seq<u8> {
    crypto::aes256_encrypt(
        crypto::padded_key_bytes(key),
        crypto::padded_secret_bytes(secret),
    )
}

/// Encrypts `p_password` under `p_master_key` and stores it under
/// `p_name`, after checking that the name is free and the secret fits in
/// one block. The existence check and the insert are one logical
/// operation: no other operation may interleave on the same store.
pub fn create_password(
    p_master_key: String,
    p_name: &str,
    p_password: &str,
    p_sql_connection: &mut rusqlite::Connection,
) -> (r: Result<(), Error>)
    requires
        encode_utf8(p_master_key@).len() <= MAX_MASTER_KEY_LEN,
    ensures
        r matches Err(Error::PasswordAlreadyExists) ==> store::table_of(
            *old(p_sql_connection),
        ).contains_key(p_name@),
        store::table_of(*old(p_sql_connection)).contains_key(p_name@) ==> (r matches Err(
            Error::PasswordAlreadyExists,
        ) || r matches Err(Error::DatabaseError(_))),
        r matches Err(Error::PasswordTooLong) ==> encode_utf8(p_password@).len()
            > MAX_PASSWORD_LEN,
        !store::table_of(*old(p_sql_connection)).contains_key(p_name@) && encode_utf8(
            p_password@,
        ).len() <= MAX_PASSWORD_LEN ==> (r is Ok || r matches Err(Error::DatabaseError(_))),
        r is Ok ==> encode_utf8(p_password@).len() <= MAX_PASSWORD_LEN,
        r is Ok ==> store::table_of(*final(p_sql_connection)) == store::table_of(
            *old(p_sql_connection),
        ).insert(p_name@, stored_ciphertext(p_master_key@, p_password@)),
        r is Ok ==> store::table_of(*final(p_sql_connection))[p_name@].len() == MAX_PASSWORD_LEN,
        r is Ok ==> crypto::aes256_decrypt(
            crypto::padded_key_bytes(p_master_key@),
            store::table_of(*final(p_sql_connection))[p_name@],
        ) == crypto::padded_secret_bytes(p_password@),
        r is Err ==> store::table_of(*final(p_sql_connection)) == store::table_of(
            *old(p_sql_connection),
        ),
        r matches Err(err) ==> (err is PasswordAlreadyExists || err is PasswordTooLong
            || err is DatabaseError),
{
    let already_there = match store::db_exists(&*p_sql_connection, p_name) {
        Ok(answer) => answer,
        Err(err) => {
            return Err(Error::DatabaseError(err));
        },
    };
    if already_there {
        return Err(Error::PasswordAlreadyExists);
    }
    let password_bytes = p_password.as_bytes();
    if password_bytes.len() > MAX_PASSWORD_LEN {
        return Err(Error::PasswordTooLong);
    }
    let key_block = crypto::pad_with_spaces(p_master_key.as_str().as_bytes(), MAX_MASTER_KEY_LEN);
    let secret_block = crypto::pad_with_spaces(password_bytes, MAX_PASSWORD_LEN);
    let encrypted_password = crypto::encrypt(key_block.as_slice(), secret_block.as_slice());
    match store::db_insert(p_sql_connection, p_name, encrypted_password.as_slice()) {
        Ok(()) => Ok(()),
        Err(err) => Err(Error::DatabaseError(err)),
    }
}

/// `bytes` with every trailing ASCII space removed: the inverse, on
/// blocks whose content does not itself end in a space, of the space
/// padding applied before encryption.
pub open spec fn strip_trailing_spaces(bytes: Seq<u8>) -> Seq<u8>
    decreases bytes.len(),
{
    if bytes.len() > 0 && bytes.last() == 32u8 {
        strip_trailing_spaces(bytes.drop_last())
    } else {
        bytes
    }
}

fn strip_padding(p_block: Vec<u8>) -> (r: Vec<u8>)
    ensures
        r@ == strip_trailing_spaces(p_block@),
{
    let mut block = p_block;
    while block.len() > 0 && block[block.len() - 1] == 32u8
        invariant
            strip_trailing_spaces(block@) == strip_trailing_spaces(p_block@),
        decreases block.len(),
    {
        block.pop();
    }
    block
}

/// The text that lossy UTF-8 decoding makes of `bytes`.
pub uninterp spec fn lossy_decode(bytes: Seq<u8>) -> Seq<char>;

/// Relies on String::from_utf8_lossy: a function of the bytes alone that
/// decodes valid UTF-8 exactly and replaces each invalid sequence with
/// the replacement character.
#[verifier::external_body]
fn lossy_string(p_bytes: &[u8]) -> (r: String)
    ensures
        r@ == lossy_decode(p_bytes@),
        valid_utf8(p_bytes@) ==> r@ == decode_utf8(p_bytes@),
{
    String::from_utf8_lossy(p_bytes).into_owned()
}

/// The plaintext block that reading a stored blob under `key` recovers:
/// the blob decrypted with the padded key, its trailing space padding
/// stripped.
pub open spec fn plaintext_block_of(key: Seq<char>, blob: Seq<u8>) -> Seq<u8> {
    strip_trailing_spaces(crypto::aes256_decrypt(crypto::padded_key_bytes(key), blob))
}

/// The text that reading a stored blob under `key` returns: the recovered
/// plaintext block, lossily decoded as text.
pub open spec fn recovered_secret(key: Seq<char>, blob: Seq<u8>) -> Seq<char> {
    lossy_decode(plaintext_block_of(key, blob))
}

/// Stripping the trailing space padding recovers exactly the content that
/// was padded, for any content that does not itself end in a space. A
/// secret that ends in a space is the one input on which stripping takes
/// more than the padding.
pub proof fn lemma_pad_strip_round_trip(bytes: Seq<u8>, width: int)
    requires
        bytes.len() <= width,
        bytes.len() > 0 ==> bytes.last() != 32u8,
    ensures
        strip_trailing_spaces(crypto::space_padded(bytes, width)) == bytes,
    decreases width - bytes.len(),
{
    let padded = crypto::space_padded(bytes, width);
    if bytes.len() == width {
        assert(padded =~= bytes);
    } else {
        let shorter = crypto::space_padded(bytes, width - 1);
        assert(padded.last() == 32u8);
        assert(padded.drop_last() =~= shorter);
        lemma_pad_strip_round_trip(bytes, width - 1);
    }
}

/// Decrypts the secret stored under `p_name` with `p_master_key` and
/// returns it as text, trailing space padding stripped. A blob encrypted
/// under a different key decrypts to garbage, not to an error: there is
/// no integrity tag, so a wrong key shows only in garbled output.
pub fn get_password(
    p_master_key: String,
    p_name: &str,
    p_sql_connection: &rusqlite::Connection,
) -> (r: Result<String, Error>)
    requires
        encode_utf8(p_master_key@).len() <= MAX_MASTER_KEY_LEN,
    ensures
        r matches Err(Error::PasswordDoesntExist(missing)) ==> !store::table_of(
            *p_sql_connection,
        ).contains_key(p_name@) && missing@ == p_name@,
        !store::table_of(*p_sql_connection).contains_key(p_name@) ==> (r matches Err(
            Error::PasswordDoesntExist(_),
        ) || r matches Err(Error::DatabaseError(_))),
        r matches Ok(secret) ==> {
            &&& store::table_of(*p_sql_connection).contains_key(p_name@)
            &&& store::table_of(*p_sql_connection)[p_name@].len() == MAX_PASSWORD_LEN
            &&& secret@ == recovered_secret(
                p_master_key@,
                store::table_of(*p_sql_connection)[p_name@],
            )
            &&& valid_utf8(
                plaintext_block_of(p_master_key@, store::table_of(*p_sql_connection)[p_name@]),
            ) ==> secret@ == decode_utf8(
                plaintext_block_of(p_master_key@, store::table_of(*p_sql_connection)[p_name@]),
            )
        },
        store::table_of(*p_sql_connection).contains_key(p_name@) && store::table_of(
            *p_sql_connection,
        )[p_name@].len() == MAX_PASSWORD_LEN ==> (r is Ok || r matches Err(
            Error::DatabaseError(_),
        )),
        r matches Err(Error::UnknownError) ==> store::table_of(*p_sql_connection)[p_name@].len()
            != MAX_PASSWORD_LEN,
        r matches Err(err) ==> (err is PasswordDoesntExist || err is DatabaseError
            || err is UnknownError),
{
    let blob = match store::db_get(p_sql_connection, p_name) {
        Ok(Some(blob)) => blob,
        Ok(None) => {
            return Err(Error::PasswordDoesntExist(p_name.to_owned()));
        },
        Err(err) => {
            return Err(Error::DatabaseError(err));
        },
    };
    if blob.len() != MAX_PASSWORD_LEN {
        return Err(Error::UnknownError);
    }
    let key_block = crypto::pad_with_spaces(p_master_key.as_str().as_bytes(), MAX_MASTER_KEY_LEN);
    let decrypted_password = crypto::decrypt(key_block.as_slice(), blob.as_slice());
    let stripped = strip_padding(decrypted_password);
    Ok(lossy_string(stripped.as_slice()))
}

/// Removes every secret stored under `p_name` and reports how many rows
/// went. Deleting an absent name is not an error: it removes zero rows,
/// and deleting the same name again removes nothing more.
pub fn delete_password(p_name: &str, p_sql_connection: &mut rusqlite::Connection) -> (r: Result<
    usize,
    Error,
>)
    ensures
        r is Ok ==> store::table_of(*final(p_sql_connection)) == store::table_of(
            *old(p_sql_connection),
        ).remove(p_name@),
        r matches Ok(n) ==> (!store::table_of(*old(p_sql_connection)).contains_key(p_name@) ==> n
            == 0),
        r matches Ok(n) ==> (store::table_of(*old(p_sql_connection)).contains_key(p_name@) ==> n
            >= 1),
        r is Err ==> store::table_of(*final(p_sql_connection)) == store::table_of(
            *old(p_sql_connection),
        ),
        r matches Err(err) ==> err is DatabaseError,
{
    match store::db_delete(p_sql_connection, p_name) {
        Ok(count) => Ok(count),
        Err(err) => Err(Error::DatabaseError(err)),
    }
}

/// Lists the names of all stored secrets. Names are not encrypted, so no
/// key is needed.
pub fn get_password_list(p_sql_connection: &rusqlite::Connection) -> (r: Result<
    Vec<String>,
    Error,
>)
    ensures
        r matches Ok(names) ==> store::lists_table(names@, store::table_of(*p_sql_connection)),
        r matches Err(err) ==> err is DatabaseError,
{
    match store::db_list(p_sql_connection) {
        Ok(names) => Ok(names),
        Err(err) => Err(Error::DatabaseError(err)),
    }
}

} // verus!

use neng_pass::crypto;
use neng_pass::Error;
use neng_pass::MAX_MASTER_KEY_LEN;
use neng_pass::MAX_PASSWORD_LEN;

fn fresh_db() -> rusqlite::Connection {
    neng_pass::store::open_and_prepare_database(":memory:").expect("in-memory database opens")
}

#[test]
fn encrypt_decrypt_round_trip() {
    let key: Vec<u8> = (0u8..MAX_MASTER_KEY_LEN as u8).collect();
    let plaintext: Vec<u8> = (100u8..100 + MAX_PASSWORD_LEN as u8).collect();
    let ciphertext = crypto::encrypt(&key, &plaintext);
    assert_eq!(ciphertext.len(), MAX_PASSWORD_LEN);
    assert_ne!(ciphertext, plaintext);
    let recovered = crypto::decrypt(&key, &ciphertext);
    assert_eq!(recovered, plaintext);
}

#[test]
fn wrong_key_decrypts_to_garbage() {
    let key1 = crypto::pad_with_spaces(b"correct horse", MAX_MASTER_KEY_LEN);
    let key2 = crypto::pad_with_spaces(b"battery staple", MAX_MASTER_KEY_LEN);
    let plaintext = crypto::pad_with_spaces(b"p@ssw0rd!", MAX_PASSWORD_LEN);
    let ciphertext = crypto::encrypt(&key1, &plaintext);
    let garbled = crypto::decrypt(&key2, &ciphertext);
    assert_ne!(garbled, plaintext);
}

#[test]
fn pad_with_spaces_extends_to_width() {
    let padded = crypto::pad_with_spaces(b"ab", 5);
    assert_eq!(padded, vec![b'a', b'b', b' ', b' ', b' ']);
    let untouched = crypto::pad_with_spaces(b"abcde", 5);
    assert_eq!(untouched, vec![b'a', b'b', b'c', b'd', b'e']);
}

#[test]
fn hash_is_salted_but_both_verify() {
    let first = crypto::hash("hunter2").expect("hashing succeeds");
    let second = crypto::hash("hunter2").expect("hashing succeeds");
    assert_ne!(first, second);
    assert!(neng_pass::query_master_key(Some(&first), "hunter2").is_ok());
    assert!(neng_pass::query_master_key(Some(&second), "hunter2").is_ok());
    assert!(matches!(
        neng_pass::query_master_key(Some(&first), "hunter3"),
        Err(Error::IncorrectKey)
    ));
}

#[test]
fn hash_produces_self_describing_verifier() {
    let verifier = crypto::hash("some key").expect("hashing succeeds");
    assert!(verifier.starts_with("$argon2"));
}

#[test]
fn set_master_key_rejects_existing_record() {
    let result = neng_pass::set_master_key(true, "hunter2");
    assert!(matches!(result, Err(Error::MasterKeyAlreadyExists)));
}

#[test]
fn set_master_key_rejects_long_key() {
    let long_key = "k".repeat(MAX_MASTER_KEY_LEN + 1);
    let result = neng_pass::set_master_key(false, &long_key);
    assert!(matches!(result, Err(Error::MasterKeyTooLong)));
    let longest_key = "k".repeat(MAX_MASTER_KEY_LEN);
    assert!(neng_pass::set_master_key(false, &longest_key).is_ok());
}

#[test]
fn query_master_key_without_record_is_uninitialized() {
    let result = neng_pass::query_master_key(None, "hunter2");
    assert!(matches!(result, Err(Error::MasterKeyDoesntExist)));
}

#[test]
fn query_master_key_reports_malformed_verifier() {
    let result = neng_pass::query_master_key(Some("garbage record"), "hunter2");
    assert!(matches!(result, Err(Error::MalformedVerifier)));
}

#[test]
fn generate_password_is_one_printable_block() {
    let password = neng_pass::generate_password();
    assert_eq!(password.len(), MAX_PASSWORD_LEN);
    for byte in &password {
        assert!((33..127).contains(byte));
    }
    let another = neng_pass::generate_password();
    assert_ne!(password, another);
    assert!(std::str::from_utf8(&password).is_ok());
}

#[test]
fn create_password_rejects_duplicate_name() {
    let mut conn = fresh_db();
    let first = neng_pass::create_password("key".to_string(), "alpha", "one", &mut conn);
    assert!(first.is_ok());
    let second = neng_pass::create_password("key".to_string(), "alpha", "two", &mut conn);
    assert!(matches!(second, Err(Error::PasswordAlreadyExists)));
}

#[test]
fn create_password_rejects_long_password() {
    let mut conn = fresh_db();
    let long_password = "p".repeat(MAX_PASSWORD_LEN + 1);
    let result = neng_pass::create_password("key".to_string(), "alpha", &long_password, &mut conn);
    assert!(matches!(result, Err(Error::PasswordTooLong)));
    let longest_password = "p".repeat(MAX_PASSWORD_LEN);
    let ok = neng_pass::create_password("key".to_string(), "alpha", &longest_password, &mut conn);
    assert!(ok.is_ok());
    let read = neng_pass::get_password("key".to_string(), "alpha", &conn);
    assert_eq!(read.unwrap_or_default(), longest_password);
}

#[test]
fn short_password_padding_is_stripped_on_read() {
    let mut conn = fresh_db();
    neng_pass::create_password("key".to_string(), "alpha", "ab", &mut conn)
        .expect("creating succeeds");
    let read = neng_pass::get_password("key".to_string(), "alpha", &conn);
    assert_eq!(read.unwrap_or_default(), "ab");
}

#[test]
fn get_password_reports_missing_name() {
    let conn = fresh_db();
    let result = neng_pass::get_password("key".to_string(), "missing", &conn);
    match result {
        Err(Error::PasswordDoesntExist(name)) => assert_eq!(&*name, "missing"),
        _ => panic!("expected the missing-password error"),
    }
}

#[test]
fn delete_password_on_missing_name_removes_zero() {
    let mut conn = fresh_db();
    let removed = neng_pass::delete_password("missing", &mut conn);
    assert!(matches!(removed, Ok(0)));
    let removed_again = neng_pass::delete_password("missing", &mut conn);
    assert!(matches!(removed_again, Ok(0)));
}

#[test]
fn delete_password_twice_is_safe() {
    let mut conn = fresh_db();
    neng_pass::create_password("key".to_string(), "alpha", "one", &mut conn)
        .expect("creating succeeds");
    let removed = neng_pass::delete_password("alpha", &mut conn);
    assert!(matches!(removed, Ok(1)));
    let removed_again = neng_pass::delete_password("alpha", &mut conn);
    assert!(matches!(removed_again, Ok(0)));
}

#[test]
fn list_of_empty_vault_is_empty() {
    let conn = fresh_db();
    let names = neng_pass::get_password_list(&conn);
    assert_eq!(names.unwrap_or_default(), Vec::<String>::new());
}

#[test]
fn list_returns_every_stored_name() {
    let mut conn = fresh_db();
    neng_pass::create_password("key".to_string(), "alpha", "one", &mut conn)
        .expect("creating succeeds");
    neng_pass::create_password("key".to_string(), "beta", "two", &mut conn)
        .expect("creating succeeds");
    let mut names = neng_pass::get_password_list(&conn).unwrap_or_default();
    names.sort();
    assert_eq!(names, vec!["alpha".to_string(), "beta".to_string()]);
}

#[test]
fn generated_password_survives_storage() {
    let mut conn = fresh_db();
    let generated = neng_pass::generate_password();
    let generated = std::str::from_utf8(&generated).expect("printable ASCII is text").to_string();
    neng_pass::create_password("key".to_string(), "alpha", &generated, &mut conn)
        .expect("creating succeeds");
    let read = neng_pass::get_password("key".to_string(), "alpha", &conn);
    assert_eq!(read.unwrap_or_default(), generated);
}

#[test]
fn end_to_end_vault_session() {
    let verifier = neng_pass::set_master_key(false, "hunter2").expect("setting the key succeeds");

    let key = match neng_pass::query_master_key(Some(&verifier), "hunter2") {
        Ok(key) => key,
        Err(_) => panic!("the right key authenticates"),
    };
    assert_eq!(key, "hunter2");

    let wrong = neng_pass::query_master_key(Some(&verifier), "wrong");
    assert!(matches!(wrong, Err(Error::IncorrectKey)));

    let mut conn = fresh_db();
    neng_pass::create_password(key.clone(), "email", "p@ssw0rd!", &mut conn)
        .expect("creating succeeds");

    let read = neng_pass::get_password(key.clone(), "email", &conn);
    assert_eq!(read.unwrap_or_default(), "p@ssw0rd!");

    let names = neng_pass::get_password_list(&conn).unwrap_or_default();
    assert!(names.iter().any(|name| name == "email"));

    let removed = neng_pass::delete_password("email", &mut conn);
    assert!(matches!(removed, Ok(1)));

    let read_after_delete = neng_pass::get_password(key, "email", &conn);
    match read_after_delete {
        Err(Error::PasswordDoesntExist(name)) => assert_eq!(&*name, "email"),
        _ => panic!("expected the missing-password error"),
    }
}

#[test]
fn reading_with_wrong_key_yields_garbage_not_error() {
    let mut conn = fresh_db();
    neng_pass::create_password("right key".to_string(), "alpha", "p@ssw0rd!", &mut conn)
        .expect("creating succeeds");
    let read = neng_pass::get_password("wrong key".to_string(), "alpha", &conn);
    match read {
        Ok(garbled) => assert_ne!(garbled, "p@ssw0rd!"),
        Err(_) => panic!("a wrong key is not detected by the cipher"),
    }
}

#[test]
fn error_messages_are_the_documented_lines() {
    assert_eq!(Error::IncorrectKey.get_message(), "The password is incorrect.");
    assert_eq!(
        Error::MasterKeyTooLong.get_message(),
        "Your master key is too long! Master keys can only be up to 32 characters long.",
    );
    assert_eq!(
        Error::PasswordDoesntExist("alpha".to_string()).get_message(),
        "There appears to be no password saved that is named alpha",
    );
    assert_eq!(
        Error::DatabaseError("no such table".to_string()).get_message(),
        "SQL error: no such table",
    );
}

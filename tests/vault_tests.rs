use base64::Engine;
use shroombrella::crypto::{derive_key, encrypt_data};
use shroombrella::vault::{
    create_encrypted_vault, create_new_vault, load_vault, seal_entries, Entry, Timestamp, Vault,
    VaultError, VaultFile, VaultHeader, FORMAT_VERSION,
};

const CREATED: Timestamp = Timestamp { secs: 1_700_000_000, nanos: 5 };

fn b64(bytes: &[u8]) -> String {
    base64::engine::general_purpose::STANDARD.encode(bytes)
}

fn github() -> Entry {
    Entry {
        service: "github".to_string(),
        login: "alice".to_string(),
        password: "s3cr3t".to_string(),
    }
}

fn copy_file(file: &VaultFile) -> VaultFile {
    VaultFile {
        header: VaultHeader {
            version: file.header.version,
            creation_date: file.header.creation_date,
            salt: file.header.salt.clone(),
            nonce: file.header.nonce.clone(),
        },
        data: file.data.clone(),
    }
}

#[test]
fn new_vault_unlocks_to_empty_set() {
    let vault = create_new_vault("work".to_string(), "p1", CREATED);
    assert_eq!(vault.name, "work");
    assert_eq!(vault.file.header.version, 1);
    assert_eq!(vault.file.header.creation_date, CREATED);
    let entries = vault.decrypt_entries("p1").expect("unlocks");
    assert!(entries.is_empty());
}

#[test]
fn saved_record_survives_reload() {
    let vault = create_new_vault("work".to_string(), "p1", CREATED);
    let mut entries = vault.decrypt_entries("p1").unwrap();
    entries.push(github());
    let saved = create_encrypted_vault(&entries, "p1", vault.name.clone(), CREATED).unwrap();
    let reloaded = load_vault(copy_file(&saved.file), "work".to_string()).unwrap();
    let back = reloaded.decrypt_entries("p1").unwrap();
    assert_eq!(back.len(), 1);
    assert_eq!(back[0].service, "github");
    assert_eq!(back[0].login, "alice");
    assert_eq!(back[0].password, "s3cr3t");
}

#[test]
fn wrong_password_fails_and_file_is_unchanged() {
    let vault = create_new_vault("work".to_string(), "p1", CREATED);
    let entries = vault.decrypt_entries("p1").unwrap();
    let saved = create_encrypted_vault(&entries, "p1", "work".to_string(), CREATED).unwrap();
    let before = copy_file(&saved.file);
    assert_eq!(
        saved.decrypt_entries("wrong").err(),
        Some(VaultError::AuthenticationFailure)
    );
    assert_eq!(saved.file.header.salt, before.header.salt);
    assert_eq!(saved.file.header.nonce, before.header.nonce);
    assert_eq!(saved.file.data, before.data);
    assert!(saved.decrypt_entries("p1").unwrap().is_empty());
}

#[test]
fn ten_byte_nonce_is_a_format_error() {
    let file = VaultFile {
        header: VaultHeader {
            version: FORMAT_VERSION,
            creation_date: CREATED,
            salt: b64(&[0u8; 16]),
            nonce: b64(&[0u8; 10]),
        },
        data: b64(&[0u8; 32]),
    };
    assert_eq!(
        load_vault(copy_file(&file), "x".to_string()).err(),
        Some(VaultError::FormatError)
    );
    let vault = Vault::new("x".to_string(), file);
    assert_eq!(vault.decrypt_entries("p1").err(), Some(VaultError::FormatError));
}

#[test]
fn bad_headers_are_format_errors() {
    let good = VaultFile {
        header: VaultHeader {
            version: FORMAT_VERSION,
            creation_date: CREATED,
            salt: b64(&[0u8; 16]),
            nonce: b64(&[0u8; 12]),
        },
        data: b64(&[0u8; 32]),
    };
    assert!(load_vault(copy_file(&good), "x".to_string()).is_ok());
    let mut unknown_version = copy_file(&good);
    unknown_version.header.version = 2;
    let mut short_salt = copy_file(&good);
    short_salt.header.salt = b64(&[0u8; 8]);
    let mut bad_salt = copy_file(&good);
    bad_salt.header.salt = "not base64!".to_string();
    let mut bad_nonce = copy_file(&good);
    bad_nonce.header.nonce = "@@@@".to_string();
    let mut bad_data = copy_file(&good);
    bad_data.data = "A".to_string();
    for file in [unknown_version, short_salt, bad_salt, bad_nonce, bad_data] {
        assert_eq!(
            load_vault(file, "x".to_string()).err(),
            Some(VaultError::FormatError)
        );
    }
}

#[test]
fn authenticated_garbage_payload_is_a_format_error() {
    let salt = [4u8; 16];
    let key = derive_key("p1", &salt);
    let (ct, nonce) = encrypt_data(&[9u8, 9, 9], &key);
    let file = VaultFile {
        header: VaultHeader {
            version: FORMAT_VERSION,
            creation_date: CREATED,
            salt: b64(&salt),
            nonce: b64(&nonce),
        },
        data: b64(&ct),
    };
    let vault = Vault::from_file(file, "x".to_string());
    assert_eq!(vault.decrypt_entries("p1").err(), Some(VaultError::FormatError));
}

#[test]
fn sealed_file_holds_the_given_salt_in_base64() {
    let salt = [0u8; 16];
    let file = seal_entries(&vec![github()], "p1", &salt, CREATED).unwrap();
    assert_eq!(file.header.salt, "AAAAAAAAAAAAAAAAAAAAAA==");
    assert_eq!(file.header.version, 1);
    let nonce = base64::engine::general_purpose::STANDARD
        .decode(&file.header.nonce)
        .unwrap();
    assert_eq!(nonce.len(), 12);
    let data = base64::engine::general_purpose::STANDARD
        .decode(&file.data)
        .unwrap();
    assert!(data.len() > 16);
}

#[test]
fn saving_twice_gives_two_files_that_unlock_alike() {
    let entries = vec![github()];
    let first = create_encrypted_vault(&entries, "p1", "work".to_string(), CREATED).unwrap();
    let second = create_encrypted_vault(&entries, "p1", "work".to_string(), CREATED).unwrap();
    assert_ne!(first.file.header.nonce, second.file.header.nonce);
    assert_ne!(first.file.data, second.file.data);
    for vault in [first, second] {
        let back = vault.decrypt_entries("p1").unwrap();
        assert_eq!(back.len(), 1);
        assert_eq!(back[0].password, "s3cr3t");
    }
}

#[test]
fn each_error_has_its_message() {
    assert_eq!(VaultError::FormatError.message(), "Неверный формат хранилища");
    assert_eq!(VaultError::AuthenticationFailure.message(), "Неверный мастер-пароль");
    assert_eq!(VaultError::StorageError.message(), "Ошибка записи файла хранилища");
}

#[test]
fn creation_date_before_epoch_is_kept() {
    let early = Timestamp { secs: -86_400, nanos: 7 };
    let vault = create_new_vault("old".to_string(), "p1", early);
    assert_eq!(vault.file.header.creation_date, early);
}

#[test]
fn zeroized_entry_is_empty() {
    let mut e = github();
    e.zeroize();
    assert!(e.service.is_empty() && e.login.is_empty() && e.password.is_empty());
}

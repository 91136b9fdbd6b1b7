use shroombrella::creator::VaultCreator;
use shroombrella::manager::{AppState, PasswordManager, GENERATED_PASSWORD_LEN};
use shroombrella::vault::{create_new_vault, Entry, Timestamp, VaultError};
use std::path::PathBuf;

const CREATED: Timestamp = Timestamp { secs: 10, nanos: 0 };

fn entry(service: &str, login: &str, password: &str) -> Entry {
    Entry {
        service: service.to_string(),
        login: login.to_string(),
        password: password.to_string(),
    }
}

fn session(entries: Vec<Entry>) -> PasswordManager {
    let vault = create_new_vault("work".to_string(), "p1", CREATED);
    let mut pm = PasswordManager::new();
    pm.set_vault(vault, entries, "p1".to_string(), PathBuf::from("/tmp/work.vault"));
    pm
}

#[test]
fn new_manager_is_empty() {
    let pm = PasswordManager::new();
    assert!(pm.current_vault.is_none());
    assert!(pm.decrypted_entries.is_empty());
    assert!(pm.master_password.is_empty());
    assert!(pm.vault_path.is_none());
    assert!(pm.is_running());
    assert!(AppState::Locked != AppState::Unlocked);
}

#[test]
fn add_entry_saves_and_reloads() {
    let mut pm = session(Vec::new());
    pm.new_service = "github".to_string();
    pm.new_login = "alice".to_string();
    pm.new_password = "s3cr3t".to_string();
    assert!(pm.add_new_entry(CREATED));
    assert_eq!(pm.error_message, "✅ Сохранено!");
    assert!(pm.new_service.is_empty() && pm.new_login.is_empty() && pm.new_password.is_empty());
    let vault = pm.current_vault.as_ref().unwrap();
    assert_eq!(vault.name, "work");
    let back = vault.decrypt_entries("p1").unwrap();
    assert_eq!(back.len(), 1);
    assert_eq!(back[0].service, "github");
    assert_eq!(back[0].password, "s3cr3t");
}

#[test]
fn add_entry_with_empty_field_is_refused() {
    let mut pm = session(Vec::new());
    pm.new_service = "github".to_string();
    pm.new_login = String::new();
    pm.new_password = "x".to_string();
    assert!(!pm.add_new_entry(CREATED));
    assert!(pm.decrypted_entries.is_empty());
    assert_eq!(pm.error_message, "Все поля должны быть заполнены");
    assert_eq!(pm.new_service, "github");
    assert_eq!(pm.new_password, "x");
}

#[test]
fn save_without_path_is_refused() {
    let mut pm = PasswordManager::new();
    assert!(!pm.save_vault(CREATED));
    assert_eq!(pm.error_message, "❌ Нет данных для сохранения");
    assert!(pm.current_vault.is_none());
}

#[test]
fn save_with_path_but_no_vault_saves_under_session_name() {
    let mut pm = PasswordManager::new();
    pm.vault_path = Some(PathBuf::from("/tmp/work.vault"));
    pm.vault_name = "work".to_string();
    pm.master_password = "p1".to_string();
    pm.decrypted_entries.push(entry("a", "1", "x"));
    assert!(pm.save_vault(CREATED));
    assert_eq!(pm.error_message, "✅ Сохранено!");
    let vault = pm.current_vault.as_ref().unwrap();
    assert_eq!(vault.name, "work");
    assert_eq!(vault.decrypt_entries("p1").unwrap()[0].password, "x");
}

#[test]
fn delete_moves_hovered_row_and_saves() {
    let mut pm = session(vec![entry("a", "1", "x"), entry("b", "2", "y"), entry("c", "3", "z")]);
    pm.hovered_password_index = Some(2);
    assert!(pm.delete_entry(0, CREATED));
    assert_eq!(pm.decrypted_entries.len(), 2);
    assert_eq!(pm.decrypted_entries[0].service, "b");
    assert_eq!(pm.hovered_password_index, Some(1));
    pm.hovered_password_index = Some(0);
    assert!(pm.delete_entry(0, CREATED));
    assert_eq!(pm.hovered_password_index, None);
    assert!(!pm.delete_entry(5, CREATED));
    let back = pm.current_vault.as_ref().unwrap().decrypt_entries("p1").unwrap();
    assert_eq!(back.len(), 1);
    assert_eq!(back[0].service, "c");
}

#[test]
fn edit_then_apply_replaces_record() {
    let mut pm = session(vec![entry("a", "1", "x"), entry("b", "2", "y")]);
    pm.start_edit(1);
    assert!(pm.show_edit_dialog);
    let e = pm.edit_entry.as_mut().unwrap();
    assert_eq!(e.index, 1);
    assert_eq!(e.password, "y");
    e.replace_password("new".to_string());
    assert_eq!(e.service, "b");
    assert!(pm.apply_edit(CREATED));
    assert!(pm.edit_entry.is_none() && !pm.show_edit_dialog);
    assert_eq!(pm.decrypted_entries[1].password, "new");
    let back = pm.current_vault.as_ref().unwrap().decrypt_entries("p1").unwrap();
    assert_eq!(back[1].password, "new");
    assert_eq!(back[0].service, "a");
}

#[test]
fn cancel_edit_drops_copy() {
    let mut pm = session(vec![entry("a", "1", "x")]);
    pm.start_edit(0);
    pm.cancel_edit();
    assert!(pm.edit_entry.is_none() && !pm.show_edit_dialog);
    assert_eq!(pm.decrypted_entries[0].password, "x");
    assert!(!pm.apply_edit(CREATED));
}

#[test]
fn clear_wipes_everything() {
    let mut pm = session(vec![entry("a", "1", "x")]);
    pm.new_password = "typed".to_string();
    pm.start_edit(0);
    pm.clear();
    assert!(pm.master_password.is_empty());
    assert!(pm.new_password.is_empty());
    assert!(pm.decrypted_entries.is_empty());
    assert!(pm.current_vault.is_none() && pm.vault_path.is_none());
    assert!(pm.edit_entry.is_none());
}

#[test]
fn clear_sensitive_data_wipes_edit_copy() {
    let mut pm = session(vec![entry("a", "1", "x")]);
    pm.start_edit(0);
    pm.clear_sensitive_data();
    let e = pm.edit_entry.as_ref().unwrap();
    assert_eq!(e.index, 0);
    assert!(e.service.is_empty() && e.login.is_empty() && e.password.is_empty());
    assert!(pm.master_password.is_empty() && pm.decrypted_entries.is_empty());
    assert!(pm.current_vault.is_some());
}

#[test]
fn exit_request_wipes_secrets() {
    let mut pm = session(vec![entry("a", "1", "x")]);
    pm.new_password = "typed".to_string();
    pm.request_exit();
    assert!(!pm.is_running());
    assert!(pm.new_password.is_empty());
    assert!(pm.master_password.is_empty() && pm.decrypted_entries.is_empty());
}

#[test]
fn generated_password_is_alphanumeric() {
    let mut pm = PasswordManager::new();
    let p = pm.generate_password(24);
    assert_eq!(p.chars().count(), 24);
    assert!(p.chars().all(|c| c.is_ascii_alphanumeric()));
    pm.regenerate_new_password();
    assert_eq!(pm.new_password.len(), GENERATED_PASSWORD_LEN);
}

#[test]
fn creator_validates_input() {
    let mut vc = VaultCreator::new();
    assert!(vc.create_vault(CREATED).is_none());
    assert_eq!(vc.error_message, "Введите название хранилища");
    vc.vault_name = "work".to_string();
    assert!(vc.create_vault(CREATED).is_none());
    assert_eq!(vc.error_message, "Введите мастер-пароль");
    vc.master_password = "p1".to_string();
    vc.confirm_password = "p2".to_string();
    assert!(vc.create_vault(CREATED).is_none());
    assert_eq!(vc.error_message, "Пароли не совпадают");
    assert_eq!(vc.master_password, "p1");
    assert!(!vc.was_vault_created());
    vc.cancel();
    assert!(!vc.show && vc.master_password.is_empty() && vc.confirm_password.is_empty());
    assert!(vc.error_message.is_empty());
}

#[test]
fn creator_creates_and_reports() {
    let mut vc = VaultCreator::new();
    vc.vault_name = "work".to_string();
    vc.master_password = "p1".to_string();
    vc.confirm_password = "p1".to_string();
    let vault = vc.create_vault(CREATED).expect("valid input");
    assert!(vc.master_password.is_empty() && vc.confirm_password.is_empty());
    assert_eq!(vault.name, "work");
    assert!(vault.decrypt_entries("p1").unwrap().is_empty());
    vc.finish_creation(Ok(PathBuf::from("/tmp/work.vault")));
    assert!(vc.was_vault_created());
    assert_eq!(vc.success_message, "Хранилище 'work' успешно создано!");
    assert_eq!(vc.take_created_vault_path(), Some(PathBuf::from("/tmp/work.vault")));
    assert_eq!(vc.take_created_vault_path(), None);
    vc.clear_messages();
    assert!(!vc.was_vault_created());
    vc.finish_creation(Err(VaultError::StorageError));
    assert_eq!(
        vc.error_message,
        "Ошибка создания хранилища: Ошибка записи файла хранилища"
    );
    assert!(!vc.was_vault_created());
}

#[test]
fn only_the_creation_phrase_counts_as_created() {
    let mut vc = VaultCreator::new();
    vc.success_message = "x".to_string();
    assert!(!vc.was_vault_created());
    vc.success_message = "готово: успешно создано".to_string();
    assert!(vc.was_vault_created());
}

#[test]
fn unlock_vault_starts_session() {
    let vault = create_new_vault("work".to_string(), "p1", CREATED);
    let mut pm = PasswordManager::new();
    assert_eq!(pm.state(), AppState::Locked);
    pm.unlock_vault(vault, "p1".to_string(), PathBuf::from("/tmp/work.vault"))
        .expect("right password");
    assert_eq!(pm.state(), AppState::Unlocked);
    assert_eq!(pm.master_password, "p1");
    assert!(pm.decrypted_entries.is_empty());
    pm.clear();
    assert_eq!(pm.state(), AppState::Locked);
}

#[test]
fn unlock_vault_with_wrong_password_keeps_session_locked() {
    let vault = create_new_vault("work".to_string(), "p1", CREATED);
    let mut pm = PasswordManager::new();
    assert_eq!(
        pm.unlock_vault(vault, "wrong".to_string(), PathBuf::from("/tmp/work.vault")),
        Err(VaultError::AuthenticationFailure)
    );
    assert_eq!(pm.state(), AppState::Locked);
    assert!(pm.master_password.is_empty());
    assert!(pm.vault_path.is_none());
}

//! The unlocked session: decrypted records, the master password and the
//! edit buffers, with every secret wiped before it is released.

use crate::crypto::{is_alphanumeric, password_fits, random_alphanumeric, MAX_PASSWORD_BYTES};
use crate::codec::payload_bytes;
use crate::crypto::MAX_PLAINTEXT_LEN;
use crate::vault::{
    create_encrypted_vault, credentials, seals, unlock_result, Credential, Entry,
    Timestamp, Vault, VaultError, wipe_entries,
};
use crate::secret::wipe_string;
use std::path::PathBuf;
use vstd::prelude::*;

verus! {

#[verifier::external_type_specification]
#[verifier::external_body]
pub struct ExPathBuf(PathBuf);

/// Whether the vault is open.
#[derive(Clone, Copy, Debug, PartialEq, Eq, Structural)]
pub enum AppState {
    Locked,
    Unlocked,
}

/// A copy of one record being edited, with its position.
pub struct EditEntry {
    pub index: usize,
    pub service: String,
    pub login: String,
    pub password: String,
}

impl EditEntry {
    /// Wipes the edited password and puts `password` in its place.
    pub fn replace_password(&mut self, password: String)
        ensures
            final(self).password == password,
            final(self).index == old(self).index,
            final(self).service == old(self).service,
            final(self).login == old(self).login,
    {
        wipe_string(&mut self.password);
        self.password = password;
    }

    /// Overwrites the three text fields with zeros and leaves them empty.
    pub fn zeroize(&mut self)
        ensures
            final(self).index == old(self).index,
            final(self).service@.len() == 0,
            final(self).login@.len() == 0,
            final(self).password@.len() == 0,
    {
        wipe_string(&mut self.service);
        wipe_string(&mut self.login);
        wipe_string(&mut self.password);
    }
}

/// Whether a password is short enough, in UTF-8 bytes, to derive a key from.
pub fn password_is_usable(password: &String) -> (r: bool)
    ensures
        r == password_fits(password@),
{
    let n = password.as_str().as_bytes().len();
    n as u64 <= MAX_PASSWORD_BYTES
}

/// Length of a generated password.
pub const GENERATED_PASSWORD_LEN: usize = 16;

/// Where the hovered row goes when row `removed` is deleted.
pub open spec fn hovered_after_delete(hovered: Option<usize>, removed: usize) -> Option<usize> {
    match hovered {
        None => None,
        Some(h) => if h == removed {
            None
        } else if h > removed {
            Some((h - 1) as usize)
        } else {
            Some(h)
        },
    }
}

/// The status text after a save: no path known, saved, or the failure.
pub open spec fn save_text(path_known: bool, sealable: bool) -> Seq<char> {
    if !path_known {
        "❌ Нет данных для сохранения"@
    } else if sealable {
        "✅ Сохранено!"@
    } else {
        "❌ Ошибка сохранения: "@ + VaultError::StorageError.text()
    }
}

/// The session of an unlocked vault.
pub struct PasswordManager {
    pub current_vault: Option<Vault>,
    pub decrypted_entries: Vec<Entry>,
    pub master_password: String,
    pub vault_path: Option<PathBuf>,
    /// The name of the vault, under which every save is made.
    pub vault_name: String,
    pub new_service: String,
    pub new_login: String,
    pub new_password: String,
    pub edit_entry: Option<EditEntry>,
    pub show_edit_dialog: bool,
    pub hovered_password_index: Option<usize>,
    pub error_message: String,
    /// False once an exit has been asked for.
    pub app_state: bool,
}

impl PasswordManager {
    /// Whether the session's records can be encrypted under its password:
    /// the password can derive a key and the payload is within AES-GCM's
    /// limit.
    pub open spec fn can_seal(&self) -> bool {
        &&& password_fits(self.master_password@)
        &&& payload_bytes(credentials(self.decrypted_entries@)).len() <= MAX_PLAINTEXT_LEN
    }

    /// Whether the current vault holds the session's records under its
    /// master password.
    pub open spec fn vault_holds_records(&self) -> bool {
        self.current_vault matches Some(v) && seals(
            v.file,
            credentials(self.decrypted_entries@),
            self.master_password@,
        )
    }

    pub fn new() -> (r: Self)
        ensures
            r.current_vault is None,
            r.decrypted_entries@.len() == 0,
            r.master_password@.len() == 0,
            r.vault_path is None,
            r.vault_name@.len() == 0,
            r.new_service@.len() == 0,
            r.new_login@.len() == 0,
            r.new_password@.len() == 0,
            r.edit_entry is None,
            !r.show_edit_dialog,
            r.hovered_password_index is None,
            r.error_message@.len() == 0,
            r.app_state,
    {
        Self {
            current_vault: None,
            decrypted_entries: Vec::new(),
            master_password: String::new(),
            vault_path: None,
            vault_name: String::new(),
            new_service: String::new(),
            new_login: String::new(),
            new_password: String::new(),
            edit_entry: None,
            show_edit_dialog: false,
            hovered_password_index: None,
            error_message: String::new(),
            app_state: true,
        }
    }

    /// Whether the session goes on.
    pub fn is_running(&self) -> (r: bool)
        ensures
            r == self.app_state,
    {
        self.app_state
    }

    /// Asks to end the session; the secrets are wiped at once.
    pub fn request_exit(&mut self)
        ensures
            !final(self).app_state,
            final(self).master_password@.len() == 0,
            final(self).new_password@.len() == 0,
            final(self).decrypted_entries@.len() == 0,
            final(self).edit_entry is None,
    {
        self.app_state = false;
        self.zeroize();
    }

    /// Starts a session on an unlocked vault. Records and password held
    /// before are wiped first; the new master password is owned by the
    /// session from here on, and wiped when it ends.
    pub fn set_vault(
        &mut self,
        vault: Vault,
        entries: Vec<Entry>,
        master_password: String,
        path: PathBuf,
    )
        ensures
            final(self).vault_name@ == vault.name@,
            final(self).current_vault == Some(vault),
            final(self).decrypted_entries == entries,
            final(self).master_password == master_password,
            final(self).vault_path == Some(path),
            final(self).app_state,
            final(self).new_service == old(self).new_service,
            final(self).new_login == old(self).new_login,
            final(self).new_password == old(self).new_password,
            final(self).edit_entry == old(self).edit_entry,
            final(self).show_edit_dialog == old(self).show_edit_dialog,
            final(self).hovered_password_index == old(self).hovered_password_index,
            final(self).error_message == old(self).error_message,
    {
        wipe_entries(&mut self.decrypted_entries);
        wipe_string(&mut self.master_password);
        self.vault_name = vault.name.clone();
        self.current_vault = Some(vault);
        self.decrypted_entries = entries;
        self.master_password = master_password;
        self.vault_path = Some(path);
        self.app_state = true;
    }

    /// Wipes the master password, every record and every buffer that held
    /// a secret: the new-record password and the record being edited.
    pub fn zeroize(&mut self)
        ensures
            final(self).decrypted_entries@.len() == 0,
            final(self).master_password@.len() == 0,
            final(self).new_password@.len() == 0,
            final(self).edit_entry is None,
            final(self).current_vault == old(self).current_vault,
            final(self).vault_path == old(self).vault_path,
            final(self).vault_name == old(self).vault_name,
            final(self).app_state == old(self).app_state,
    {
        wipe_entries(&mut self.decrypted_entries);
        wipe_string(&mut self.master_password);
        wipe_string(&mut self.new_password);
        if let Some(mut e) = self.edit_entry.take() {
            e.zeroize();
        }
    }

    /// Wipes the master password, the new-record password, every record and
    /// the record being edited (which stays, empty, at its index).
    pub fn clear_sensitive_data(&mut self)
        ensures
            final(self).master_password@.len() == 0,
            final(self).new_password@.len() == 0,
            final(self).decrypted_entries@.len() == 0,
            final(self).edit_entry is Some <==> old(self).edit_entry is Some,
            final(self).edit_entry matches Some(e) ==> {
                &&& old(self).edit_entry matches Some(o) && e.index == o.index
                &&& e.service@.len() == 0
                &&& e.login@.len() == 0
                &&& e.password@.len() == 0
            },
            final(self).current_vault == old(self).current_vault,
            final(self).vault_path == old(self).vault_path,
            final(self).vault_name == old(self).vault_name,
            final(self).new_service == old(self).new_service,
            final(self).new_login == old(self).new_login,
            final(self).show_edit_dialog == old(self).show_edit_dialog,
            final(self).hovered_password_index == old(self).hovered_password_index,
            final(self).error_message == old(self).error_message,
            final(self).app_state == old(self).app_state,
    {
        wipe_string(&mut self.master_password);
        wipe_string(&mut self.new_password);
        wipe_entries(&mut self.decrypted_entries);
        if let Some(ref mut e) = self.edit_entry {
            e.zeroize();
        }
    }

    /// Ends the session: wipes the secrets and forgets the vault and every
    /// form field.
    pub fn clear(&mut self)
        ensures
            final(self).master_password@.len() == 0,
            final(self).new_password@.len() == 0,
            final(self).decrypted_entries@.len() == 0,
            final(self).current_vault is None,
            final(self).vault_path is None,
            final(self).vault_name@.len() == 0,
            final(self).new_service@.len() == 0,
            final(self).new_login@.len() == 0,
            final(self).edit_entry is None,
            !final(self).show_edit_dialog,
            final(self).hovered_password_index is None,
            final(self).error_message@.len() == 0,
    {
        self.clear_sensitive_data();
        self.current_vault = None;
        self.vault_path = None;
        self.vault_name = String::new();
        wipe_string(&mut self.new_service);
        wipe_string(&mut self.new_login);
        if let Some(mut e) = self.edit_entry.take() {
            e.zeroize();
        }
        self.show_edit_dialog = false;
        self.hovered_password_index = None;
        self.error_message = String::new();
    }

    /// Re-encrypts all records, under the vault's name and a fresh salt and
    /// nonce, into a new vault that replaces the current one; the caller then
    /// writes it to `vault_path`. Without a path nothing is saved. The status
    /// text says which way it went.
    pub fn save_vault(&mut self, created: Timestamp) -> (r: bool)
        ensures
            r == (old(self).vault_path is Some && old(self).can_seal()),
            final(self).error_message@ == save_text(
                old(self).vault_path is Some,
                old(self).can_seal(),
            ),
            r ==> final(self).vault_holds_records(),
            r ==> (final(self).current_vault matches Some(v) && v.name@ == old(self).vault_name@
                && v.file.header.creation_date == created),
            !r ==> final(self).current_vault == old(self).current_vault,
            final(self).decrypted_entries == old(self).decrypted_entries,
            final(self).master_password == old(self).master_password,
            final(self).vault_path == old(self).vault_path,
            final(self).vault_name == old(self).vault_name,
            final(self).new_service == old(self).new_service,
            final(self).new_login == old(self).new_login,
            final(self).new_password == old(self).new_password,
            final(self).edit_entry == old(self).edit_entry,
            final(self).show_edit_dialog == old(self).show_edit_dialog,
            final(self).hovered_password_index == old(self).hovered_password_index,
            final(self).app_state == old(self).app_state,
    {
        if self.vault_path.is_none() {
            self.error_message = String::from_str("❌ Нет данных для сохранения");
            return false;
        }
        let sealed = if password_is_usable(&self.master_password) {
            create_encrypted_vault(
                &self.decrypted_entries,
                self.master_password.as_str(),
                self.vault_name.clone(),
                created,
            )
        } else {
            Err(VaultError::StorageError)
        };
        match sealed {
            Ok(v) => {
                self.current_vault = Some(v);
                self.error_message = String::from_str("✅ Сохранено!");
                true
            },
            Err(e) => {
                let mut message = String::from_str("❌ Ошибка сохранения: ");
                let reason = e.message();
                message.append(reason.as_str());
                self.error_message = message;
                false
            },
        }
    }

    /// Adds a record from the three form fields, wipes the fields, and saves.
    /// When a field is empty nothing changes but the error message. Returns
    /// whether a save was made.
    pub fn add_new_entry(&mut self, created: Timestamp) -> (r: bool)
        ensures
            ({
                let filled = old(self).new_service@.len() > 0 && old(self).new_login@.len() > 0
                    && old(self).new_password@.len() > 0;
                &&& filled ==> credentials(final(self).decrypted_entries@) == credentials(
                    old(self).decrypted_entries@,
                ).push(
                    Credential {
                        service: old(self).new_service@,
                        login: old(self).new_login@,
                        password: old(self).new_password@,
                    },
                )
                &&& filled ==> final(self).new_service@.len() == 0
                    && final(self).new_login@.len() == 0 && final(self).new_password@.len() == 0
                &&& filled ==> r == (old(self).vault_path is Some && final(self).can_seal())
                &&& filled ==> final(self).error_message@ == save_text(
                    old(self).vault_path is Some,
                    final(self).can_seal(),
                )
                &&& !filled ==> {
                    &&& !r
                    &&& final(self).decrypted_entries == old(self).decrypted_entries
                    &&& final(self).current_vault == old(self).current_vault
                    &&& final(self).new_service == old(self).new_service
                    &&& final(self).new_login == old(self).new_login
                    &&& final(self).new_password == old(self).new_password
                    &&& final(self).error_message@ == "Все поля должны быть заполнены"@
                }
            }),
            r ==> final(self).vault_holds_records(),
            !r ==> final(self).current_vault == old(self).current_vault,
            final(self).master_password == old(self).master_password,
            final(self).vault_path == old(self).vault_path,
            final(self).vault_name == old(self).vault_name,
    {
        if self.new_service.as_str().is_empty() || self.new_login.as_str().is_empty()
            || self.new_password.as_str().is_empty() {
            self.error_message = String::from_str("Все поля должны быть заполнены");
            return false;
        }
        let entry = Entry {
            service: self.new_service.clone(),
            login: self.new_login.clone(),
            password: self.new_password.clone(),
        };
        let ghost old_entries = self.decrypted_entries@;
        self.decrypted_entries.push(entry);
        proof {
            assert(credentials(self.decrypted_entries@) =~= credentials(old_entries).push(entry@));
        }
        wipe_string(&mut self.new_service);
        wipe_string(&mut self.new_login);
        wipe_string(&mut self.new_password);
        self.error_message = String::new();
        self.save_vault(created)
    }

    /// Deletes the record at `index`, wipes it, moves the hovered row along,
    /// and saves. An index past the end changes nothing. Returns whether a
    /// save was made.
    pub fn delete_entry(&mut self, index: usize, created: Timestamp) -> (r: bool)
        ensures
            index >= old(self).decrypted_entries@.len() ==> !r && *final(self) == *old(self),
            index < old(self).decrypted_entries@.len() ==> {
                &&& final(self).decrypted_entries@ == old(self).decrypted_entries@.remove(
                    index as int,
                )
                &&& final(self).hovered_password_index == hovered_after_delete(
                    old(self).hovered_password_index,
                    index,
                )
                &&& r == (old(self).vault_path is Some && final(self).can_seal())
                &&& final(self).error_message@ == save_text(
                    old(self).vault_path is Some,
                    final(self).can_seal(),
                )
            },
            r ==> final(self).vault_holds_records(),
            !r ==> final(self).current_vault == old(self).current_vault,
            final(self).master_password == old(self).master_password,
            final(self).vault_path == old(self).vault_path,
            final(self).vault_name == old(self).vault_name,
    {
        if index >= self.decrypted_entries.len() {
            return false;
        }
        let mut removed = self.decrypted_entries.remove(index);
        removed.zeroize();
        self.hovered_password_index = match self.hovered_password_index {
            None => None,
            Some(h) => if h == index {
                None
            } else if h > index {
                Some(h - 1)
            } else {
                Some(h)
            },
        };
        self.save_vault(created)
    }

    /// Opens the edit dialog on a copy of the record at `index`; a copy left
    /// from an earlier edit is wiped first. An index past the end changes
    /// nothing.
    pub fn start_edit(&mut self, index: usize)
        ensures
            index < old(self).decrypted_entries@.len() ==> final(self).show_edit_dialog,
            index < old(self).decrypted_entries@.len() ==> (final(self).edit_entry matches Some(e)
                && e.index == index && e.service@ == old(self).decrypted_entries@[index as int].service@
                && e.login@ == old(self).decrypted_entries@[index as int].login@
                && e.password@ == old(self).decrypted_entries@[index as int].password@),
            index >= old(self).decrypted_entries@.len() ==> *final(self) == *old(self),
            final(self).decrypted_entries == old(self).decrypted_entries,
            final(self).master_password == old(self).master_password,
            final(self).current_vault == old(self).current_vault,
    {
        if index >= self.decrypted_entries.len() {
            return;
        }
        if let Some(mut previous) = self.edit_entry.take() {
            previous.zeroize();
        }
        let entry = &self.decrypted_entries[index];
        self.edit_entry = Some(
            EditEntry {
                index,
                service: entry.service.clone(),
                login: entry.login.clone(),
                password: entry.password.clone(),
            },
        );
        self.show_edit_dialog = true;
    }

    /// Writes the edited copy back over its record, wipes the record it
    /// replaces, closes the dialog, and saves. Without an edit in progress,
    /// or when its index is past the end (the copy is then wiped), no record
    /// changes. Returns whether a save was made.
    pub fn apply_edit(&mut self, created: Timestamp) -> (r: bool)
        ensures
            final(self).edit_entry is None,
            !final(self).show_edit_dialog,
            match old(self).edit_entry {
                Some(e) => if e.index < old(self).decrypted_entries@.len() {
                    &&& credentials(final(self).decrypted_entries@) == credentials(
                        old(self).decrypted_entries@,
                    ).update(
                        e.index as int,
                        Credential { service: e.service@, login: e.login@, password: e.password@ },
                    )
                    &&& r == (old(self).vault_path is Some && final(self).can_seal())
                    &&& final(self).error_message@ == save_text(
                        old(self).vault_path is Some,
                        final(self).can_seal(),
                    )
                } else {
                    !r && final(self).decrypted_entries == old(self).decrypted_entries
                        && final(self).error_message == old(self).error_message
                },
                None => !r && final(self).decrypted_entries == old(self).decrypted_entries
                    && final(self).error_message == old(self).error_message,
            },
            r ==> final(self).vault_holds_records(),
            !r ==> final(self).current_vault == old(self).current_vault,
            final(self).master_password == old(self).master_password,
            final(self).vault_path == old(self).vault_path,
            final(self).vault_name == old(self).vault_name,
    {
        self.show_edit_dialog = false;
        let mut edited = match self.edit_entry.take() {
            Some(e) => e,
            None => return false,
        };
        if edited.index >= self.decrypted_entries.len() {
            edited.zeroize();
            return false;
        }
        let index = edited.index;
        let ghost before = self.decrypted_entries@;
        let mut replaced = self.decrypted_entries.remove(index);
        replaced.zeroize();
        let entry = Entry { service: edited.service, login: edited.login, password: edited.password };
        self.decrypted_entries.insert(index, entry);
        proof {
            assert(self.decrypted_entries@ =~= before.update(index as int, entry));
            assert(credentials(self.decrypted_entries@) =~= credentials(before).update(
                index as int,
                entry@,
            ));
        }
        self.save_vault(created)
    }

    /// Closes the edit dialog and wipes the edited copy.
    pub fn cancel_edit(&mut self)
        ensures
            final(self).edit_entry is None,
            !final(self).show_edit_dialog,
            final(self).decrypted_entries == old(self).decrypted_entries,
            final(self).master_password == old(self).master_password,
            final(self).current_vault == old(self).current_vault,
    {
        if let Some(mut e) = self.edit_entry.take() {
            e.zeroize();
        }
        self.show_edit_dialog = false;
    }

    /// A random password of `length` ASCII letters and digits.
    pub fn generate_password(&self, length: usize) -> (r: String)
        ensures
            r@.len() == length,
            forall|i: int| 0 <= i < length ==> is_alphanumeric(#[trigger] r@[i]),
    {
        random_alphanumeric(length)
    }

    /// Wipes the new-record password and puts a fresh random one in its
    /// place.
    pub fn regenerate_new_password(&mut self)
        ensures
            final(self).new_password@.len() == GENERATED_PASSWORD_LEN,
            forall|i: int|
                0 <= i < GENERATED_PASSWORD_LEN ==> is_alphanumeric(
                    #[trigger] final(self).new_password@[i],
                ),
            final(self).decrypted_entries == old(self).decrypted_entries,
            final(self).master_password == old(self).master_password,
    {
        wipe_string(&mut self.new_password);
        self.new_password = self.generate_password(GENERATED_PASSWORD_LEN);
    }

    /// Whether a vault is open in this session.
    pub fn state(&self) -> (r: AppState)
        ensures
            r == (if self.current_vault is Some {
                AppState::Unlocked
            } else {
                AppState::Locked
            }),
    {
        if self.current_vault.is_some() {
            AppState::Unlocked
        } else {
            AppState::Locked
        }
    }

    /// Unlocks a loaded vault with a password and, on success, starts the
    /// session on it: its records, the password (now owned by the session)
    /// and its path. On failure the password is wiped and the session is
    /// left exactly as it was; the error is `unlock_result`'s, and a password
    /// too long to derive a key from fails with `AuthenticationFailure`.
    pub fn unlock_vault(&mut self, vault: Vault, master_password: String, path: PathBuf) -> (r:
        Result<(), VaultError>)
        ensures
            !password_fits(master_password@) ==> r == Err::<(), _>(
                VaultError::AuthenticationFailure,
            ),
            password_fits(master_password@) ==> (r is Ok <==> unlock_result(
                vault.file,
                master_password@,
            ) is Ok),
            password_fits(master_password@) ==> (r matches Err(e) ==> unlock_result(
                vault.file,
                master_password@,
            ) == Err::<Seq<Credential>, _>(e)),
            r is Ok ==> {
                &&& unlock_result(vault.file, master_password@) == Ok::<_, VaultError>(
                    credentials(final(self).decrypted_entries@),
                )
                &&& final(self).current_vault == Some(vault)
                &&& final(self).vault_name@ == vault.name@
                &&& final(self).master_password == master_password
                &&& final(self).vault_path == Some(path)
                &&& final(self).app_state
            },
            r is Err ==> *final(self) == *old(self),
    {
        let mut master_password = master_password;
        if !password_is_usable(&master_password) {
            wipe_string(&mut master_password);
            return Err(VaultError::AuthenticationFailure);
        }
        match vault.decrypt_entries(master_password.as_str()) {
            Ok(entries) => {
                self.set_vault(vault, entries, master_password, path);
                Ok(())
            },
            Err(e) => {
                wipe_string(&mut master_password);
                Err(e)
            },
        }
    }
}

} // verus!

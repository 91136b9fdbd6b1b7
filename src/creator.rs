//! The form that creates a new vault.

use crate::manager::password_is_usable;
use crate::secret::wipe_string;
use vstd::utf8::encode_utf8;
use crate::vault::{create_new_vault, seals, Credential, Timestamp, Vault, VaultError};
use std::path::PathBuf;
use vstd::prelude::*;

verus! {

/// Whether `needle` occurs as a contiguous run inside `hay`.
pub open spec fn has_infix(hay: Seq<u8>, needle: Seq<u8>) -> bool {
    exists|i: int|
        0 <= i && i + needle.len() <= hay.len() && #[trigger] hay.subrange(i, i + needle.len())
            == needle
}

/// Relies on `str::contains` with a `&str` pattern: true exactly when the
/// pattern's UTF-8 bytes occur as a sub-slice of the text's UTF-8 bytes.
#[verifier::external_body]
fn text_contains(text: &str, pattern: &str) -> (r: bool)
    ensures
        r == has_infix(encode_utf8(text@), encode_utf8(pattern@)),
{
    text.contains(pattern)
}

/// The success text of the form for a vault name.
pub open spec fn created_text(name: Seq<char>) -> Seq<char> {
    "Хранилище '"@ + name + "' успешно создано!"@
}

/// The state of the vault creation form.
pub struct VaultCreator {
    pub show: bool,
    pub vault_name: String,
    pub master_password: String,
    pub confirm_password: String,
    pub error_message: String,
    pub success_message: String,
    pub created_vault_path: Option<PathBuf>,
}

impl VaultCreator {
    /// The message of the first check that the form's input fails, or
    /// `None` when it can create a vault: a name, a password, a confirmation
    /// equal to it, and a password that can derive a key.
    pub open spec fn input_error(&self) -> Option<Seq<char>> {
        if self.vault_name@.len() == 0 {
            Some("Введите название хранилища"@)
        } else if self.master_password@.len() == 0 {
            Some("Введите мастер-пароль"@)
        } else if self.master_password@ != self.confirm_password@ {
            Some("Пароли не совпадают"@)
        } else if !crate::crypto::password_fits(self.master_password@) {
            Some("Мастер-пароль слишком длинный"@)
        } else {
            None
        }
    }

    pub fn new() -> (r: Self)
        ensures
            !r.show,
            r.vault_name@.len() == 0,
            r.master_password@.len() == 0,
            r.confirm_password@.len() == 0,
            r.error_message@.len() == 0,
            r.success_message@.len() == 0,
            r.created_vault_path is None,
    {
        Self {
            show: false,
            vault_name: String::new(),
            master_password: String::new(),
            confirm_password: String::new(),
            error_message: String::new(),
            success_message: String::new(),
            created_vault_path: None,
        }
    }

    pub fn clear_messages(&mut self)
        ensures
            final(self).error_message@.len() == 0,
            final(self).success_message@.len() == 0,
            final(self).show == old(self).show,
            final(self).vault_name == old(self).vault_name,
            final(self).master_password == old(self).master_password,
            final(self).confirm_password == old(self).confirm_password,
            final(self).created_vault_path == old(self).created_vault_path,
    {
        self.error_message = String::new();
        self.success_message = String::new();
    }

    /// Checks the form and, when its input is valid, seals a new empty vault
    /// under the password and wipes both password fields; the caller writes
    /// the vault and reports with `finish_creation`. Otherwise the error
    /// message says what is wrong and nothing else changes.
    pub fn create_vault(&mut self, created: Timestamp) -> (r: Option<Vault>)
        ensures
            r is Some <==> old(self).input_error() is None,
            final(self).success_message@.len() == 0,
            match r {
                Some(v) => {
                    &&& v.name@ == old(self).vault_name@
                    &&& seals(v.file, Seq::<Credential>::empty(), old(self).master_password@)
                    &&& v.file.header.creation_date == created
                    &&& final(self).master_password@.len() == 0
                    &&& final(self).confirm_password@.len() == 0
                    &&& final(self).error_message@.len() == 0
                },
                None => {
                    &&& old(self).input_error() == Some(final(self).error_message@)
                    &&& final(self).master_password == old(self).master_password
                    &&& final(self).confirm_password == old(self).confirm_password
                },
            },
            final(self).vault_name == old(self).vault_name,
            final(self).created_vault_path == old(self).created_vault_path,
            final(self).show == old(self).show,
    {
        self.clear_messages();
        if self.vault_name.as_str().is_empty() {
            self.error_message = String::from_str("Введите название хранилища");
            return None;
        }
        if self.master_password.as_str().is_empty() {
            self.error_message = String::from_str("Введите мастер-пароль");
            return None;
        }
        if self.master_password != self.confirm_password {
            self.error_message = String::from_str("Пароли не совпадают");
            return None;
        }
        if !password_is_usable(&self.master_password) {
            self.error_message = String::from_str("Мастер-пароль слишком длинный");
            return None;
        }
        let vault = self.save_new_vault(created);
        wipe_string(&mut self.master_password);
        wipe_string(&mut self.confirm_password);
        Some(vault)
    }

    /// Seals a new empty vault named after the form under its password.
    fn save_new_vault(&self, created: Timestamp) -> (r: Vault)
        requires
            crate::crypto::password_fits(self.master_password@),
        ensures
            r.name@ == self.vault_name@,
            seals(r.file, Seq::<Credential>::empty(), self.master_password@),
            r.file.header.creation_date == created,
    {
        create_new_vault(self.vault_name.clone(), self.master_password.as_str(), created)
    }

    /// Records how writing the new vault went: on success its path and the
    /// success text, on failure the error text.
    pub fn finish_creation(&mut self, outcome: Result<PathBuf, VaultError>)
        ensures
            match outcome {
                Ok(path) => {
                    &&& final(self).created_vault_path == Some(path)
                    &&& final(self).success_message@ == created_text(old(self).vault_name@)
                    &&& final(self).error_message == old(self).error_message
                },
                Err(e) => {
                    &&& final(self).created_vault_path == old(self).created_vault_path
                    &&& final(self).error_message@ == "Ошибка создания хранилища: "@ + e.text()
                    &&& final(self).success_message == old(self).success_message
                },
            },
            final(self).show == old(self).show,
            final(self).vault_name == old(self).vault_name,
            final(self).master_password == old(self).master_password,
            final(self).confirm_password == old(self).confirm_password,
    {
        match outcome {
            Ok(path) => {
                let mut message = String::from_str("Хранилище '");
                message.append(self.vault_name.as_str());
                message.append("' успешно создано!");
                self.success_message = message;
                self.created_vault_path = Some(path);
            },
            Err(e) => {
                let mut message = String::from_str("Ошибка создания хранилища: ");
                let reason = e.message();
                message.append(reason.as_str());
                self.error_message = message;
            },
        }
    }

    /// Closes the form, clears its messages and wipes both passwords.
    pub fn cancel(&mut self)
        ensures
            !final(self).show,
            final(self).error_message@.len() == 0,
            final(self).success_message@.len() == 0,
            final(self).master_password@.len() == 0,
            final(self).confirm_password@.len() == 0,
            final(self).vault_name == old(self).vault_name,
            final(self).created_vault_path == old(self).created_vault_path,
    {
        self.show = false;
        self.clear_messages();
        wipe_string(&mut self.master_password);
        wipe_string(&mut self.confirm_password);
    }

    /// Whether the success text reports a created vault.
    pub fn was_vault_created(&self) -> (r: bool)
        ensures
            r == (self.success_message@.len() > 0 && has_infix(
                encode_utf8(self.success_message@),
                encode_utf8("успешно создано"@),
            )),
    {
        !self.success_message.as_str().is_empty() && text_contains(
            self.success_message.as_str(),
            "успешно создано",
        )
    }

    /// Hands out the path of the created vault, once.
    pub fn take_created_vault_path(&mut self) -> (r: Option<PathBuf>)
        ensures
            r == old(self).created_vault_path,
            final(self).created_vault_path is None,
            final(self).show == old(self).show,
            final(self).vault_name == old(self).vault_name,
            final(self).master_password == old(self).master_password,
            final(self).confirm_password == old(self).confirm_password,
            final(self).error_message == old(self).error_message,
            final(self).success_message == old(self).success_message,
    {
        self.created_vault_path.take()
    }
}

} // verus!

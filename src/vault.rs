//! Credential records and the vault file structure.

use crate::codec::{
    all_fit, decode_entries, encode_entries, lemma_decode_encode, parse_payload, payload_bytes,
};
use crate::crypto::{
    aes256gcm_open, aes256gcm_seal, decrypt_data, derive_key, encrypt_data, master_key,
    password_fits, random_bytes, MAX_PLAINTEXT_LEN, NONCE_LEN, SALT_LEN,
};
use crate::encoding::{base64_decode, base64_decoded, base64_encode, base64_encoded};
use crate::secret::{wipe_bytes, wipe_key, wipe_string};
use vstd::prelude::*;

verus! {

/// A credential record as a mathematical value.
pub ghost struct Credential {
    pub service: Seq<char>,
    pub login: Seq<char>,
    pub password: Seq<char>,
}

/// One credential record. Its identity is its position in the list that
/// holds it.
#[derive(Clone)]
pub struct Entry {
    pub service: String,
    pub login: String,
    pub password: String,
}

impl View for Entry {
    type V = Credential;

    open spec fn view(&self) -> Credential {
        Credential { service: self.service@, login: self.login@, password: self.password@ }
    }
}

/// The records of a list of entries, in order.
pub open spec fn credentials(entries: Seq<Entry>) -> Seq<Credential> {
    entries.map_values(|e: Entry| e@)
}

} // verus!

verus! {

/// The version of the vault file format that this library writes and reads.
pub const FORMAT_VERSION: u32 = 1;

/// A point in time as seconds and nanoseconds since the Unix epoch.
#[derive(Clone, Copy, Debug, PartialEq, Eq, Structural)]
pub struct Timestamp {
    pub secs: i64,
    pub nanos: u32,
}

/// The header of a vault file. Salt and nonce are held as base64 text.
pub struct VaultHeader {
    pub version: u32,
    pub creation_date: Timestamp,
    pub salt: String,
    pub nonce: String,
}

/// The unit persisted to storage: a header and the base64 text of the
/// ciphertext.
pub struct VaultFile {
    pub header: VaultHeader,
    pub data: String,
}

/// A named vault file.
pub struct Vault {
    pub name: String,
    pub file: VaultFile,
}

/// The kinds of failure of vault operations.
#[derive(Clone, Copy, Debug, PartialEq, Eq, Structural)]
pub enum VaultError {
    /// The container is malformed: bad base64, a wrong salt or nonce length,
    /// an unknown version, or a payload that does not decode.
    FormatError,
    /// The ciphertext does not authenticate under the key: a wrong password
    /// or tampered data, which are indistinguishable.
    AuthenticationFailure,
    /// Reading or writing storage failed, or the data is too large to store.
    StorageError,
}

impl VaultError {
    /// The text shown to the user for this failure.
    pub open spec fn text(self) -> Seq<char> {
        match self {
            VaultError::FormatError => "Неверный формат хранилища"@,
            VaultError::AuthenticationFailure => "Неверный мастер-пароль"@,
            VaultError::StorageError => "Ошибка записи файла хранилища"@,
        }
    }

    /// A message for the user.
    pub fn message(&self) -> (r: String)
        ensures
            r@ == self.text(),
    {
        match self {
            VaultError::FormatError => String::from_str("Неверный формат хранилища"),
            VaultError::AuthenticationFailure => String::from_str("Неверный мастер-пароль"),
            VaultError::StorageError => String::from_str("Ошибка записи файла хранилища"),
        }
    }
}

/// The salt, nonce and ciphertext that a vault file holds, or the format
/// error that its header shows.
pub open spec fn header_parts(file: VaultFile) -> Result<(Seq<u8>, Seq<u8>, Seq<u8>), VaultError> {
    if file.header.version != FORMAT_VERSION {
        Err(VaultError::FormatError)
    } else {
        match (
            base64_decoded(file.header.salt@),
            base64_decoded(file.header.nonce@),
            base64_decoded(file.data@),
        ) {
            (Some(salt), Some(nonce), Some(ct)) => if salt.len() == SALT_LEN && nonce.len()
                == NONCE_LEN {
                Ok((salt, nonce, ct))
            } else {
                Err(VaultError::FormatError)
            },
            _ => Err(VaultError::FormatError),
        }
    }
}

/// What unlocking a vault file with a password gives: its records, or the
/// failure.
pub open spec fn unlock_result(file: VaultFile, password: Seq<char>) -> Result<
    Seq<Credential>,
    VaultError,
> {
    match header_parts(file) {
        Err(e) => Err(e),
        Ok((salt, nonce, ct)) => match aes256gcm_open(master_key(password, salt), nonce, ct) {
            None => Err(VaultError::AuthenticationFailure),
            Some(payload) => match parse_payload(payload) {
                None => Err(VaultError::FormatError),
                Some(cs) => Ok(cs),
            },
        },
    }
}

/// Whether a vault file holds a list of records encrypted under a password:
/// its header is well formed, and its ciphertext decrypts, under the key of
/// the password and its salt, to the payload of the records.
pub open spec fn seals(file: VaultFile, cs: Seq<Credential>, password: Seq<char>) -> bool {
    &&& all_fit(cs)
    &&& match header_parts(file) {
        Ok((salt, nonce, ct)) => aes256gcm_open(master_key(password, salt), nonce, ct) == Some(
            payload_bytes(cs),
        ),
        Err(_) => false,
    }
}

/// The vault file that `seal_entries` writes for records, a password, a salt
/// and a creation date, given the nonce that encryption drew.
pub open spec fn sealed_with(
    file: VaultFile,
    cs: Seq<Credential>,
    password: Seq<char>,
    salt: Seq<u8>,
    created: Timestamp,
) -> bool {
    &&& seals(file, cs, password)
    &&& file.header.version == FORMAT_VERSION
    &&& file.header.creation_date == created
    &&& file.header.salt@ == base64_encoded(salt)
    &&& header_parts(file) matches Ok((s, nonce, ct)) && s == salt && file.header.nonce@
        == base64_encoded(nonce) && ct == aes256gcm_seal(master_key(password, salt), nonce, payload_bytes(cs))
        && file.data@ == base64_encoded(ct)
}

/// The result of a vault operation as records.
pub open spec fn entries_result(r: Result<Vec<Entry>, VaultError>) -> Result<
    Seq<Credential>,
    VaultError,
> {
    match r {
        Ok(v) => Ok(credentials(v@)),
        Err(e) => Err(e),
    }
}

fn nonce_array(v: &Vec<u8>) -> (r: [u8; 12])
    requires
        v@.len() == 12,
    ensures
        r@ == v@,
{
    let mut r: [u8; 12] = [0u8; 12];
    let mut i: usize = 0;
    while i < 12
        invariant
            v@.len() == 12,
            i <= 12,
            forall|j: int| 0 <= j < i ==> r@[j] == v@[j],
        decreases 12 - i,
    {
        r[i] = v[i];
        i = i + 1;
    }
    assert(r@ =~= v@);
    r
}

/// Decodes the salt, nonce and ciphertext of a vault file, checking its
/// version and the lengths of salt and nonce.
pub fn parse_header(file: &VaultFile) -> (r: Result<(Vec<u8>, [u8; 12], Vec<u8>), VaultError>)
    ensures
        match r {
            Ok((salt, nonce, ct)) => header_parts(*file) == Ok::<_, VaultError>((salt@, nonce@, ct@)),
            Err(e) => header_parts(*file) == Err::<(Seq<u8>, Seq<u8>, Seq<u8>), _>(e),
        },
{
    if file.header.version != FORMAT_VERSION {
        return Err(VaultError::FormatError);
    }
    let salt = base64_decode(file.header.salt.as_str());
    let nonce = base64_decode(file.header.nonce.as_str());
    let ct = base64_decode(file.data.as_str());
    match (salt, nonce, ct) {
        (Some(salt), Some(nonce), Some(ct)) => {
            if salt.len() != SALT_LEN || nonce.len() != NONCE_LEN {
                Err(VaultError::FormatError)
            } else {
                let nonce = nonce_array(&nonce);
                Ok((salt, nonce, ct))
            }
        },
        _ => Err(VaultError::FormatError),
    }
}

/// Wipes every entry of a list and leaves the list empty.
pub fn wipe_entries(entries: &mut Vec<Entry>)
    ensures
        final(entries)@.len() == 0,
{
    while entries.len() > 0
        decreases entries@.len(),
    {
        let mut e = entries.pop().unwrap();
        e.zeroize();
    }
}

impl Entry {
    /// Overwrites the three fields with zeros and leaves them empty.
    pub fn zeroize(&mut self)
        ensures
            final(self).service@.len() == 0,
            final(self).login@.len() == 0,
            final(self).password@.len() == 0,
    {
        wipe_string(&mut self.service);
        wipe_string(&mut self.login);
        wipe_string(&mut self.password);
    }
}

impl Vault {
    pub fn new(name: String, file: VaultFile) -> (r: Self)
        ensures
            r.name == name,
            r.file == file,
    {
        Self { name, file }
    }

    pub fn from_file(vault_file: VaultFile, name: String) -> (r: Self)
        ensures
            r.name == name,
            r.file == vault_file,
    {
        Self { name, file: vault_file }
    }

    /// Unlocks the vault: derives the key from the password and the stored
    /// salt, decrypts, and decodes the records. This is the one path from a
    /// password to plaintext records; it fails with `FormatError` on a
    /// malformed header or payload and with `AuthenticationFailure` when the
    /// ciphertext does not authenticate. The key and the decrypted payload
    /// are wiped before it returns.
    pub fn decrypt_entries(&self, master_password: &str) -> (r: Result<Vec<Entry>, VaultError>)
        requires
            password_fits(master_password@),
        ensures
            entries_result(r) == unlock_result(self.file, master_password@),
    {
        let (salt, nonce, ct) = match parse_header(&self.file) {
            Ok(parts) => parts,
            Err(e) => return Err(e),
        };
        let mut key = derive_key(master_password, salt.as_slice());
        let opened = decrypt_data(ct.as_slice(), &key, &nonce);
        wipe_key(&mut key);
        match opened {
            Err(_) => Err(VaultError::AuthenticationFailure),
            Ok(mut payload) => {
                let decoded = decode_entries(payload.as_slice());
                wipe_bytes(&mut payload);
                match decoded {
                    None => Err(VaultError::FormatError),
                    Some(entries) => Ok(entries),
                }
            },
        }
    }
}

/// Encrypts a list of entries under a password and a salt into a new vault
/// file, with a fresh nonce. Fails with `StorageError`, and only, when the
/// payload exceeds what AES-GCM can encrypt. The key and the payload are
/// wiped before it returns.
pub fn seal_entries(
    entries: &Vec<Entry>,
    master_password: &str,
    salt: &[u8; 16],
    created: Timestamp,
) -> (r: Result<VaultFile, VaultError>)
    requires
        password_fits(master_password@),
    ensures
        r is Ok <==> payload_bytes(credentials(entries@)).len() <= MAX_PLAINTEXT_LEN,
        match r {
            Ok(file) => sealed_with(file, credentials(entries@), master_password@, salt@, created),
            Err(e) => e == VaultError::StorageError,
        },
{
    let mut payload = encode_entries(entries);
    if payload.len() as u64 > MAX_PLAINTEXT_LEN {
        wipe_bytes(&mut payload);
        return Err(VaultError::StorageError);
    }
    let mut key = derive_key(master_password, salt.as_slice());
    let (ct, nonce) = encrypt_data(payload.as_slice(), &key);
    wipe_key(&mut key);
    wipe_bytes(&mut payload);
    let salt_text = base64_encode(salt.as_slice());
    let nonce_text = base64_encode(nonce.as_slice());
    let data_text = base64_encode(ct.as_slice());
    let file = VaultFile {
        header: VaultHeader {
            version: FORMAT_VERSION,
            creation_date: created,
            salt: salt_text,
            nonce: nonce_text,
        },
        data: data_text,
    };
    assert(header_parts(file) == Ok::<_, VaultError>((salt@, nonce@, ct@)));
    Ok(file)
}

/// Encrypts a list of entries under a password into a named vault with a
/// fresh random salt and nonce. Fails with `StorageError`, and only, when
/// the payload exceeds what AES-GCM can encrypt.
pub fn create_encrypted_vault(
    entries: &Vec<Entry>,
    master_password: &str,
    name: String,
    created: Timestamp,
) -> (r: Result<Vault, VaultError>)
    requires
        password_fits(master_password@),
    ensures
        r is Ok <==> payload_bytes(credentials(entries@)).len() <= MAX_PLAINTEXT_LEN,
        match r {
            Ok(v) => {
                &&& v.name == name
                &&& seals(v.file, credentials(entries@), master_password@)
                &&& v.file.header.version == FORMAT_VERSION
                &&& v.file.header.creation_date == created
            },
            Err(e) => e == VaultError::StorageError,
        },
{
    let salt: [u8; 16] = random_bytes();
    match seal_entries(entries, master_password, &salt, created) {
        Ok(file) => Ok(Vault::new(name, file)),
        Err(e) => Err(e),
    }
}

/// Creates a new named vault that holds no records, under a password, with
/// a fresh random salt and nonce.
pub fn create_new_vault(name: String, password: &str, created: Timestamp) -> (r: Vault)
    requires
        password_fits(password@),
    ensures
        r.name == name,
        seals(r.file, Seq::<Credential>::empty(), password@),
        r.file.header.version == FORMAT_VERSION,
        r.file.header.creation_date == created,
{
    let empty: Vec<Entry> = Vec::new();
    proof {
        assert(credentials(empty@) =~= Seq::<Credential>::empty());
    }
    match create_encrypted_vault(&empty, password, name, created) {
        Ok(v) => v,
        Err(_) => vstd::pervasive::unreached(),
    }
}

/// Checks a vault file read from storage and names it. Fails with
/// `FormatError` exactly when the version is unknown, a field is not valid
/// base64, or the salt or nonce has the wrong length; nothing is decrypted.
pub fn load_vault(file: VaultFile, name: String) -> (r: Result<Vault, VaultError>)
    ensures
        r is Ok <==> header_parts(file) is Ok,
        match r {
            Ok(v) => v.name == name && v.file == file,
            Err(e) => header_parts(file) == Err::<(Seq<u8>, Seq<u8>, Seq<u8>), _>(e),
        },
{
    match parse_header(&file) {
        Ok(_) => Ok(Vault::from_file(file, name)),
        Err(e) => Err(e),
    }
}

/// A vault file that holds records under a password unlocks, with that
/// password, to exactly those records.
pub proof fn lemma_unlock_sealed(file: VaultFile, cs: Seq<Credential>, password: Seq<char>)
    requires
        seals(file, cs, password),
    ensures
        unlock_result(file, password) == Ok::<_, VaultError>(cs),
{
    lemma_decode_encode(cs);
}

/// Two vault files written for the same records and password (each with its
/// own nonce) both unlock to those records.
pub proof fn lemma_save_twice_same_records(
    first: VaultFile,
    second: VaultFile,
    cs: Seq<Credential>,
    password: Seq<char>,
)
    requires
        seals(first, cs, password),
        seals(second, cs, password),
    ensures
        unlock_result(first, password) == Ok::<_, VaultError>(cs),
        unlock_result(second, password) == Ok::<_, VaultError>(cs),
{
    lemma_unlock_sealed(first, cs, password);
    lemma_unlock_sealed(second, cs, password);
}

} // verus!

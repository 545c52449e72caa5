//! The key-unwrap stage and vault-item decryption: unwrapping the
//! server-delivered account key under the master key, then decrypting
//! each encrypted field of each vault item under the account key,
//! tolerating per-item failures.

use vstd::prelude::*;

verus! {

use vstd::utf8::encode_utf8;
use crate::envelope::DecryptError;
use crate::envelope::decrypt_payload;
use crate::envelope::decrypt_payload_spec;
use crate::envelope::decrypt_payload_utf8;
use crate::envelope::decrypt_payload_utf8_spec;
use crate::kdf::MasterKey;

/// The account (a.k.a. user) key recovered by unwrapping the
/// server-delivered blob with the master key. Although both are
/// 32-byte AES-256 keys, it is never interchangeable with the
/// [`MasterKey`]: this one decrypts vault items.
#[derive(Clone, Debug)]
pub struct AccountKey {
    pub bytes: Vec<u8>,
}

impl AccountKey {
    pub open spec fn wf(&self) -> bool {
        self.bytes@.len() == 32
    }
}

/// How the wrapped account key unwraps: the wrapped blob is an
/// ordinary cipher string decrypted under the master key, and its
/// plaintext is consumed as raw key bytes, which must be exactly 32;
/// any other length signals a wrong key.
pub open spec fn unwrapped_account_key(wrapped: Seq<u8>, master: Seq<u8>) -> Result<Seq<u8>, DecryptError> {
    match decrypt_payload_spec(wrapped, master) {
        Err(e) => Err(e),
        Ok(p) => if p.len() == 32 {
            Ok(p)
        } else {
            Err(DecryptError::Decryption)
        },
    }
}

/// Unwraps the account key from the server-delivered cipher string.
/// The plaintext is raw key material, never decoded as text. Failure
/// here is effectively fatal for the run: no item can be read without
/// the account key.
pub fn unwrap_account_key(wrapped: &[u8], master: &MasterKey) -> (r: Result<AccountKey, DecryptError>)
    requires
        master.wf(),
    ensures
        (r matches Ok(k) ==> k.wf() && unwrapped_account_key(wrapped@, master.bytes@) == Ok::<_, DecryptError>(k.bytes@)),
        (r matches Err(e) ==> unwrapped_account_key(wrapped@, master.bytes@) == Err::<Seq<u8>, _>(e)),
{
    let p = match decrypt_payload(wrapped, master.bytes.as_slice()) {
        Ok(v) => v,
        Err(e) => return Err(e),
    };
    if p.len() != 32 {
        return Err(DecryptError::Decryption);
    }
    Ok(AccountKey { bytes: p })
}

/// The kind of a vault item. Only `Login` items carry fields this
/// pipeline decrypts; the other kinds are structurally present but
/// their contents are left alone.
#[derive(Clone, Copy, PartialEq, Eq, Structural, Debug)]
pub enum ItemType {
    Login,
    SecureNote,
    Card,
    Identity,
    Unknown,
}

/// Maps the wire format's numeric type code to an item kind.
pub fn item_type_from_code(code: u8) -> (r: ItemType)
    ensures
        (r is Login) <==> code == 1,
        code == 2 ==> r is SecureNote,
        code == 3 ==> r is Card,
        code == 4 ==> r is Identity,
        (code != 1 && code != 2 && code != 3 && code != 4) ==> r is Unknown,
{
    if code == 1 {
        ItemType::Login
    } else if code == 2 {
        ItemType::SecureNote
    } else if code == 3 {
        ItemType::Card
    } else if code == 4 {
        ItemType::Identity
    } else {
        ItemType::Unknown
    }
}

/// The encrypted credentials of a login item. Each present field is a
/// cipher string.
#[derive(Clone, Debug)]
pub struct LoginCredentials {
    pub username: Option<String>,
    pub password: Option<String>,
}

/// A vault item as the server delivers it: every textual field is an
/// encrypted cipher string, and every field is optional. Read-only
/// after construction; decryption produces a parallel projection
/// without touching the source.
#[derive(Clone, Debug)]
pub struct VaultItem {
    pub item_type: ItemType,
    pub name: Option<String>,
    pub notes: Option<String>,
    pub login: Option<LoginCredentials>,
}

/// The plaintext projection of one vault item. A field absent in the
/// source stays absent; a present field carries either its plaintext
/// or the error that its decryption reported.
#[derive(Clone, Debug)]
pub struct DecryptedItem {
    pub name: Option<Result<String, DecryptError>>,
    pub notes: Option<Result<String, DecryptError>>,
    pub username: Option<Result<String, DecryptError>>,
    pub password: Option<Result<String, DecryptError>>,
}

pub open spec fn login_username(item: VaultItem) -> Option<String> {
    match item.login {
        None => None,
        Some(l) => l.username,
    }
}

pub open spec fn login_password(item: VaultItem) -> Option<String> {
    match item.login {
        None => None,
        Some(l) => l.password,
    }
}

/// Whether `r` reports exactly the decryption of the optional field
/// `f` under `key`: absent stays absent, and a present field carries
/// the plaintext or error that the envelope decryptor determines.
pub open spec fn field_decrypted(r: Option<Result<String, DecryptError>>, f: Option<String>, key: Seq<u8>) -> bool {
    match (f, r) {
        (None, None) => true,
        (Some(s), Some(res)) => (match (res, decrypt_payload_utf8_spec(encode_utf8(s@), key)) {
            (Ok(t), Ok(u)) => t@ == u,
            (Err(a), Err(b)) => a == b,
            _ => false,
        }),
        _ => false,
    }
}

/// Whether `d` is the decryption of `item` under `key`: for a login
/// item, every present field is decrypted; for any other kind,
/// nothing is.
pub open spec fn item_decrypted(d: DecryptedItem, item: VaultItem, key: Seq<u8>) -> bool {
    if item.item_type is Login {
        &&& field_decrypted(d.name, item.name, key)
        &&& field_decrypted(d.notes, item.notes, key)
        &&& field_decrypted(d.username, login_username(item), key)
        &&& field_decrypted(d.password, login_password(item), key)
    } else {
        &&& d.name is None
        &&& d.notes is None
        &&& d.username is None
        &&& d.password is None
    }
}

/// Decrypts one optional field, reporting its error in place instead
/// of failing the caller.
fn decrypt_field(f: &Option<String>, key: &[u8]) -> (r: Option<Result<String, DecryptError>>)
    requires
        key@.len() == 32,
    ensures
        field_decrypted(r, *f, key@),
{
    match f {
        None => None,
        Some(s) => Some(decrypt_payload_utf8(s.as_str().as_bytes(), key)),
    }
}

/// Decrypts the fields of one vault item under the account key. A
/// missing optional field is skipped, a failing field is reported in
/// place, and only login items are decrypted at all.
pub fn decrypt_item(item: &VaultItem, key: &AccountKey) -> (r: DecryptedItem)
    requires
        key.wf(),
    ensures
        item_decrypted(r, *item, key.bytes@),
{
    match item.item_type {
        ItemType::Login => {
            let mut username: Option<Result<String, DecryptError>> = None;
            let mut password: Option<Result<String, DecryptError>> = None;
            match &item.login {
                None => {},
                Some(l) => {
                    username = decrypt_field(&l.username, key.bytes.as_slice());
                    password = decrypt_field(&l.password, key.bytes.as_slice());
                },
            }
            DecryptedItem {
                name: decrypt_field(&item.name, key.bytes.as_slice()),
                notes: decrypt_field(&item.notes, key.bytes.as_slice()),
                username,
                password,
            }
        },
        _ => DecryptedItem { name: None, notes: None, username: None, password: None },
    }
}

/// Decrypts a whole batch of vault items. Every item gets a result:
/// one corrupt item is reported in place and never aborts the
/// decryption of the rest.
pub fn decrypt_vault(items: &Vec<VaultItem>, key: &AccountKey) -> (r: Vec<DecryptedItem>)
    requires
        key.wf(),
    ensures
        r@.len() == items@.len(),
        forall|i: int| 0 <= i < items@.len() ==> item_decrypted(r@[i], items@[i], key.bytes@),
{
    let mut out: Vec<DecryptedItem> = Vec::new();
    let mut idx: usize = 0;
    while idx < items.len()
        invariant
            key.wf(),
            0 <= idx <= items@.len(),
            out@.len() == idx,
            forall|i: int| 0 <= i < idx ==> item_decrypted(out@[i], items@[i], key.bytes@),
        decreases items@.len() - idx,
    {
        let d = decrypt_item(&items[idx], key);
        out.push(d);
        idx = idx + 1;
    }
    out
}

} // verus!

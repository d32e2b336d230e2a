//! Passwords: how those of accounts are kept, and the master password that guards them.

use vstd::prelude::*;
use vstd::slice::slice_subrange;
use vstd::string::*;

use aes_gcm::aead::{Aead, KeyInit};
use aes_gcm::{Aes256Gcm, Nonce};
use argon2::Argon2;
use rand::RngCore;

use crate::codec;
use crate::codec::{base64_decode, base64_encode};
use crate::header;
use crate::text;
use crate::text::{concat, same, split, to_chars, to_text, Sep};

verus! {

broadcast use vstd::string::group_string_axioms;

/// What AES-256-GCM makes of a message by this key and nonce.
pub uninterp spec fn sealed(key: Seq<u8>, nonce: Seq<u8>, message: Seq<u8>) -> Option<Seq<u8>>;

/// The message that AES-256-GCM finds in the bytes by this key and nonce.
pub uninterp spec fn opened(key: Seq<u8>, nonce: Seq<u8>, data: Seq<u8>) -> Option<Seq<u8>>;

/// The longest message that can be sealed, in bytes.
pub const LONGEST_MESSAGE: u64 = 0x10_0000_0000;

/// `aes_gcm::aead::Aead::encrypt` of `Aes256Gcm`: it fails for a message that is too long, and
/// for no other. What it gives has sixteen bytes more than the message, and opens to the message
/// again by the same key and nonce.
#[verifier::external_body]
fn seal(key: &[u8; 32], nonce: &[u8; 12], message: &[u8]) -> (r: Option<Vec<u8>>)
    requires
        message@.len() <= usize::MAX / 4,
    ensures
        text::opt_view(r) == sealed(key@, nonce@, message@),
        r is Some <==> message@.len() <= LONGEST_MESSAGE,
        r matches Some(v) ==> v@.len() == message@.len() + 16 && opened(key@, nonce@, v@) == Some(
            message@,
        ),
{
    Aes256Gcm::new(key.into()).encrypt(Nonce::from_slice(nonce), message).ok()
}

/// `aes_gcm::aead::Aead::decrypt` of `Aes256Gcm`: the message, or nothing where the bytes were
/// not sealed by this key and nonce.
#[verifier::external_body]
fn open(key: &[u8; 32], nonce: &[u8; 12], data: &[u8]) -> (r: Option<Vec<u8>>)
    ensures
        text::opt_view(r) == opened(key@, nonce@, data@),
{
    Aes256Gcm::new(key.into()).decrypt(Nonce::from_slice(nonce), data).ok()
}

/// `rand::RngCore::fill_bytes` of the thread's generator: bytes, of which nothing is known.
#[verifier::external_body]
fn random<const N: usize>() -> (r: [u8; N])
{
    let mut bytes = [0u8; N];
    rand::thread_rng().fill_bytes(&mut bytes);
    bytes
}

/// The key of thirty-two bytes that Argon2 makes of a password and a salt.
pub uninterp spec fn argon2_key(password: Seq<u8>, salt: Seq<u8>) -> Seq<u8>;

/// `argon2::Argon2::hash_password_into` with the default parameters. It takes passwords of up to
/// four gigabytes.
#[verifier::external_body]
fn hash_password(password: &[u8], salt: &[u8; 16]) -> (r: [u8; 32])
    requires
        password@.len() <= u32::MAX,
    ensures
        r@ == argon2_key(password@, salt@),
{
    let mut key = [0u8; 32];
    Argon2::default().hash_password_into(password, salt, &mut key).unwrap();
    key
}

/// `<[u8; N]>::try_from`: the bytes as an array, if they are as many.
#[verifier::external_body]
fn to_array<const N: usize>(bytes: &[u8]) -> (r: Option<[u8; N]>)
    ensures
        r is Some <==> bytes@.len() == N,
        r matches Some(a) ==> a@ == bytes@,
{
    <[u8; N]>::try_from(bytes).ok()
}

/// `String::from_utf8`: the text that the bytes are in UTF-8, if they are.
#[verifier::external_body]
fn read_utf8(bytes: Vec<u8>) -> (r: Option<String>)
    ensures
        r is Some <==> vstd::utf8::valid_utf8(bytes@),
        r matches Some(s) ==> s@ == vstd::utf8::decode_utf8(bytes@),
{
    String::from_utf8(bytes).ok()
}

/// Why the password of an account cannot be kept or read.
#[derive(Clone, Copy, Debug, PartialEq, Eq, Structural)]
pub enum VaultError {
    /// It cannot be encrypted.
    EncryptionFailed,
    /// There is no key.
    KeyMissing,
    /// It is kept in a form that is not known.
    UnsupportedFormat,
    /// A part is missing.
    InvalidPassword,
    /// A part is not base64.
    InvalidBase64,
    /// The nonce has the wrong length.
    InvalidNonce,
    /// It cannot be decrypted.
    DecryptionFailed,
    /// It is no text.
    InvalidText,
}

impl VaultError {
    /// What the error reads like in a message.
    pub open spec fn text(self) -> Seq<char> {
        match self {
            VaultError::EncryptionFailed => "password encryption failed"@,
            VaultError::KeyMissing => "password key is not initialized"@,
            VaultError::UnsupportedFormat => "unsupported password format"@,
            VaultError::InvalidPassword => "invalid password"@,
            VaultError::InvalidBase64 => "invalid base64"@,
            VaultError::InvalidNonce => "invalid password nonce"@,
            VaultError::DecryptionFailed => "password decryption failed"@,
            VaultError::InvalidText => "invalid utf-8 sequence"@,
        }
    }

    /// What the error reads like in a message.
    pub fn message(&self) -> (r: String)
        ensures
            r@ == self.text(),
    {
        match *self {
            VaultError::EncryptionFailed => "password encryption failed".to_owned(),
            VaultError::KeyMissing => "password key is not initialized".to_owned(),
            VaultError::UnsupportedFormat => "unsupported password format".to_owned(),
            VaultError::InvalidPassword => "invalid password".to_owned(),
            VaultError::InvalidBase64 => "invalid base64".to_owned(),
            VaultError::InvalidNonce => "invalid password nonce".to_owned(),
            VaultError::DecryptionFailed => "password decryption failed".to_owned(),
            VaultError::InvalidText => "invalid utf-8 sequence".to_owned(),
        }
    }
}

/// The model of a password or an error.
pub open spec fn text_view(r: Result<String, VaultError>) -> Result<Seq<char>, VaultError> {
    match r {
        Ok(s) => Ok(s@),
        Err(e) => Err(e),
    }
}

/// How a password is kept: the version, the nonce and the sealed password in base64, with colons
/// between them.
pub open spec fn kept(key: Seq<u8>, nonce: Seq<u8>, password: Seq<char>) -> Result<
    Seq<char>,
    VaultError,
> {
    match sealed(key, nonce, vstd::utf8::encode_utf8(password)) {
        None => Err(VaultError::EncryptionFailed),
        Some(c) => Ok("v1:"@ + codec::base64_text(nonce) + ":"@ + codec::base64_text(c)),
    }
}

/// The password that is kept, or why there is none. What stands behind a third colon does not
/// matter.
pub open spec fn unkept(key: Option<Seq<u8>>, value: Seq<char>) -> Result<Seq<char>, VaultError> {
    let parts = text::pieces(value, Sep::Char(':'));
    if key is None {
        Err(VaultError::KeyMissing)
    } else if parts[0] != "v1"@ {
        Err(VaultError::UnsupportedFormat)
    } else if parts.len() < 2 {
        Err(VaultError::InvalidPassword)
    } else {
        match codec::base64_bytes(vstd::utf8::encode_utf8(parts[1])) {
            None => Err(VaultError::InvalidBase64),
            Some(nonce) => if nonce.len() != 12 {
                Err(VaultError::InvalidNonce)
            } else if parts.len() < 3 {
                Err(VaultError::InvalidPassword)
            } else {
                match codec::base64_bytes(vstd::utf8::encode_utf8(parts[2])) {
                    None => Err(VaultError::InvalidBase64),
                    Some(data) => match opened(key->Some_0, nonce, data) {
                        None => Err(VaultError::DecryptionFailed),
                        Some(m) => if vstd::utf8::valid_utf8(m) {
                            Ok(vstd::utf8::decode_utf8(m))
                        } else {
                            Err(VaultError::InvalidText)
                        },
                    },
                }
            },
        }
    }
}

proof fn lemma_kept_parts(a: Seq<char>, b: Seq<char>)
    requires
        !a.contains(':'),
        !b.contains(':'),
    ensures
        text::pieces("v1:"@ + a + ":"@ + b, Sep::Char(':')) == seq!["v1"@, a, b],
{
    reveal_strlit("v1:");
    reveal_strlit("v1");
    reveal_strlit(":");
    let sep = Sep::Char(':');
    assert(text::unparted("v1"@, sep));
    assert(text::unparted(a, sep));
    assert(text::unparted(b, sep));
    assert("v1:"@ + a + ":"@ + b =~= "v1"@.push(':') + (a.push(':') + b));
    text::pieces_of_more("v1"@, ':', a.push(':') + b, sep);
    text::pieces_of_more(a, ':', b, sep);
    text::pieces_of_one(b, sep);
    assert(seq!["v1"@] + (seq![a] + seq![b]) =~= seq!["v1"@, a, b]);
}

/// Encrypts the password by this nonce. What is kept gives the password again by the same key.
pub fn encrypt_with(key: &[u8; 32], nonce: &[u8; 12], password: &str) -> (r: Result<
    String,
    VaultError,
>)
    requires
        header::byte_len(password@) <= usize::MAX / 4,
    ensures
        text_view(r) == kept(key@, nonce@, password@),
        r is Ok <==> header::byte_len(password@) <= LONGEST_MESSAGE,
        r matches Ok(s) ==> unkept(Some(key@), s@) == Ok::<Seq<char>, VaultError>(password@)
            && text::occurs(s@, "v1:"@, 0),
{
    let bytes = password.as_bytes();
    match seal(key, nonce, bytes) {
        None => Err(VaultError::EncryptionFailed),
        Some(c) => {
            let a = base64_encode(nonce.as_slice());
            let b = base64_encode(c.as_slice());
            let mut s = concat("v1:", a.as_str());
            s.append(":");
            s.append(b.as_str());
            proof {
                lemma_kept_parts(a@, b@);
                vstd::utf8::encode_utf8_valid_utf8(password@);
                vstd::utf8::encode_utf8_decode_utf8(password@);
                assert(s@.subrange(0, "v1:"@.len() as int) =~= "v1:"@);
            }
            Ok(s)
        },
    }
}

/// Encrypts the password by a new nonce. What is kept gives the password again by the same key.
pub fn encrypt_password(key: &[u8; 32], password: &str) -> (r: Result<String, VaultError>)
    requires
        header::byte_len(password@) <= usize::MAX / 4,
    ensures
        exists|nonce: Seq<u8>|
            nonce.len() == 12 && text_view(r) == #[trigger] kept(key@, nonce, password@),
        r is Ok <==> header::byte_len(password@) <= LONGEST_MESSAGE,
        r matches Ok(s) ==> unkept(Some(key@), s@) == Ok::<Seq<char>, VaultError>(password@)
            && text::occurs(s@, "v1:"@, 0),
{
    let nonce: [u8; 12] = random();
    let ghost n = nonce@;
    assert(n.len() == 12);
    encrypt_with(key, &nonce, password)
}

/// Decrypts the password that is kept.
pub fn decrypt_password(key: &Option<[u8; 32]>, value: &str) -> (r: Result<String, VaultError>)
    ensures
        text_view(r) == unkept(
            match *key {
                Some(k) => Some(k@),
                None => None,
            },
            value@,
        ),
{
    let key = match key {
        Some(k) => k,
        None => {
            return Err(VaultError::KeyMissing);
        },
    };
    let parts = split(&to_chars(value), Sep::Char(':'));
    let ghost all = text::views(parts@);
    assert(all[0] == parts[0]@);
    if !same(to_text(&parts[0]).as_str(), "v1") {
        return Err(VaultError::UnsupportedFormat);
    }
    if parts.len() < 2 {
        return Err(VaultError::InvalidPassword);
    }
    assert(all[1] == parts[1]@);
    let nonce_text = to_text(&parts[1]);
    let nonce_bytes = match base64_decode(nonce_text.as_str().as_bytes()) {
        Some(v) => v,
        None => {
            return Err(VaultError::InvalidBase64);
        },
    };
    let nonce: [u8; 12] = match to_array(nonce_bytes.as_slice()) {
        Some(a) => a,
        None => {
            return Err(VaultError::InvalidNonce);
        },
    };
    if parts.len() < 3 {
        return Err(VaultError::InvalidPassword);
    }
    assert(all[2] == parts[2]@);
    let data_text = to_text(&parts[2]);
    let data = match base64_decode(data_text.as_str().as_bytes()) {
        Some(v) => v,
        None => {
            return Err(VaultError::InvalidBase64);
        },
    };
    match open(key, &nonce, data.as_slice()) {
        None => Err(VaultError::DecryptionFailed),
        Some(m) => match read_utf8(m) {
            Some(s) => Ok(s),
            None => Err(VaultError::InvalidText),
        },
    }
}

/// A password is kept only behind the mark of this version: with any other first part, or without
/// a key, there is none.
pub proof fn other_version_refused(key: Option<Seq<u8>>, value: Seq<char>)
    requires
        key is None || text::pieces(value, Sep::Char(':'))[0] != "v1"@,
    ensures
        unkept(key, value) is Err,
{
}

/// The key in a key file: its first thirty-two bytes, if it has as many.
pub open spec fn key_in(bytes: Seq<u8>) -> Option<Seq<u8>> {
    if bytes.len() < 32 {
        None
    } else {
        Some(bytes.take(32))
    }
}

/// The key in a key file.
pub fn read_key(bytes: &[u8]) -> (r: Option<[u8; 32]>)
    ensures
        match r {
            Some(k) => key_in(bytes@) == Some(k@),
            None => key_in(bytes@) is None,
        },
{
    if bytes.len() < 32 {
        return None;
    }
    let first = slice_subrange(bytes, 0, 32);
    assert(bytes@.subrange(0, 32) =~= bytes@.take(32));
    to_array(first)
}

/// A new key for a key file: random bytes, of which any may come.
pub fn new_key() -> (r: [u8; 32])
    ensures
        r@.len() == 32,
{
    random()
}

/// A new salt: random bytes, of which any may come.
pub fn new_salt() -> (r: [u8; 16])
    ensures
        r@.len() == 16,
{
    random()
}

/// The salt in a salt file: all its bytes, if there are sixteen.
pub fn read_salt(bytes: &[u8]) -> (r: Option<[u8; 16]>)
    ensures
        r is Some <==> bytes@.len() == 16,
        r matches Some(s) ==> s@ == bytes@,
{
    to_array(bytes)
}

/// The key that the master password and the salt make.
pub fn derive_master_key(password: &str, salt: &[u8; 16]) -> (r: [u8; 32])
    requires
        header::byte_len(password@) <= u32::MAX,
    ensures
        r@ == argon2_key(vstd::utf8::encode_utf8(password@), salt@),
{
    hash_password(password.as_bytes(), salt)
}

/// What is sealed by the master key, to know the key again.
pub open spec fn magic() -> Seq<u8> {
    vstd::utf8::encode_utf8("RUST_EMAIL_MASTER_OK"@)
}

/// Whether the bytes are the nonce and the seal by which this key is known again.
pub open spec fn checks(key: Seq<u8>, data: Seq<u8>) -> bool {
    data.len() >= 12 && opened(key, data.take(12), data.skip(12)) == Some(magic())
}

/// The bytes by which the key is known again: the nonce, and what it seals.
pub fn make_check_with(key: &[u8; 32], nonce: &[u8; 12]) -> (r: Vec<u8>)
    ensures
        Some(r@) == (match sealed(key@, nonce@, magic()) {
            Some(c) => Some(nonce@ + c),
            None => None,
        }),
        checks(key@, r@),
        r@.len() == 48,
{
    let word = "RUST_EMAIL_MASTER_OK";
    proof {
        reveal_strlit("RUST_EMAIL_MASTER_OK");
        assert(vstd::utf8::is_ascii_chars(word@));
        vstd::utf8::is_ascii_chars_encode_utf8(word@);
    }
    let mut buf: Vec<u8> = Vec::new();
    let mut i: usize = 0;
    while i < 12
        invariant
            i <= 12,
            buf@ == nonce@.take(i as int),
        decreases 12 - i,
    {
        buf.push(nonce[i]);
        assert(nonce@.take(i as int).push(nonce@[i as int]) =~= nonce@.take(i + 1));
        i += 1;
    }
    assert(nonce@.take(12) =~= nonce@);
    if let Some(c) = seal(key, nonce, word.as_bytes()) {
        let mut c = c;
        let ghost sealed_bytes = c@;
        buf.append(&mut c);
        assert(buf@ =~= nonce@ + sealed_bytes);
        assert(buf@.take(12) =~= nonce@);
        assert(buf@.skip(12) =~= sealed_bytes);
    }
    buf
}

/// The bytes by which the key is known again, with a new nonce.
pub fn make_master_check(key: &[u8; 32]) -> (r: Vec<u8>)
    ensures
        exists|nonce: Seq<u8>|
            nonce.len() == 12 && Some(r@) == (match #[trigger] sealed(key@, nonce, magic()) {
                Some(c) => Some(nonce + c),
                None => None,
            }),
        checks(key@, r@),
        r@.len() == 48,
{
    let nonce: [u8; 12] = random();
    let ghost n = nonce@;
    assert(n.len() == 12);
    make_check_with(key, &nonce)
}

/// Bytes that are too few for a nonce are not known again by any key.
pub proof fn short_check_refused(key: Seq<u8>, data: Seq<u8>)
    requires
        data.len() < 12,
    ensures
        !checks(key, data),
{
}

/// Whether this is the key that the bytes were made with.
pub fn verify_master_key(key: &[u8; 32], check_data: &[u8]) -> (r: bool)
    ensures
        r == checks(key@, check_data@),
{
    if check_data.len() < 12 {
        return false;
    }
    let first = slice_subrange(check_data, 0, 12);
    let rest = slice_subrange(check_data, 12, check_data.len());
    assert(check_data@.subrange(0, 12) =~= check_data@.take(12));
    assert(check_data@.subrange(12, check_data@.len() as int) =~= check_data@.skip(12));
    let nonce: [u8; 12] = match to_array(first) {
        Some(a) => a,
        None => {
            return false;
        },
    };
    match open(key, &nonce, rest) {
        Some(m) => same_bytes(m.as_slice(), "RUST_EMAIL_MASTER_OK".as_bytes()),
        None => false,
    }
}

fn same_bytes(a: &[u8], b: &[u8]) -> (r: bool)
    ensures
        r == (a@ == b@),
{
    if a.len() != b.len() {
        return false;
    }
    let mut i: usize = 0;
    while i < a.len()
        invariant
            a@.len() == b@.len(),
            i <= a.len(),
            forall|j: int| 0 <= j < i ==> a@[j] == b@[j],
        decreases a.len() - i,
    {
        if a[i] != b[i] {
            return false;
        }
        i += 1;
    }
    assert(a@ =~= b@);
    true
}

/// Why a new master password is refused.
#[derive(Clone, Copy, Debug, PartialEq, Eq, Structural)]
pub enum PasswordError {
    /// It was not repeated.
    Different,
    /// It is too short.
    Short,
}

impl PasswordError {
    /// What the error reads like in a message.
    pub open spec fn text(self) -> Seq<char> {
        match self {
            PasswordError::Different => "两次输入的密码不一致"@,
            PasswordError::Short => "密码至少需要 4 个字符"@,
        }
    }

    /// What the error reads like in a message.
    pub fn message(&self) -> (r: String)
        ensures
            r@ == self.text(),
    {
        match *self {
            PasswordError::Different => "两次输入的密码不一致".to_owned(),
            PasswordError::Short => "密码至少需要 4 个字符".to_owned(),
        }
    }
}

/// Whether a new master password is taken: it is repeated, and has at least four bytes.
pub open spec fn new_password(password: Seq<char>, confirm: Seq<char>) -> Result<
    (),
    PasswordError,
> {
    if password != confirm {
        Err(PasswordError::Different)
    } else if header::byte_len(password) < 4 {
        Err(PasswordError::Short)
    } else {
        Ok(())
    }
}

/// Whether a new master password is taken.
pub fn check_new_password(password: &str, confirm: &str) -> (r: Result<(), PasswordError>)
    ensures
        r == new_password(password@, confirm@),
{
    if !same(password, confirm) {
        Err(PasswordError::Different)
    } else if password.as_bytes().len() < 4 {
        Err(PasswordError::Short)
    } else {
        Ok(())
    }
}

/// What is made of a new master password: salt, key and the bytes by which the key is known
/// again.
pub struct Master {
    pub salt: [u8; 16],
    pub key: [u8; 32],
    pub check: Vec<u8>,
}

/// Takes a new master password. By the salt and the bytes that are kept the same password is
/// known again.
pub fn set_master_password(password: &str, confirm: &str) -> (r: Result<Master, PasswordError>)
    requires
        header::byte_len(password@) <= u32::MAX,
    ensures
        match r {
            Ok(m) => new_password(password@, confirm@) is Ok && m.key@ == argon2_key(
                vstd::utf8::encode_utf8(password@),
                m.salt@,
            ) && checks(m.key@, m.check@),
            Err(e) => new_password(password@, confirm@) == Err::<(), PasswordError>(e),
        },
{
    match check_new_password(password, confirm) {
        Err(e) => Err(e),
        Ok(_) => {
            let salt = new_salt();
            let key = derive_master_key(password, &salt);
            let check = make_master_check(&key);
            Ok(Master { salt, key, check })
        },
    }
}

/// Tries a master password: the key, if it is the one that the bytes were made with.
pub fn try_master_password(password: &str, salt: &[u8; 16], check_data: &[u8]) -> (r: Option<
    [u8; 32],
>)
    requires
        header::byte_len(password@) <= u32::MAX,
    ensures
        ({
            let key = argon2_key(vstd::utf8::encode_utf8(password@), salt@);
            match r {
                Some(k) => k@ == key && checks(key, check_data@),
                None => !checks(key, check_data@),
            }
        }),
{
    let key = derive_master_key(password, salt);
    if verify_master_key(&key, check_data) {
        Some(key)
    } else {
        None
    }
}

} // verus!

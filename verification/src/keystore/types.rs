//! The values that a keystore deals in.
use crate::outside::error_stack_text;
use crate::text::{decimal, decimal_text};
use vstd::prelude::*;

verus! {

/// The elliptic curves.
#[derive(Clone, Copy, Debug, PartialEq, Eq, Structural)]
pub enum EcCurve {
    P256,
    P384,
}

/// The kinds of key, with their size in bits or their curve.
#[derive(Clone, Copy, Debug, PartialEq, Eq, Structural)]
pub enum KeyType {
    Rsa(u16),
    Ec(EcCurve),
    Aes(u16),
}

/// The hash functions.
#[derive(Clone, Copy, Debug, PartialEq, Eq, Structural)]
pub enum KeystoreDigest {
    Sha384,
    Sha256,
    Sha1,
}

/// The paddings of an RSA operation.
#[derive(Clone, Copy, Debug, PartialEq, Eq, Structural)]
pub enum KeystorePadding {
    PKCS1,
    OAEP { md: KeystoreDigest, mgf1: KeystoreDigest },
    NoPadding,
}

/// The ways of encrypting.
#[derive(Clone, Copy, Debug, PartialEq, Eq, Structural)]
pub enum EncryptMode {
    Rsa(KeystorePadding),
    Gcm,
}

/// What went wrong in a keystore.
#[derive(Debug)]
pub enum KeystoreError {
    NotSupported,
    KeyNotFound,
    KeyAlreadyExists,
    BadKeyType(KeyType),
    KeystoreLocked,
    KeyUnrecoverable,
    SoftwareError(openssl::error::ErrorStack),
    KeystoreError(String),
}

/// What a key may be used for.
#[derive(Clone)]
pub struct KeystoreAccessRules {
    pub block_modes: Vec<EncryptMode>,
    pub digests: Vec<KeystoreDigest>,
    pub encryption_paddings: Vec<KeystorePadding>,
    pub mgf1_digests: Vec<KeystoreDigest>,
    pub signature_padding: Vec<KeystorePadding>,
    pub require_user: bool,
    pub can_agree: bool,
    pub can_sign: bool,
    pub can_encrypt: bool,
    pub can_decrypt: bool,
}

/// Access rules, for contracts.
#[verifier::ext_equal]
pub struct AccessRules {
    pub block_modes: Seq<EncryptMode>,
    pub digests: Seq<KeystoreDigest>,
    pub encryption_paddings: Seq<KeystorePadding>,
    pub mgf1_digests: Seq<KeystoreDigest>,
    pub signature_padding: Seq<KeystorePadding>,
    pub require_user: bool,
    pub can_agree: bool,
    pub can_sign: bool,
    pub can_encrypt: bool,
    pub can_decrypt: bool,
}

impl View for KeystoreAccessRules {
    type V = AccessRules;

    open spec fn view(&self) -> AccessRules {
        AccessRules {
            block_modes: self.block_modes@,
            digests: self.digests@,
            encryption_paddings: self.encryption_paddings@,
            mgf1_digests: self.mgf1_digests@,
            signature_padding: self.signature_padding@,
            require_user: self.require_user,
            can_agree: self.can_agree,
            can_sign: self.can_sign,
            can_encrypt: self.can_encrypt,
            can_decrypt: self.can_decrypt,
        }
    }
}

/// The rules that allow nothing.
pub open spec fn no_access() -> AccessRules {
    AccessRules {
        block_modes: Seq::empty(),
        digests: Seq::empty(),
        encryption_paddings: Seq::empty(),
        mgf1_digests: Seq::empty(),
        signature_padding: Seq::empty(),
        require_user: false,
        can_agree: false,
        can_sign: false,
        can_encrypt: false,
        can_decrypt: false,
    }
}

impl Default for KeystoreAccessRules {
    /// The rules that allow nothing.
    fn default() -> (r: Self)
        ensures
            r@ == no_access(),
    {
        KeystoreAccessRules {
            block_modes: Vec::new(),
            digests: Vec::new(),
            encryption_paddings: Vec::new(),
            mgf1_digests: Vec::new(),
            signature_padding: Vec::new(),
            require_user: false,
            can_agree: false,
            can_sign: false,
            can_encrypt: false,
            can_decrypt: false,
        }
    }
}

/// A kind of key as it appears in messages.
pub open spec fn key_type_name(t: KeyType) -> Seq<char> {
    match t {
        KeyType::Rsa(bits) => "Rsa("@ + decimal(bits as nat) + ")"@,
        KeyType::Ec(EcCurve::P256) => "Ec(P256)"@,
        KeyType::Ec(EcCurve::P384) => "Ec(P384)"@,
        KeyType::Aes(bits) => "Aes("@ + decimal(bits as nat) + ")"@,
    }
}

impl KeyType {
    /// This kind of key as it appears in messages.
    pub fn name(&self) -> (r: String)
        ensures
            r@ == key_type_name(*self),
    {
        match self {
            KeyType::Rsa(bits) => {
                let mut s = String::from_str("Rsa(");
                s.append(decimal_text(*bits as u64).as_str());
                s.append(")");
                s
            },
            KeyType::Ec(EcCurve::P256) => String::from_str("Ec(P256)"),
            KeyType::Ec(EcCurve::P384) => String::from_str("Ec(P384)"),
            KeyType::Aes(bits) => {
                let mut s = String::from_str("Aes(");
                s.append(decimal_text(*bits as u64).as_str());
                s.append(")");
                s
            },
        }
    }
}

/// The message of a software error, given what OpenSSL says of it.
pub fn software_message(text: &str) -> (r: String)
    ensures
        r@ == "Software error "@ + text@,
{
    let mut s = String::from_str("Software error ");
    s.append(text);
    s
}

impl KeystoreError {
    /// The message of an error. Of a software error only the start is known:
    /// the rest is what OpenSSL says.
    pub open spec fn says(&self, text: Seq<char>) -> bool {
        match self {
            KeystoreError::NotSupported => text == "Operation not supported"@,
            KeystoreError::KeyNotFound => text == "Key not found!"@,
            KeystoreError::KeyAlreadyExists => text == "Key already exists!"@,
            KeystoreError::BadKeyType(t) => text == "Bad key type "@ + key_type_name(*t),
            KeystoreError::KeystoreLocked => text == "Keystore locked!"@,
            KeystoreError::KeyUnrecoverable => text == "Key not recoverable!"@,
            KeystoreError::SoftwareError(_) => "Software error "@.is_prefix_of(text),
            KeystoreError::KeystoreError(m) => text == "Keystore error "@ + m@,
        }
    }

    /// The message of this error.
    pub fn message(&self) -> (r: String)
        ensures
            self.says(r@),
    {
        match self {
            KeystoreError::NotSupported => String::from_str("Operation not supported"),
            KeystoreError::KeyNotFound => String::from_str("Key not found!"),
            KeystoreError::KeyAlreadyExists => String::from_str("Key already exists!"),
            KeystoreError::BadKeyType(t) => {
                let mut s = String::from_str("Bad key type ");
                s.append(t.name().as_str());
                s
            },
            KeystoreError::KeystoreLocked => String::from_str("Keystore locked!"),
            KeystoreError::KeyUnrecoverable => String::from_str("Key not recoverable!"),
            KeystoreError::SoftwareError(e) => software_message(error_stack_text(e).as_str()),
            KeystoreError::KeystoreError(m) => {
                let mut s = String::from_str("Keystore error ");
                s.append(m.as_str());
                s
            },
        }
    }
}

impl From<openssl::error::ErrorStack> for KeystoreError {
    fn from(e: openssl::error::ErrorStack) -> (r: Self) {
        KeystoreError::SoftwareError(e)
    }
}

impl vstd::std_specs::convert::FromSpecImpl<openssl::error::ErrorStack> for KeystoreError {
    open spec fn obeys_from_spec() -> bool {
        true
    }

    open spec fn from_spec(e: openssl::error::ErrorStack) -> Self {
        KeystoreError::SoftwareError(e)
    }
}

} // verus!

//! The calls that a keystore gets, and which of them each compound operation
//! makes. No keystore is asked to answer in any particular way: an operation is
//! described by the calls that it makes for every possible answer.
use crate::keystore::types::{
    AccessRules, EncryptMode, KeyType, KeystoreDigest, KeystoreError, KeystorePadding,
};
use crate::text::decimal;
use vstd::prelude::*;

verus! {

/// One call to a keystore with what it answered.
#[allow(inconsistent_fields)]
pub enum KeystoreCall {
    CreateKey {
        alias: Seq<char>,
        key_type: KeyType,
        access_rules: AccessRules,
        result: Result<(), KeystoreError>,
    },
    DestroyKey { alias: Seq<char>, result: Result<(), KeystoreError> },
    ListKeys { result: Result<Vec<String>, KeystoreError> },
    SetSecret { alias: Seq<char>, secret: Seq<u8>, result: Result<(), KeystoreError> },
    GetSecret { alias: Seq<char>, result: Result<Option<Vec<u8>>, KeystoreError> },
    DeleteSecret { alias: Seq<char>, result: Result<(), KeystoreError> },
    ImportKey {
        alias: Seq<char>,
        key_type: KeyType,
        priv_key: Seq<u8>,
        access_rules: AccessRules,
        result: Result<(), KeystoreError>,
    },
    GetKeyType { alias: Seq<char>, result: Result<Option<KeyType>, KeystoreError> },
    Sign {
        alias: Seq<char>,
        digest: KeystoreDigest,
        padding: KeystorePadding,
        data: Seq<u8>,
        result: Result<Vec<u8>, KeystoreError>,
    },
    Verify {
        alias: Seq<char>,
        digest: KeystoreDigest,
        padding: KeystorePadding,
        data: Seq<u8>,
        sig: Seq<u8>,
        result: Result<bool, KeystoreError>,
    },
    GetPublicKey { alias: Seq<char>, result: Result<Vec<u8>, KeystoreError> },
    Derive { alias: Seq<char>, peer: Seq<u8>, result: Result<Vec<u8>, KeystoreError> },
    Encrypt {
        alias: Seq<char>,
        plaintext: Seq<u8>,
        mode: EncryptMode,
        mode_after: EncryptMode,
        result: Result<Vec<u8>, KeystoreError>,
    },
    Decrypt {
        alias: Seq<char>,
        ciphertext: Seq<u8>,
        mode: EncryptMode,
        result: Result<Vec<u8>, KeystoreError>,
    },
}

/// The calls that a keystore got, the first one first.
pub type CallList = Seq<KeystoreCall>;

/// The characters of an alias.
pub type AliasText = Seq<char>;

/// Whether a secret of `len` bytes fits in memory.
pub open spec fn secret_fits(len: usize) -> bool {
    len <= isize::MAX
}

/// The call that stores a fresh secret.
pub open spec fn store_secret_calls(
    alias: Seq<char>,
    fresh: Seq<u8>,
    stored: Result<(), KeystoreError>,
) -> Seq<KeystoreCall> {
    seq![KeystoreCall::SetSecret { alias, secret: fresh, result: stored }]
}

/// What storing a fresh secret comes to: the secret, once it is stored.
pub open spec fn store_secret_outcome(
    fresh: Seq<u8>,
    stored: Result<(), KeystoreError>,
) -> Result<Seq<u8>, KeystoreError> {
    match stored {
        Err(e) => Err(e),
        Ok(_) => Ok(fresh),
    }
}

/// The calls that make sure of a secret: it is looked up, and where there is
/// none the `fresh` one of `len` bytes is stored.
pub open spec fn ensure_secret_calls(
    alias: Seq<char>,
    len: usize,
    found: Result<Option<Vec<u8>>, KeystoreError>,
    fresh: Seq<u8>,
    stored: Result<(), KeystoreError>,
) -> Seq<KeystoreCall> {
    let lookup = seq![KeystoreCall::GetSecret { alias, result: found }];
    match found {
        Ok(None) if secret_fits(len) => lookup + store_secret_calls(alias, fresh, stored),
        _ => lookup,
    }
}

/// What making sure of a secret comes to: the one that was found, or the fresh
/// one once it is stored. A fresh one that does not fit in memory is not
/// supported.
pub open spec fn ensure_secret_outcome(
    len: usize,
    found: Result<Option<Vec<u8>>, KeystoreError>,
    fresh: Seq<u8>,
    stored: Result<(), KeystoreError>,
) -> Result<Seq<u8>, KeystoreError> {
    match found {
        Err(e) => Err(e),
        Ok(Some(secret)) => Ok(secret@),
        Ok(None) => if secret_fits(len) {
            store_secret_outcome(fresh, stored)
        } else {
            Err(KeystoreError::NotSupported)
        },
    }
}

/// The bytes of a secret, for contracts.
pub open spec fn secret_view(r: Result<Vec<u8>, KeystoreError>) -> Result<Seq<u8>, KeystoreError> {
    match r {
        Ok(v) => Ok(v@),
        Err(e) => Err(e),
    }
}

/// The calls that make sure of a key: it is looked up, and created where there
/// is none.
pub open spec fn ensure_exists_calls(
    alias: Seq<char>,
    key_type: KeyType,
    access_rules: AccessRules,
    found: Result<Option<KeyType>, KeystoreError>,
    created: Result<(), KeystoreError>,
) -> Seq<KeystoreCall> {
    let lookup = KeystoreCall::GetKeyType { alias, result: found };
    match found {
        Ok(None) => seq![
            lookup,
            KeystoreCall::CreateKey { alias, key_type, access_rules, result: created },
        ],
        _ => seq![lookup],
    }
}

/// What making sure of a key comes to.
pub open spec fn ensure_exists_outcome(
    found: Result<Option<KeyType>, KeystoreError>,
    created: Result<(), KeystoreError>,
) -> Result<(), KeystoreError> {
    match found {
        Err(e) => Err(e),
        Ok(Some(_)) => Ok(()),
        Ok(None) => created,
    }
}

/// The calls that replace a key: the old one is destroyed, and only then the
/// new one created.
pub open spec fn overwrite_calls(
    alias: Seq<char>,
    key_type: KeyType,
    access_rules: AccessRules,
    destroyed: Result<(), KeystoreError>,
    created: Result<(), KeystoreError>,
) -> Seq<KeystoreCall> {
    let destroy = KeystoreCall::DestroyKey { alias, result: destroyed };
    match destroyed {
        Err(_) => seq![destroy],
        Ok(_) => seq![
            destroy,
            KeystoreCall::CreateKey { alias, key_type, access_rules, result: created },
        ],
    }
}

/// What replacing a key comes to.
pub open spec fn overwrite_outcome(
    destroyed: Result<(), KeystoreError>,
    created: Result<(), KeystoreError>,
) -> Result<(), KeystoreError> {
    match destroyed {
        Err(e) => Err(e),
        Ok(_) => created,
    }
}

/// The alias of a new key: a prefix and a number.
pub open spec fn new_alias(prefix: Seq<char>, n: u64) -> Seq<char> {
    prefix + ":"@ + decimal(n as nat)
}

/// The call that creates a key under a new alias.
pub open spec fn create_new_calls(
    prefix: Seq<char>,
    n: u64,
    key_type: KeyType,
    access_rules: AccessRules,
    created: Result<(), KeystoreError>,
) -> Seq<KeystoreCall> {
    seq![
        KeystoreCall::CreateKey {
            alias: new_alias(prefix, n),
            key_type,
            access_rules,
            result: created,
        },
    ]
}

/// An alias as the outcome of an operation that came to `done`.
pub open spec fn aliased(
    alias: Seq<char>,
    done: Result<(), KeystoreError>,
) -> Result<Seq<char>, KeystoreError> {
    match done {
        Ok(_) => Ok(alias),
        Err(e) => Err(e),
    }
}

} // verus!

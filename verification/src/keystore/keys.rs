//! Typed keys: an alias into a keystore that says what the key can do.
use crate::keystore::calls::{
    aliased, create_new_calls, ensure_exists_calls, ensure_exists_outcome, new_alias,
    overwrite_calls, overwrite_outcome, AliasText, KeystoreCall,
};
use crate::keystore::store::Keystore;
use crate::keystore::types::{
    no_access, EcCurve, EncryptMode, KeyType, KeystoreAccessRules, KeystoreDigest, KeystoreError,
    KeystorePadding,
};
use crate::outside::{sha256, sha256_digest};
use crate::text::{encode_hex, hex};
use vstd::prelude::*;
use vstd::slice::slice_subrange;

verus! {

/// A key that lives in a keystore.
pub trait KeystoreKey {
    /// The alias of this key, for contracts only.
    spec fn key_alias(&self) -> AliasText;

    /// The alias of this key.
    fn alias(&self) -> (r: &str)
        ensures
            r@ == self.key_alias(),
    ;
}

/// A key with a public half.
pub trait KeystorePublicKey: KeystoreKey {
    /// The public key, in DER, from `store`.
    fn get_public_key<K: Keystore + ?Sized>(&self, store: &mut K) -> (r: Result<
        Vec<u8>,
        KeystoreError,
    >)
        ensures
            final(store).calls() == old(store).calls().push(
                KeystoreCall::GetPublicKey { alias: self.key_alias(), result: r },
            ),
    {
        store.get_public_key(self.alias())
    }
}

/// A key that agrees on a secret with a peer.
pub trait KeystoreDeriveKey: KeystoreKey {
    /// The secret that this key and `peer` agree on, from `store`.
    fn derive<K: Keystore + ?Sized>(&self, store: &mut K, peer: &[u8]) -> (r: Result<
        Vec<u8>,
        KeystoreError,
    >)
        ensures
            final(store).calls() == old(store).calls().push(
                KeystoreCall::Derive { alias: self.key_alias(), peer: peer@, result: r },
            ),
    {
        store.derive(self.alias(), peer)
    }
}

/// A key that signs.
pub trait KeystoreSignKey: KeystorePublicKey {
    /// Signs `data` in `store`.
    fn sign<K: Keystore + ?Sized>(
        &self,
        store: &mut K,
        digest: KeystoreDigest,
        padding: KeystorePadding,
        data: &[u8],
    ) -> (r: Result<Vec<u8>, KeystoreError>)
        ensures
            final(store).calls() == old(store).calls().push(
                KeystoreCall::Sign {
                    alias: self.key_alias(),
                    digest,
                    padding,
                    data: data@,
                    result: r,
                },
            ),
    {
        store.sign(self.alias(), digest, padding, data)
    }

    /// Checks the signature `sig` of `data` in `store`.
    fn verify<K: Keystore + ?Sized>(
        &self,
        store: &mut K,
        digest: KeystoreDigest,
        padding: KeystorePadding,
        data: &[u8],
        sig: &[u8],
    ) -> (r: Result<bool, KeystoreError>)
        ensures
            final(store).calls() == old(store).calls().push(
                KeystoreCall::Verify {
                    alias: self.key_alias(),
                    digest,
                    padding,
                    data: data@,
                    sig: sig@,
                    result: r,
                },
            ),
    {
        store.verify(self.alias(), digest, padding, data, sig)
    }
}

/// A key that encrypts.
pub trait KeystoreEncryptKey: KeystoreKey {
    /// Encrypts `plaintext` in `store`.
    fn encrypt<K: Keystore + ?Sized>(
        &self,
        store: &mut K,
        plaintext: &[u8],
        mode: &mut EncryptMode,
    ) -> (r: Result<Vec<u8>, KeystoreError>)
        ensures
            final(store).calls() == old(store).calls().push(
                KeystoreCall::Encrypt {
                    alias: self.key_alias(),
                    plaintext: plaintext@,
                    mode: *old(mode),
                    mode_after: *final(mode),
                    result: r,
                },
            ),
    {
        store.encrypt(self.alias(), plaintext, mode)
    }

    /// Decrypts `ciphertext` in `store`.
    fn decrypt<K: Keystore + ?Sized>(
        &self,
        store: &mut K,
        ciphertext: &[u8],
        mode: &EncryptMode,
    ) -> (r: Result<Vec<u8>, KeystoreError>)
        ensures
            final(store).calls() == old(store).calls().push(
                KeystoreCall::Decrypt {
                    alias: self.key_alias(),
                    ciphertext: ciphertext@,
                    mode: *mode,
                    result: r,
                },
            ),
    {
        store.decrypt(self.alias(), ciphertext, mode)
    }
}

/// The size that an imported RSA key is announced with.
pub const IMPORTED_RSA_BITS: u16 = 2048;

/// How many bytes of the digest of a key make up its alias.
pub const ALIAS_DIGEST_BYTES: usize = 10;

/// The alias of an imported RSA key whose bytes have the given digest.
pub open spec fn imported_rsa_alias(digest: Seq<u8>) -> Seq<char> {
    "imported:rsa:"@ + hex(digest.take(ALIAS_DIGEST_BYTES as int), false)
}

/// The call that imports an RSA key in DER.
pub open spec fn import_der_calls(
    der: Seq<u8>,
    reply: Result<(), KeystoreError>,
) -> Seq<KeystoreCall> {
    seq![
        KeystoreCall::ImportKey {
            alias: imported_rsa_alias(sha256(der)),
            key_type: KeyType::Rsa(IMPORTED_RSA_BITS),
            priv_key: der,
            access_rules: no_access(),
            result: reply,
        },
    ]
}

/// What importing a key comes to, where one that is there already is as good.
pub open spec fn imported_outcome(
    alias: Seq<char>,
    reply: Result<(), KeystoreError>,
) -> Result<Seq<char>, KeystoreError> {
    match reply {
        Ok(_) => Ok(alias),
        Err(KeystoreError::KeyAlreadyExists) => Ok(alias),
        Err(e) => Err(e),
    }
}

/// The alias of an imported RSA key whose bytes have the given digest.
pub fn digest_alias(digest: &[u8]) -> (r: String)
    requires
        digest@.len() >= ALIAS_DIGEST_BYTES,
    ensures
        r@ == imported_rsa_alias(digest@),
{
    let mut s = String::from_str("imported:rsa:");
    let head = slice_subrange(digest, 0, ALIAS_DIGEST_BYTES);
    assert(head@ =~= digest@.take(ALIAS_DIGEST_BYTES as int));
    s.append(encode_hex(head).as_str());
    s
}

/// The forms in which an RSA key is found on disk: the alias of a key in the
/// keystore, or the private key itself in raw PKCS#1 DER.
pub enum StoredRsaKey {
    Alias(String),
    Der(Vec<u8>),
}

/// An RSA key.
#[derive(Clone)]
pub struct RsaKey(pub String);

impl KeystoreKey for RsaKey {
    open spec fn key_alias(&self) -> AliasText {
        self.0@
    }

    fn alias(&self) -> (r: &str) {
        self.0.as_str()
    }
}

impl RsaKey {
    /// The alias of the key that an operation comes to, for contracts.
    pub open spec fn outcome(r: Result<RsaKey, KeystoreError>) -> Result<Seq<char>, KeystoreError> {
        match r {
            Ok(key) => Ok(key.0@),
            Err(e) => Err(e),
        }
    }

    /// The key under the alias `key`, once an operation on it came to `done`.
    fn after(done: Result<(), KeystoreError>, key: &str) -> (r: Result<RsaKey, KeystoreError>)
        ensures
            Self::outcome(r) == aliased(key@, done),
    {
        match done {
            Ok(()) => Ok(RsaKey(String::from_str(key))),
            Err(e) => Err(e),
        }
    }

    /// Puts a new key in the place of the one under the alias `key`.
    pub fn overwrite<K: Keystore + ?Sized>(
        store: &mut K,
        key: &str,
        bits: u16,
        access_rules: KeystoreAccessRules,
    ) -> (r: Result<RsaKey, KeystoreError>)
        ensures
            exists|destroyed: Result<(), KeystoreError>, created: Result<(), KeystoreError>|
                {
                    &&& final(store).calls() == old(store).calls() + #[trigger] overwrite_calls(
                        key@,
                        KeyType::Rsa(bits),
                        access_rules@,
                        destroyed,
                        created,
                    )
                    &&& Self::outcome(r) == aliased(key@, overwrite_outcome(destroyed, created))
                },
    {
        Self::after(store.overwrite_new(key, KeyType::Rsa(bits), access_rules), key)
    }

    /// The key under the alias `key`, which is created where there is none.
    pub fn ensure<K: Keystore + ?Sized>(
        store: &mut K,
        key: &str,
        bits: u16,
        access_rules: KeystoreAccessRules,
    ) -> (r: Result<RsaKey, KeystoreError>)
        ensures
            exists|found: Result<Option<KeyType>, KeystoreError>, created: Result<(), KeystoreError>|
                {
                    &&& final(store).calls() == old(store).calls() + #[trigger] ensure_exists_calls(
                        key@,
                        KeyType::Rsa(bits),
                        access_rules@,
                        found,
                        created,
                    )
                    &&& Self::outcome(r) == aliased(key@, ensure_exists_outcome(found, created))
                },
    {
        Self::after(store.ensure_exists(key, KeyType::Rsa(bits), access_rules), key)
    }

    /// Creates a key under an alias that starts with `prefix` and ends in a
    /// random number.
    pub fn create_new<K: Keystore + ?Sized>(
        store: &mut K,
        prefix: &str,
        bits: u16,
        access_rules: KeystoreAccessRules,
    ) -> (r: Result<RsaKey, KeystoreError>)
        ensures
            exists|n: u64, created: Result<(), KeystoreError>|
                {
                    &&& final(store).calls() == old(store).calls() + #[trigger] create_new_calls(
                        prefix@,
                        n,
                        KeyType::Rsa(bits),
                        access_rules@,
                        created,
                    )
                    &&& Self::outcome(r) == aliased(new_alias(prefix@, n), created)
                },
    {
        match store.create_new(prefix, KeyType::Rsa(bits), access_rules) {
            Ok(alias) => Ok(RsaKey(alias)),
            Err(e) => Err(e),
        }
    }

    /// Imports a key under the alias `key`.
    pub fn import<K: Keystore + ?Sized>(
        store: &mut K,
        key: &str,
        bits: u16,
        priv_key: &[u8],
        access_rules: KeystoreAccessRules,
    ) -> (r: Result<RsaKey, KeystoreError>)
        ensures
            exists|imported: Result<(), KeystoreError>|
                {
                    &&& final(store).calls() == old(store).calls().push(
                        KeystoreCall::ImportKey {
                            alias: key@,
                            key_type: KeyType::Rsa(bits),
                            priv_key: priv_key@,
                            access_rules: access_rules@,
                            result: imported,
                        },
                    )
                    &&& Self::outcome(r) == #[trigger] aliased(key@, imported)
                },
    {
        Self::after(store.import_key(key, KeyType::Rsa(bits), priv_key, access_rules), key)
    }

    /// The key under `alias`, given what importing it there came to. A key that
    /// is there already is as good as one that was imported.
    pub fn imported(alias: String, reply: Result<(), KeystoreError>) -> (r: Result<
        RsaKey,
        KeystoreError,
    >)
        ensures
            Self::outcome(r) == imported_outcome(alias@, reply),
    {
        match reply {
            Ok(()) => Ok(RsaKey(alias)),
            Err(KeystoreError::KeyAlreadyExists) => Ok(RsaKey(alias)),
            Err(e) => Err(e),
        }
    }

    /// Imports an RSA private key in raw PKCS#1 DER. The alias comes from the
    /// bytes of the key, so that importing the same key again leads to the same
    /// key.
    pub fn import_der<K: Keystore + ?Sized>(store: &mut K, der: &[u8]) -> (r: Result<
        RsaKey,
        KeystoreError,
    >)
        ensures
            exists|reply: Result<(), KeystoreError>|
                {
                    &&& final(store).calls() == old(store).calls()
                        + #[trigger] import_der_calls(der@, reply)
                    &&& Self::outcome(r) == imported_outcome(
                        imported_rsa_alias(sha256(der@)),
                        reply,
                    )
                },
    {
        let alias = digest_alias(sha256_digest(der).as_slice());
        // the number of bits is informational: the key says its own size
        let reply = store.import_key(
            alias.as_str(),
            KeyType::Rsa(IMPORTED_RSA_BITS),
            der,
            KeystoreAccessRules::default(),
        );
        assert(store.calls() =~= old(store).calls() + import_der_calls(der@, reply));
        Self::imported(alias, reply)
    }

    /// The key in either of its stored forms.
    pub fn load<K: Keystore + ?Sized>(store: &mut K, stored: StoredRsaKey) -> (r: Result<
        RsaKey,
        KeystoreError,
    >)
        ensures
            match stored {
                StoredRsaKey::Alias(alias) => {
                    &&& final(store).calls() == old(store).calls()
                    &&& r == Ok::<RsaKey, KeystoreError>(RsaKey(alias))
                },
                StoredRsaKey::Der(der) => exists|reply: Result<(), KeystoreError>|
                    {
                        &&& final(store).calls() == old(store).calls()
                            + #[trigger] import_der_calls(der@, reply)
                        &&& Self::outcome(r) == imported_outcome(
                            imported_rsa_alias(sha256(der@)),
                            reply,
                        )
                    },
            },
    {
        match stored {
            StoredRsaKey::Alias(alias) => Ok(RsaKey(alias)),
            StoredRsaKey::Der(der) => Self::import_der(store, der.as_slice()),
        }
    }
}

impl KeystorePublicKey for RsaKey {

}

impl KeystoreEncryptKey for RsaKey {

}

impl KeystoreSignKey for RsaKey {

}

/// An elliptic-curve key.
#[derive(Clone)]
pub struct EcKeystoreKey(pub String);

impl KeystoreKey for EcKeystoreKey {
    open spec fn key_alias(&self) -> AliasText {
        self.0@
    }

    fn alias(&self) -> (r: &str) {
        self.0.as_str()
    }
}

impl EcKeystoreKey {
    /// The alias of the key that an operation comes to, for contracts.
    pub open spec fn outcome(r: Result<EcKeystoreKey, KeystoreError>) -> Result<Seq<char>, KeystoreError> {
        match r {
            Ok(key) => Ok(key.0@),
            Err(e) => Err(e),
        }
    }

    /// The key under the alias `key`, once an operation on it came to `done`.
    fn after(done: Result<(), KeystoreError>, key: &str) -> (r: Result<EcKeystoreKey, KeystoreError>)
        ensures
            Self::outcome(r) == aliased(key@, done),
    {
        match done {
            Ok(()) => Ok(EcKeystoreKey(String::from_str(key))),
            Err(e) => Err(e),
        }
    }

    /// Puts a new key in the place of the one under the alias `key`.
    pub fn overwrite<K: Keystore + ?Sized>(
        store: &mut K,
        key: &str,
        curve: EcCurve,
        access_rules: KeystoreAccessRules,
    ) -> (r: Result<EcKeystoreKey, KeystoreError>)
        ensures
            exists|destroyed: Result<(), KeystoreError>, created: Result<(), KeystoreError>|
                {
                    &&& final(store).calls() == old(store).calls() + #[trigger] overwrite_calls(
                        key@,
                        KeyType::Ec(curve),
                        access_rules@,
                        destroyed,
                        created,
                    )
                    &&& Self::outcome(r) == aliased(key@, overwrite_outcome(destroyed, created))
                },
    {
        Self::after(store.overwrite_new(key, KeyType::Ec(curve), access_rules), key)
    }

    /// The key under the alias `key`, which is created where there is none.
    pub fn ensure<K: Keystore + ?Sized>(
        store: &mut K,
        key: &str,
        curve: EcCurve,
        access_rules: KeystoreAccessRules,
    ) -> (r: Result<EcKeystoreKey, KeystoreError>)
        ensures
            exists|found: Result<Option<KeyType>, KeystoreError>, created: Result<(), KeystoreError>|
                {
                    &&& final(store).calls() == old(store).calls() + #[trigger] ensure_exists_calls(
                        key@,
                        KeyType::Ec(curve),
                        access_rules@,
                        found,
                        created,
                    )
                    &&& Self::outcome(r) == aliased(key@, ensure_exists_outcome(found, created))
                },
    {
        Self::after(store.ensure_exists(key, KeyType::Ec(curve), access_rules), key)
    }

    /// Creates a key under an alias that starts with `prefix` and ends in a
    /// random number.
    pub fn create_new<K: Keystore + ?Sized>(
        store: &mut K,
        prefix: &str,
        curve: EcCurve,
        access_rules: KeystoreAccessRules,
    ) -> (r: Result<EcKeystoreKey, KeystoreError>)
        ensures
            exists|n: u64, created: Result<(), KeystoreError>|
                {
                    &&& final(store).calls() == old(store).calls() + #[trigger] create_new_calls(
                        prefix@,
                        n,
                        KeyType::Ec(curve),
                        access_rules@,
                        created,
                    )
                    &&& Self::outcome(r) == aliased(new_alias(prefix@, n), created)
                },
    {
        match store.create_new(prefix, KeyType::Ec(curve), access_rules) {
            Ok(alias) => Ok(EcKeystoreKey(alias)),
            Err(e) => Err(e),
        }
    }

    /// Imports a key under the alias `key`.
    pub fn import<K: Keystore + ?Sized>(
        store: &mut K,
        key: &str,
        curve: EcCurve,
        priv_key: &[u8],
        access_rules: KeystoreAccessRules,
    ) -> (r: Result<EcKeystoreKey, KeystoreError>)
        ensures
            exists|imported: Result<(), KeystoreError>|
                {
                    &&& final(store).calls() == old(store).calls().push(
                        KeystoreCall::ImportKey {
                            alias: key@,
                            key_type: KeyType::Ec(curve),
                            priv_key: priv_key@,
                            access_rules: access_rules@,
                            result: imported,
                        },
                    )
                    &&& Self::outcome(r) == #[trigger] aliased(key@, imported)
                },
    {
        Self::after(store.import_key(key, KeyType::Ec(curve), priv_key, access_rules), key)
    }
}

impl KeystorePublicKey for EcKeystoreKey {

}

impl KeystoreSignKey for EcKeystoreKey {

}

impl KeystoreDeriveKey for EcKeystoreKey {

}

/// An AES key.
#[derive(Clone)]
pub struct AesKeystoreKey(pub String);

impl KeystoreKey for AesKeystoreKey {
    open spec fn key_alias(&self) -> AliasText {
        self.0@
    }

    fn alias(&self) -> (r: &str) {
        self.0.as_str()
    }
}

impl AesKeystoreKey {
    /// The alias of the key that an operation comes to, for contracts.
    pub open spec fn outcome(r: Result<AesKeystoreKey, KeystoreError>) -> Result<Seq<char>, KeystoreError> {
        match r {
            Ok(key) => Ok(key.0@),
            Err(e) => Err(e),
        }
    }

    /// The key under the alias `key`, once an operation on it came to `done`.
    fn after(done: Result<(), KeystoreError>, key: &str) -> (r: Result<AesKeystoreKey, KeystoreError>)
        ensures
            Self::outcome(r) == aliased(key@, done),
    {
        match done {
            Ok(()) => Ok(AesKeystoreKey(String::from_str(key))),
            Err(e) => Err(e),
        }
    }

    /// Puts a new key in the place of the one under the alias `key`.
    pub fn overwrite<K: Keystore + ?Sized>(
        store: &mut K,
        key: &str,
        bits: u16,
        access_rules: KeystoreAccessRules,
    ) -> (r: Result<AesKeystoreKey, KeystoreError>)
        ensures
            exists|destroyed: Result<(), KeystoreError>, created: Result<(), KeystoreError>|
                {
                    &&& final(store).calls() == old(store).calls() + #[trigger] overwrite_calls(
                        key@,
                        KeyType::Aes(bits),
                        access_rules@,
                        destroyed,
                        created,
                    )
                    &&& Self::outcome(r) == aliased(key@, overwrite_outcome(destroyed, created))
                },
    {
        Self::after(store.overwrite_new(key, KeyType::Aes(bits), access_rules), key)
    }

    /// The key under the alias `key`, which is created where there is none.
    pub fn ensure<K: Keystore + ?Sized>(
        store: &mut K,
        key: &str,
        bits: u16,
        access_rules: KeystoreAccessRules,
    ) -> (r: Result<AesKeystoreKey, KeystoreError>)
        ensures
            exists|found: Result<Option<KeyType>, KeystoreError>, created: Result<(), KeystoreError>|
                {
                    &&& final(store).calls() == old(store).calls() + #[trigger] ensure_exists_calls(
                        key@,
                        KeyType::Aes(bits),
                        access_rules@,
                        found,
                        created,
                    )
                    &&& Self::outcome(r) == aliased(key@, ensure_exists_outcome(found, created))
                },
    {
        Self::after(store.ensure_exists(key, KeyType::Aes(bits), access_rules), key)
    }

    /// Creates a key under an alias that starts with `prefix` and ends in a
    /// random number.
    pub fn create_new<K: Keystore + ?Sized>(
        store: &mut K,
        prefix: &str,
        bits: u16,
        access_rules: KeystoreAccessRules,
    ) -> (r: Result<AesKeystoreKey, KeystoreError>)
        ensures
            exists|n: u64, created: Result<(), KeystoreError>|
                {
                    &&& final(store).calls() == old(store).calls() + #[trigger] create_new_calls(
                        prefix@,
                        n,
                        KeyType::Aes(bits),
                        access_rules@,
                        created,
                    )
                    &&& Self::outcome(r) == aliased(new_alias(prefix@, n), created)
                },
    {
        match store.create_new(prefix, KeyType::Aes(bits), access_rules) {
            Ok(alias) => Ok(AesKeystoreKey(alias)),
            Err(e) => Err(e),
        }
    }

    /// Imports a key under the alias `key`.
    pub fn import<K: Keystore + ?Sized>(
        store: &mut K,
        key: &str,
        bits: u16,
        priv_key: &[u8],
        access_rules: KeystoreAccessRules,
    ) -> (r: Result<AesKeystoreKey, KeystoreError>)
        ensures
            exists|imported: Result<(), KeystoreError>|
                {
                    &&& final(store).calls() == old(store).calls().push(
                        KeystoreCall::ImportKey {
                            alias: key@,
                            key_type: KeyType::Aes(bits),
                            priv_key: priv_key@,
                            access_rules: access_rules@,
                            result: imported,
                        },
                    )
                    &&& Self::outcome(r) == #[trigger] aliased(key@, imported)
                },
    {
        Self::after(store.import_key(key, KeyType::Aes(bits), priv_key, access_rules), key)
    }
}

impl KeystoreEncryptKey for AesKeystoreKey {

}

} // verus!

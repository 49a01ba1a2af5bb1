//! Compound keystore operations and typed keys, on a keystore in memory.
use rustpush::keystore::calls::CallList;
use rustpush::keystore::keys::{
    digest_alias, AesKeystoreKey, EcKeystoreKey, KeystoreDeriveKey, KeystoreEncryptKey,
    KeystoreKey, KeystorePublicKey, KeystoreSignKey, RsaKey, StoredRsaKey,
};
use rustpush::keystore::store::{numbered_alias, Keystore, LockableKeystore};
use rustpush::keystore::types::{
    software_message, EcCurve, EncryptMode, KeyType, KeystoreAccessRules, KeystoreDigest, KeystoreError,
    KeystorePadding,
};
use std::collections::BTreeMap;

/// Remembers keys, secrets and the calls that it got; refuses the operation
/// that it is told to refuse.
#[derive(Default)]
struct MemoryKeystore {
    keys: BTreeMap<String, KeyType>,
    secrets: BTreeMap<String, Vec<u8>>,
    log: Vec<String>,
    refuse: Option<&'static str>,
}

impl MemoryKeystore {
    fn refusing(operation: &'static str) -> MemoryKeystore {
        MemoryKeystore { refuse: Some(operation), ..Default::default() }
    }

    fn called(&mut self, operation: &'static str, line: String) -> Result<(), KeystoreError> {
        self.log.push(line);
        if self.refuse == Some(operation) {
            Err(KeystoreError::KeystoreLocked)
        } else {
            Ok(())
        }
    }

    fn has(&self, alias: &str) -> Result<(), KeystoreError> {
        if self.keys.contains_key(alias) {
            Ok(())
        } else {
            Err(KeystoreError::KeyNotFound)
        }
    }
}

impl Keystore for MemoryKeystore {
    fn calls(&self) -> CallList {
        unreachable!()
    }

    fn create_key(
        &mut self,
        alias: &str,
        key_type: KeyType,
        access_rules: KeystoreAccessRules,
    ) -> Result<(), KeystoreError> {
        self.called("create", format!("create {alias} {key_type:?} {}", access_rules.can_sign))?;
        if self.keys.contains_key(alias) {
            return Err(KeystoreError::KeyAlreadyExists);
        }
        self.keys.insert(alias.to_string(), key_type);
        Ok(())
    }

    fn destroy_key(&mut self, alias: &str) -> Result<(), KeystoreError> {
        self.called("destroy", format!("destroy {alias}"))?;
        self.keys.remove(alias);
        Ok(())
    }

    fn list_keys(&mut self) -> Result<Vec<String>, KeystoreError> {
        self.called("list", "list".to_string())?;
        Ok(self.keys.keys().cloned().collect())
    }

    fn set_secret(&mut self, alias: &str, secret: &[u8]) -> Result<(), KeystoreError> {
        self.called("set", format!("set {alias}"))?;
        self.secrets.insert(alias.to_string(), secret.to_vec());
        Ok(())
    }

    fn get_secret(&mut self, alias: &str) -> Result<Option<Vec<u8>>, KeystoreError> {
        self.called("get", format!("get {alias}"))?;
        Ok(self.secrets.get(alias).cloned())
    }

    fn delete_secret(&mut self, alias: &str) -> Result<(), KeystoreError> {
        self.called("delete", format!("delete {alias}"))?;
        self.secrets.remove(alias);
        Ok(())
    }

    fn import_key(
        &mut self,
        alias: &str,
        key_type: KeyType,
        priv_key: &[u8],
        access_rules: KeystoreAccessRules,
    ) -> Result<(), KeystoreError> {
        self.called(
            "import",
            format!("import {alias} {key_type:?} {priv_key:?} {}", access_rules.can_sign),
        )?;
        if self.keys.contains_key(alias) {
            return Err(KeystoreError::KeyAlreadyExists);
        }
        self.keys.insert(alias.to_string(), key_type);
        Ok(())
    }

    fn get_key_type(&mut self, alias: &str) -> Result<Option<KeyType>, KeystoreError> {
        self.called("type", format!("type {alias}"))?;
        Ok(self.keys.get(alias).copied())
    }

    fn sign(
        &mut self,
        alias: &str,
        digest: KeystoreDigest,
        padding: KeystorePadding,
        data: &[u8],
    ) -> Result<Vec<u8>, KeystoreError> {
        self.called("sign", format!("sign {alias} {digest:?} {padding:?} {data:?}"))?;
        self.has(alias)?;
        Ok(vec![1])
    }

    fn verify(
        &mut self,
        alias: &str,
        digest: KeystoreDigest,
        padding: KeystorePadding,
        data: &[u8],
        sig: &[u8],
    ) -> Result<bool, KeystoreError> {
        self.called("verify", format!("verify {alias} {digest:?} {padding:?} {data:?} {sig:?}"))?;
        self.has(alias)?;
        Ok(sig == [1])
    }

    fn get_public_key(&mut self, alias: &str) -> Result<Vec<u8>, KeystoreError> {
        self.called("public", format!("public {alias}"))?;
        self.has(alias)?;
        Ok(vec![2])
    }

    fn derive(&mut self, alias: &str, peer: &[u8]) -> Result<Vec<u8>, KeystoreError> {
        self.called("derive", format!("derive {alias} {peer:?}"))?;
        self.has(alias)?;
        Ok(vec![3])
    }

    fn encrypt(
        &mut self,
        alias: &str,
        plaintext: &[u8],
        mode: &mut EncryptMode,
    ) -> Result<Vec<u8>, KeystoreError> {
        self.called("encrypt", format!("encrypt {alias} {plaintext:?} {mode:?}"))?;
        self.has(alias)?;
        *mode = EncryptMode::Gcm;
        Ok(vec![4])
    }

    fn decrypt(
        &mut self,
        alias: &str,
        ciphertext: &[u8],
        mode: &EncryptMode,
    ) -> Result<Vec<u8>, KeystoreError> {
        self.called("decrypt", format!("decrypt {alias} {ciphertext:?} {mode:?}"))?;
        self.has(alias)?;
        Ok(vec![5])
    }
}

/// A keystore that can be locked.
struct Lockable {
    inner: MemoryKeystore,
}

impl LockableKeystore for Lockable {
    fn lock(&self) -> Result<(), KeystoreError> {
        Ok(())
    }

    fn unlock(&self) -> Result<(), KeystoreError> {
        Err(KeystoreError::KeystoreLocked)
    }

    fn is_locked(&self) -> bool {
        self.inner.refuse.is_some()
    }

    fn recover(&self) -> Result<(), KeystoreError> {
        Err(KeystoreError::KeyUnrecoverable)
    }
}

fn signing() -> KeystoreAccessRules {
    KeystoreAccessRules { can_sign: true, ..Default::default() }
}

fn is_locked<T>(r: Result<T, KeystoreError>) -> bool {
    matches!(r, Err(KeystoreError::KeystoreLocked))
}

/// The number behind the last colon of an alias.
fn number_of(alias: &str, prefix: &str) -> u64 {
    let rest = alias.strip_prefix(prefix).expect("the prefix");
    let number = rest.strip_prefix(':').expect("a colon");
    let n: u64 = number.parse().expect("a number");
    assert_eq!(n.to_string(), number);
    n
}

#[test]
fn a_plain_keystore_is_not_lockable() {
    assert!(MemoryKeystore::default().as_lockable().is_none());
    let lockable = Lockable { inner: MemoryKeystore::refusing("get") };
    assert!(lockable.lock().is_ok());
    assert!(lockable.is_locked());
    assert!(is_locked(lockable.unlock()));
    assert!(matches!(lockable.recover(), Err(KeystoreError::KeyUnrecoverable)));
}

#[test]
fn ensured_secret_is_made_once() {
    let mut store = MemoryKeystore::default();
    let first = store.ensure_secret("s", 32).expect("a secret");
    assert_eq!(first.len(), 32);
    assert_ne!(first, vec![0u8; 32], "the bytes are random");
    assert_eq!(store.secrets.get("s"), Some(&first));
    let second = store.ensure_secret("s", 16).expect("the same secret");
    assert_eq!(second, first, "an existing secret keeps its length");
    assert_eq!(store.log, vec!["get s", "set s", "get s"]);
    assert_eq!(store.ensure_secret("empty", 0).expect("an empty secret"), Vec::<u8>::new());
}

#[test]
fn existing_secret_is_given_for_any_length() {
    let mut store = MemoryKeystore::default();
    store.secrets.insert("s".to_string(), vec![1, 2, 3]);
    for len in [0, 3, isize::MAX as usize, usize::MAX] {
        assert_eq!(store.ensure_secret("s", len).expect("the secret"), vec![1, 2, 3]);
    }
    assert_eq!(store.log, vec!["get s"; 4]);
}

#[test]
fn fresh_secret_that_fits_nowhere_is_not_supported() {
    let mut store = MemoryKeystore::default();
    assert!(matches!(store.ensure_secret("s", usize::MAX), Err(KeystoreError::NotSupported)));
    assert_eq!(store.log, vec!["get s"]);
    assert!(store.secrets.is_empty());
}

#[test]
fn stored_secret_is_handed_back() {
    let mut store = MemoryKeystore::default();
    assert_eq!(store.store_secret("s", vec![7, 8]).expect("the secret"), vec![7, 8]);
    assert_eq!(store.secrets.get("s"), Some(&vec![7, 8]));
    assert_eq!(store.log, vec!["set s"]);
    assert!(is_locked(MemoryKeystore::refusing("set").store_secret("s", vec![7])));
}

#[test]
fn ensured_secrets_are_distinct() {
    let mut store = MemoryKeystore::default();
    let a = store.ensure_secret("a", 32).expect("a secret");
    let b = store.ensure_secret("b", 32).expect("a secret");
    assert_ne!(a, b);
}

#[test]
fn secret_is_not_handed_out_when_it_cannot_be_stored() {
    let mut store = MemoryKeystore::refusing("set");
    assert!(is_locked(store.ensure_secret("s", 8)));
    assert_eq!(store.log, vec!["get s", "set s"]);
    let mut store = MemoryKeystore::refusing("get");
    assert!(is_locked(store.ensure_secret("s", 8)));
    assert_eq!(store.log, vec!["get s"]);
}

#[test]
fn ensure_exists_creates_only_what_is_missing() {
    let mut store = MemoryKeystore::default();
    assert!(store.ensure_exists("k", KeyType::Rsa(2048), signing()).is_ok());
    assert!(store.ensure_exists("k", KeyType::Aes(256), signing()).is_ok());
    assert_eq!(store.keys.get("k"), Some(&KeyType::Rsa(2048)));
    assert_eq!(store.log, vec!["type k", "create k Rsa(2048) true", "type k"]);

    let mut store = MemoryKeystore::refusing("type");
    assert!(is_locked(store.ensure_exists("k", KeyType::Rsa(2048), signing())));
    assert_eq!(store.log, vec!["type k"]);
    let mut store = MemoryKeystore::refusing("create");
    assert!(is_locked(store.ensure_exists("k", KeyType::Rsa(2048), signing())));
    assert_eq!(store.log, vec!["type k", "create k Rsa(2048) true"]);
}

#[test]
fn overwrite_destroys_before_it_creates() {
    let mut store = MemoryKeystore::default();
    store.keys.insert("k".to_string(), KeyType::Aes(128));
    assert!(store.overwrite_new("k", KeyType::Aes(256), signing()).is_ok());
    assert_eq!(store.keys.get("k"), Some(&KeyType::Aes(256)));
    assert_eq!(store.log, vec!["destroy k", "create k Aes(256) true"]);

    let mut store = MemoryKeystore::refusing("destroy");
    assert!(is_locked(store.overwrite_new("k", KeyType::Aes(256), signing())));
    assert_eq!(store.log, vec!["destroy k"]);
    let mut store = MemoryKeystore::refusing("create");
    assert!(is_locked(store.overwrite_new("k", KeyType::Aes(256), signing())));
    assert_eq!(store.log, vec!["destroy k", "create k Aes(256) true"]);
}

#[test]
fn new_keys_get_a_numbered_alias() {
    assert_eq!(numbered_alias("p", 0), "p:0");
    assert_eq!(numbered_alias("", 10), ":10");
    assert_eq!(numbered_alias("a:b", u64::MAX), "a:b:18446744073709551615");

    let mut store = MemoryKeystore::default();
    let a = store.create_new("p", KeyType::Ec(EcCurve::P384), signing()).expect("an alias");
    let b = store.create_new("p", KeyType::Ec(EcCurve::P384), signing()).expect("an alias");
    assert_ne!(number_of(&a, "p"), number_of(&b, "p"));
    assert_eq!(store.keys.get(&a), Some(&KeyType::Ec(EcCurve::P384)));
    assert_eq!(store.log, vec![format!("create {a} Ec(P384) true"), format!("create {b} Ec(P384) true")]);
    assert!(is_locked(MemoryKeystore::refusing("create").create_new("p", KeyType::Aes(128), signing())));
}

#[test]
fn alias_of_an_imported_key_comes_from_its_bytes() {
    assert_eq!(digest_alias(&[0, 1, 2, 3, 4, 5, 6, 7, 0x0a, 0xff, 9, 9]), "imported:rsa:00010203040506070aff");
    let mut store = MemoryKeystore::default();
    let key = RsaKey::import_der(&mut store, b"abc").expect("a key");
    assert_eq!(key.0, "imported:rsa:ba7816bf8f01cfea4141");
    assert_eq!(store.keys.get(&key.0), Some(&KeyType::Rsa(2048)));
    assert_eq!(
        store.log,
        vec!["import imported:rsa:ba7816bf8f01cfea4141 Rsa(2048) [97, 98, 99] false"]
    );
    let other = RsaKey::import_der(&mut store, b"").expect("a key");
    assert_eq!(other.0, "imported:rsa:e3b0c44298fc1c149afb");
}

#[test]
fn importing_the_same_key_again_is_a_no_op() {
    let mut store = MemoryKeystore::default();
    let first = RsaKey::import_der(&mut store, b"key").expect("a key");
    let keys = store.keys.clone();
    let second = RsaKey::import_der(&mut store, b"key").expect("the same key");
    assert_eq!(first.0, second.0);
    assert_eq!(store.keys, keys);
    let third = RsaKey::import_der(&mut store, b"key").expect("the same key");
    assert_eq!(second.0, third.0, "also where the key was there from the start");
    assert_eq!(store.keys, keys);
    assert_eq!(store.log, vec![store.log[0].clone(); 3]);
}

#[test]
fn import_passes_other_errors_on() {
    let mut store = MemoryKeystore::refusing("import");
    assert!(is_locked(RsaKey::import_der(&mut store, b"key")));
    let alias = || "a".to_string();
    assert_eq!(RsaKey::imported(alias(), Ok(())).expect("a key").0, "a");
    assert_eq!(
        RsaKey::imported(alias(), Err(KeystoreError::KeyAlreadyExists)).expect("a key").0,
        "a"
    );
    assert!(matches!(
        RsaKey::imported(alias(), Err(KeystoreError::KeyNotFound)),
        Err(KeystoreError::KeyNotFound)
    ));
    assert!(matches!(
        RsaKey::imported(alias(), Err(KeystoreError::NotSupported)),
        Err(KeystoreError::NotSupported)
    ));
}

#[test]
fn stored_key_loads_from_either_form() {
    let mut store = MemoryKeystore::default();
    let alias = RsaKey::load(&mut store, StoredRsaKey::Alias("push".to_string())).expect("a key");
    assert_eq!(alias.alias(), "push");
    assert!(store.log.is_empty());
    let der = RsaKey::load(&mut store, StoredRsaKey::Der(b"abc".to_vec())).expect("a key");
    assert_eq!(der.alias(), "imported:rsa:ba7816bf8f01cfea4141");
    assert_eq!(store.log.len(), 1);
    let mut store = MemoryKeystore::refusing("import");
    assert!(is_locked(RsaKey::load(&mut store, StoredRsaKey::Der(b"abc".to_vec()))));
}

#[test]
fn rsa_keys_go_through_the_keystore() {
    let mut store = MemoryKeystore::default();
    let key = RsaKey::ensure(&mut store, "k", 2048, signing()).expect("a key");
    let again = RsaKey::overwrite(&mut store, "k", 4096, signing()).expect("a key");
    assert_eq!((key.alias(), again.alias()), ("k", "k"));
    assert_eq!(store.keys.get("k"), Some(&KeyType::Rsa(4096)));
    let fresh = RsaKey::create_new(&mut store, "p", 2048, signing()).expect("a key");
    number_of(fresh.alias(), "p");
    assert!(matches!(
        RsaKey::import(&mut store, "k", 2048, &[7], signing()),
        Err(KeystoreError::KeyAlreadyExists)
    ));
    let imported = RsaKey::import(&mut store, "i", 1024, &[7], signing()).expect("a key");
    assert_eq!(imported.alias(), "i");
    assert_eq!(store.log.last().unwrap(), "import i Rsa(1024) [7] true");

    store.log.clear();
    let oaep = KeystorePadding::OAEP { md: KeystoreDigest::Sha1, mgf1: KeystoreDigest::Sha256 };
    let mut mode = EncryptMode::Rsa(oaep);
    assert_eq!(key.get_public_key(&mut store).expect("a public key"), vec![2]);
    assert_eq!(
        key.sign(&mut store, KeystoreDigest::Sha256, KeystorePadding::PKCS1, &[8]).expect("signed"),
        vec![1]
    );
    assert!(key
        .verify(&mut store, KeystoreDigest::Sha256, KeystorePadding::PKCS1, &[8], &[1])
        .expect("verified"));
    assert!(!key
        .verify(&mut store, KeystoreDigest::Sha384, KeystorePadding::NoPadding, &[8], &[0])
        .expect("verified"));
    assert_eq!(key.decrypt(&mut store, &[9], &mode).expect("decrypted"), vec![5]);
    assert_eq!(key.encrypt(&mut store, &[9], &mut mode).expect("encrypted"), vec![4]);
    assert_eq!(mode, EncryptMode::Gcm, "the keystore sets the mode");
    assert_eq!(
        store.log,
        vec![
            "public k",
            "sign k Sha256 PKCS1 [8]",
            "verify k Sha256 PKCS1 [8] [1]",
            "verify k Sha384 NoPadding [8] [0]",
            "decrypt k [9] Rsa(OAEP { md: Sha1, mgf1: Sha256 })",
            "encrypt k [9] Rsa(OAEP { md: Sha1, mgf1: Sha256 })",
        ]
    );
}

#[test]
fn ec_keys_go_through_the_keystore() {
    let mut store = MemoryKeystore::default();
    let key = EcKeystoreKey::ensure(&mut store, "k", EcCurve::P256, signing()).expect("a key");
    EcKeystoreKey::overwrite(&mut store, "k", EcCurve::P384, signing()).expect("a key");
    assert_eq!(store.keys.get("k"), Some(&KeyType::Ec(EcCurve::P384)));
    let fresh = EcKeystoreKey::create_new(&mut store, "p", EcCurve::P256, signing()).expect("a key");
    number_of(fresh.alias(), "p");
    let imported =
        EcKeystoreKey::import(&mut store, "i", EcCurve::P256, &[7], signing()).expect("a key");
    assert_eq!(imported.alias(), "i");
    assert_eq!(store.log.last().unwrap(), "import i Ec(P256) [7] true");
    assert_eq!(key.derive(&mut store, &[2, 1]).expect("a secret"), vec![3]);
    assert_eq!(store.log.last().unwrap(), "derive k [2, 1]");
    assert_eq!(key.get_public_key(&mut store).expect("a public key"), vec![2]);
    let missing = EcKeystoreKey("none".to_string());
    assert!(matches!(missing.derive(&mut store, &[2]), Err(KeystoreError::KeyNotFound)));
}

#[test]
fn aes_keys_go_through_the_keystore() {
    let mut store = MemoryKeystore::default();
    let key = AesKeystoreKey::ensure(&mut store, "k", 128, signing()).expect("a key");
    AesKeystoreKey::overwrite(&mut store, "k", 256, signing()).expect("a key");
    assert_eq!(store.keys.get("k"), Some(&KeyType::Aes(256)));
    let fresh = AesKeystoreKey::create_new(&mut store, "p", 256, signing()).expect("a key");
    number_of(fresh.alias(), "p");
    let imported = AesKeystoreKey::import(&mut store, "i", 256, &[7], signing()).expect("a key");
    assert_eq!(imported.alias(), "i");
    assert_eq!(store.log.last().unwrap(), "import i Aes(256) [7] true");
    let mut mode = EncryptMode::Gcm;
    assert_eq!(key.encrypt(&mut store, &[1], &mut mode).expect("encrypted"), vec![4]);
    assert_eq!(key.decrypt(&mut store, &[1], &mode).expect("decrypted"), vec![5]);
    assert!(is_locked(AesKeystoreKey::ensure(&mut MemoryKeystore::refusing("type"), "k", 128, signing())));
    assert!(is_locked(AesKeystoreKey::overwrite(&mut MemoryKeystore::refusing("destroy"), "k", 128, signing())));
    assert!(is_locked(AesKeystoreKey::create_new(&mut MemoryKeystore::refusing("create"), "k", 128, signing())));
    assert!(is_locked(AesKeystoreKey::import(&mut MemoryKeystore::refusing("import"), "k", 128, &[], signing())));
}

#[test]
fn keys_work_on_any_boxed_keystore() {
    let mut store: Box<dyn Keystore> = Box::new(MemoryKeystore::default());
    let key = RsaKey::ensure(&mut *store, "k", 2048, signing()).expect("a key");
    assert_eq!(key.get_public_key(&mut *store).expect("a public key"), vec![2]);
    assert_eq!(store.list_keys().expect("the keys"), vec!["k"]);
    store.ensure_secret("s", 4).expect("a secret");
    store.delete_secret("s").expect("deleted");
    assert_eq!(store.get_secret("s").expect("a lookup"), None);
}

#[test]
fn every_error_says_what_it_is() {
    assert_eq!(KeystoreError::NotSupported.message(), "Operation not supported");
    assert_eq!(KeystoreError::KeyNotFound.message(), "Key not found!");
    assert_eq!(KeystoreError::KeyAlreadyExists.message(), "Key already exists!");
    assert_eq!(KeystoreError::BadKeyType(KeyType::Rsa(2048)).message(), "Bad key type Rsa(2048)");
    assert_eq!(
        KeystoreError::BadKeyType(KeyType::Ec(EcCurve::P256)).message(),
        "Bad key type Ec(P256)"
    );
    assert_eq!(KeystoreError::KeystoreLocked.message(), "Keystore locked!");
    assert_eq!(KeystoreError::KeyUnrecoverable.message(), "Key not recoverable!");
    assert_eq!(
        KeystoreError::KeystoreError("broken".to_string()).message(),
        "Keystore error broken"
    );
    let failure = openssl::pkey::PKey::private_key_from_der(&[0]).err().expect("not a key");
    let text = failure.to_string();
    assert!(!text.is_empty());
    assert_eq!(KeystoreError::from(failure).message(), format!("Software error {text}"));
    assert_eq!(software_message("text"), "Software error text");
}

#[test]
fn key_types_are_named_as_they_are_debugged() {
    for t in [
        KeyType::Rsa(0),
        KeyType::Rsa(65535),
        KeyType::Ec(EcCurve::P256),
        KeyType::Ec(EcCurve::P384),
        KeyType::Aes(256),
    ] {
        assert_eq!(t.name(), format!("{t:?}"));
    }
}

#[test]
fn default_access_rules_allow_nothing() {
    let rules = KeystoreAccessRules::default();
    assert!(rules.block_modes.is_empty());
    assert!(rules.digests.is_empty());
    assert!(rules.encryption_paddings.is_empty());
    assert!(rules.mgf1_digests.is_empty());
    assert!(rules.signature_padding.is_empty());
    assert!(!rules.require_user);
    assert!(!rules.can_agree && !rules.can_sign && !rules.can_encrypt && !rules.can_decrypt);
}

//! The keystore itself, as programs provide it.
use crate::keystore::calls::{
    aliased, create_new_calls, ensure_exists_calls, ensure_exists_outcome, ensure_secret_calls,
    ensure_secret_outcome, new_alias, overwrite_calls, overwrite_outcome, secret_view,
    store_secret_calls, store_secret_outcome, CallList, KeystoreCall,
};
use crate::keystore::types::{
    EncryptMode, KeyType, KeystoreAccessRules, KeystoreDigest, KeystoreError, KeystorePadding,
};
use crate::outside::{fill_random, random_u64};
use crate::text::decimal_text;
use vstd::prelude::*;

verus! {

/// A keystore that can be locked.
pub trait LockableKeystore {
    fn lock(&self) -> Result<(), KeystoreError>;

    fn unlock(&self) -> Result<(), KeystoreError>;

    fn is_locked(&self) -> bool;

    fn recover(&self) -> Result<(), KeystoreError>;
}

/// The alias of a key that was created under a new one.
pub open spec fn alias_view(r: Result<String, KeystoreError>) -> Result<Seq<char>, KeystoreError> {
    match r {
        Ok(a) => Ok(a@),
        Err(e) => Err(e),
    }
}

/// The alias of a new key with the number `n`.
pub fn numbered_alias(prefix: &str, n: u64) -> (r: String)
    ensures
        r@ == new_alias(prefix@, n),
{
    let mut s = String::from_str(prefix);
    s.append(":");
    s.append(decimal_text(n).as_str());
    s
}

/// A store of keys and secrets, by alias.
///
/// For contracts a keystore has the list of the calls that it got. Each
/// operation that a keystore provides adds itself to that list with its
/// arguments and its answer, and promises nothing of the answer.
pub trait Keystore: Send + Sync + 'static {
    /// The calls so far. This is for contracts only: no program ever runs it,
    /// and what stands in its place in ordinary Rust does not matter.
    spec fn calls(&self) -> CallList;

    fn as_lockable(&self) -> (r: Option<&dyn LockableKeystore>)
        default_ensures
            r is None,
    {
        None
    }

    fn create_key(
        &mut self,
        alias: &str,
        key_type: KeyType,
        access_rules: KeystoreAccessRules,
    ) -> (r: Result<(), KeystoreError>)
        ensures
            final(self).calls() == old(self).calls().push(
                KeystoreCall::CreateKey {
                    alias: alias@,
                    key_type,
                    access_rules: access_rules@,
                    result: r,
                },
            ),
    ;

    fn destroy_key(&mut self, alias: &str) -> (r: Result<(), KeystoreError>)
        ensures
            final(self).calls() == old(self).calls().push(
                KeystoreCall::DestroyKey { alias: alias@, result: r },
            ),
    ;

    fn list_keys(&mut self) -> (r: Result<Vec<String>, KeystoreError>)
        ensures
            final(self).calls() == old(self).calls().push(KeystoreCall::ListKeys { result: r }),
    ;

    fn set_secret(&mut self, alias: &str, secret: &[u8]) -> (r: Result<(), KeystoreError>)
        ensures
            final(self).calls() == old(self).calls().push(
                KeystoreCall::SetSecret { alias: alias@, secret: secret@, result: r },
            ),
    ;

    fn get_secret(&mut self, alias: &str) -> (r: Result<Option<Vec<u8>>, KeystoreError>)
        ensures
            final(self).calls() == old(self).calls().push(
                KeystoreCall::GetSecret { alias: alias@, result: r },
            ),
    ;

    fn delete_secret(&mut self, alias: &str) -> (r: Result<(), KeystoreError>)
        ensures
            final(self).calls() == old(self).calls().push(
                KeystoreCall::DeleteSecret { alias: alias@, result: r },
            ),
    ;

    /// Stores the secret `fresh` under `alias` and hands it back once it is
    /// stored.
    fn store_secret(&mut self, alias: &str, fresh: Vec<u8>) -> (r: Result<Vec<u8>, KeystoreError>)
        ensures
            exists|stored: Result<(), KeystoreError>|
                {
                    &&& final(self).calls() == old(self).calls() + #[trigger] store_secret_calls(
                        alias@,
                        fresh@,
                        stored,
                    )
                    &&& secret_view(r) == store_secret_outcome(fresh@, stored)
                },
    {
        let stored = self.set_secret(alias, fresh.as_slice());
        assert(self.calls() =~= old(self).calls() + store_secret_calls(alias@, fresh@, stored));
        match stored {
            Err(e) => Err(e),
            Ok(()) => Ok(fresh),
        }
    }

    /// The secret under `alias`, of whatever length it is; where there is none,
    /// a random one of `len` bytes, which is stored there.
    fn ensure_secret(&mut self, alias: &str, len: usize) -> (r: Result<Vec<u8>, KeystoreError>)
        ensures
            exists|
                found: Result<Option<Vec<u8>>, KeystoreError>,
                fresh: Seq<u8>,
                stored: Result<(), KeystoreError>,
            |
                {
                    &&& fresh.len() == len
                    &&& final(self).calls() == old(self).calls()
                        + #[trigger] ensure_secret_calls(alias@, len, found, fresh, stored)
                    &&& secret_view(r) == ensure_secret_outcome(len, found, fresh, stored)
                },
    {
        let found = self.get_secret(alias);
        let ghost asked = found;
        let ghost any = Ok::<(), KeystoreError>(());
        let ghost blank = Seq::new(len as nat, |i: int| 0u8);
        match found {
            Err(e) => {
                assert(self.calls() =~= old(self).calls() + ensure_secret_calls(
                    alias@,
                    len,
                    asked,
                    blank,
                    any,
                ));
                Err(e)
            },
            Ok(Some(secret)) => {
                assert(self.calls() =~= old(self).calls() + ensure_secret_calls(
                    alias@,
                    len,
                    asked,
                    blank,
                    any,
                ));
                Ok(secret)
            },
            Ok(None) => {
                if len > isize::MAX as usize {
                    assert(self.calls() =~= old(self).calls() + ensure_secret_calls(
                        alias@,
                        len,
                        asked,
                        blank,
                        any,
                    ));
                    return Err(KeystoreError::NotSupported);
                }
                let mut bytes: Vec<u8> = vec![0u8; len];
                fill_random(&mut bytes);
                let ghost fresh = bytes@;
                let ghost looked_up = self.calls();
                let r = self.store_secret(alias, bytes);
                proof {
                    let stored = choose|stored: Result<(), KeystoreError>|
                        {
                            &&& self.calls() == looked_up + #[trigger] store_secret_calls(
                                alias@,
                                fresh,
                                stored,
                            )
                            &&& secret_view(r) == store_secret_outcome(fresh, stored)
                        };
                    assert(self.calls() =~= old(self).calls() + ensure_secret_calls(
                        alias@,
                        len,
                        asked,
                        fresh,
                        stored,
                    ));
                }
                r
            },
        }
    }

    /// `priv_key` is an EC private key in DER, the raw bytes of an AES key, or
    /// an RSA private key in DER.
    fn import_key(
        &mut self,
        alias: &str,
        key_type: KeyType,
        priv_key: &[u8],
        access_rules: KeystoreAccessRules,
    ) -> (r: Result<(), KeystoreError>)
        ensures
            final(self).calls() == old(self).calls().push(
                KeystoreCall::ImportKey {
                    alias: alias@,
                    key_type,
                    priv_key: priv_key@,
                    access_rules: access_rules@,
                    result: r,
                },
            ),
    ;

    fn get_key_type(&mut self, alias: &str) -> (r: Result<Option<KeyType>, KeystoreError>)
        ensures
            final(self).calls() == old(self).calls().push(
                KeystoreCall::GetKeyType { alias: alias@, result: r },
            ),
    ;

    fn sign(
        &mut self,
        alias: &str,
        digest: KeystoreDigest,
        padding: KeystorePadding,
        data: &[u8],
    ) -> (r: Result<Vec<u8>, KeystoreError>)
        ensures
            final(self).calls() == old(self).calls().push(
                KeystoreCall::Sign { alias: alias@, digest, padding, data: data@, result: r },
            ),
    ;

    fn verify(
        &mut self,
        alias: &str,
        digest: KeystoreDigest,
        padding: KeystorePadding,
        data: &[u8],
        sig: &[u8],
    ) -> (r: Result<bool, KeystoreError>)
        ensures
            final(self).calls() == old(self).calls().push(
                KeystoreCall::Verify {
                    alias: alias@,
                    digest,
                    padding,
                    data: data@,
                    sig: sig@,
                    result: r,
                },
            ),
    ;

    /// The public key, in DER.
    fn get_public_key(&mut self, alias: &str) -> (r: Result<Vec<u8>, KeystoreError>)
        ensures
            final(self).calls() == old(self).calls().push(
                KeystoreCall::GetPublicKey { alias: alias@, result: r },
            ),
    ;

    /// `peer` is an EC public key that starts with 02, 03 or 04.
    fn derive(&mut self, alias: &str, peer: &[u8]) -> (r: Result<Vec<u8>, KeystoreError>)
        ensures
            final(self).calls() == old(self).calls().push(
                KeystoreCall::Derive { alias: alias@, peer: peer@, result: r },
            ),
    ;

    fn encrypt(&mut self, alias: &str, plaintext: &[u8], mode: &mut EncryptMode) -> (r: Result<
        Vec<u8>,
        KeystoreError,
    >)
        ensures
            final(self).calls() == old(self).calls().push(
                KeystoreCall::Encrypt {
                    alias: alias@,
                    plaintext: plaintext@,
                    mode: *old(mode),
                    mode_after: *final(mode),
                    result: r,
                },
            ),
    ;

    fn decrypt(&mut self, alias: &str, ciphertext: &[u8], mode: &EncryptMode) -> (r: Result<
        Vec<u8>,
        KeystoreError,
    >)
        ensures
            final(self).calls() == old(self).calls().push(
                KeystoreCall::Decrypt {
                    alias: alias@,
                    ciphertext: ciphertext@,
                    mode: *mode,
                    result: r,
                },
            ),
    ;

    /// Creates the key under `alias` where there is none.
    fn ensure_exists(
        &mut self,
        alias: &str,
        key_type: KeyType,
        access_rules: KeystoreAccessRules,
    ) -> (r: Result<(), KeystoreError>)
        ensures
            exists|found: Result<Option<KeyType>, KeystoreError>, created: Result<(), KeystoreError>|
                {
                    &&& final(self).calls() == old(self).calls() + #[trigger] ensure_exists_calls(
                        alias@,
                        key_type,
                        access_rules@,
                        found,
                        created,
                    )
                    &&& r == ensure_exists_outcome(found, created)
                },
    {
        let found = self.get_key_type(alias);
        let ghost asked = found;
        let ghost any = Ok::<(), KeystoreError>(());
        match found {
            Err(e) => {
                assert(self.calls() =~= old(self).calls() + ensure_exists_calls(
                    alias@,
                    key_type,
                    access_rules@,
                    asked,
                    any,
                ));
                Err(e)
            },
            Ok(Some(_)) => {
                assert(self.calls() =~= old(self).calls() + ensure_exists_calls(
                    alias@,
                    key_type,
                    access_rules@,
                    asked,
                    any,
                ));
                Ok(())
            },
            Ok(None) => {
                let ghost rules = access_rules@;
                let created = self.create_key(alias, key_type, access_rules);
                assert(self.calls() =~= old(self).calls() + ensure_exists_calls(
                    alias@,
                    key_type,
                    rules,
                    asked,
                    created,
                ));
                created
            },
        }
    }

    /// Puts a new key in the place of the one under `alias`.
    fn overwrite_new(
        &mut self,
        alias: &str,
        key_type: KeyType,
        access_rules: KeystoreAccessRules,
    ) -> (r: Result<(), KeystoreError>)
        ensures
            exists|destroyed: Result<(), KeystoreError>, created: Result<(), KeystoreError>|
                {
                    &&& final(self).calls() == old(self).calls() + #[trigger] overwrite_calls(
                        alias@,
                        key_type,
                        access_rules@,
                        destroyed,
                        created,
                    )
                    &&& r == overwrite_outcome(destroyed, created)
                },
    {
        let destroyed = self.destroy_key(alias);
        let ghost answered = destroyed;
        match destroyed {
            Err(e) => {
                assert(self.calls() =~= old(self).calls() + overwrite_calls(
                    alias@,
                    key_type,
                    access_rules@,
                    answered,
                    Ok(()),
                ));
                Err(e)
            },
            Ok(()) => {
                let ghost rules = access_rules@;
                let created = self.create_key(alias, key_type, access_rules);
                assert(self.calls() =~= old(self).calls() + overwrite_calls(
                    alias@,
                    key_type,
                    rules,
                    answered,
                    created,
                ));
                created
            },
        }
    }

    /// Creates a key under an alias that ends in a random number.
    fn create_new(
        &mut self,
        prefix: &str,
        key_type: KeyType,
        access_rules: KeystoreAccessRules,
    ) -> (r: Result<String, KeystoreError>)
        ensures
            exists|n: u64, created: Result<(), KeystoreError>|
                {
                    &&& final(self).calls() == old(self).calls() + #[trigger] create_new_calls(
                        prefix@,
                        n,
                        key_type,
                        access_rules@,
                        created,
                    )
                    &&& alias_view(r) == aliased(new_alias(prefix@, n), created)
                },
    {
        let n = random_u64();
        let alias = numbered_alias(prefix, n);
        let ghost rules = access_rules@;
        let created = self.create_key(alias.as_str(), key_type, access_rules);
        assert(self.calls() =~= old(self).calls() + create_new_calls(
            prefix@,
            n,
            key_type,
            rules,
            created,
        ));
        match created {
            Err(e) => Err(e),
            Ok(()) => Ok(alias),
        }
    }
}

} // verus!

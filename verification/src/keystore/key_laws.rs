//! What the typed keys ask of every keystore, call by call.
use crate::keystore::calls::KeystoreCall;
use crate::keystore::keys::{
    digest_alias, import_der_calls, imported_outcome, AesKeystoreKey, EcKeystoreKey,
    KeystoreDeriveKey, KeystoreEncryptKey, KeystoreKey, KeystorePublicKey, KeystoreSignKey, RsaKey,
    StoredRsaKey,
};
use crate::keystore::store::Keystore;
use crate::keystore::types::{
    AccessRules, EcCurve, EncryptMode, KeyType, KeystoreAccessRules, KeystoreDigest, KeystoreError,
    KeystorePadding,
};
use crate::outside::sha256;
use crate::text::{decimal, hex};
use vstd::prelude::*;

verus! {

/// Importing a key in DER makes one call. It hands over the whole key under an
/// alias that comes from its digest, as an RSA key of 2048 bits, with rules
/// that list nothing and allow nothing. The key under that alias is the
/// outcome, also where it is there already; any other error is passed on.
pub proof fn law_imported_der_is_handed_over_whole<K: Keystore + ?Sized>(
    store: &mut K,
    der: &[u8],
    r: Result<RsaKey, KeystoreError>,
)
    requires
        call_ensures(RsaKey::import_der::<K>, (store, der), r),
    ensures
        ({
            let before = old(store).calls();
            let after = final(store).calls();
            let n = before.len() as int;
            &&& after.len() == n + 1 && after.take(n) == before
            &&& after[n] matches KeystoreCall::ImportKey {
                alias: a,
                key_type: t,
                priv_key,
                access_rules: u,
                result,
            }
            &&& a == "imported:rsa:"@ + hex(sha256(der@).take(10), false)
            &&& t == KeyType::Rsa(2048)
            &&& priv_key == der@
            &&& u.block_modes.len() == 0 && u.digests.len() == 0 && u.encryption_paddings.len() == 0
            &&& u.mgf1_digests.len() == 0 && u.signature_padding.len() == 0
            &&& !u.require_user && !u.can_agree && !u.can_sign && !u.can_encrypt && !u.can_decrypt
            &&& match result {
                Ok(_) => r is Ok && r->Ok_0.0@ == a,
                Err(KeystoreError::KeyAlreadyExists) => r is Ok && r->Ok_0.0@ == a,
                Err(e) => r == Err::<RsaKey, KeystoreError>(e),
            }
        }),
{
}

/// Importing the same key into any two keystores, or twice into one, asks for
/// the same thing, and leads to the same key wherever it leads to one.
pub proof fn law_same_der_leads_to_the_same_key<K: Keystore + ?Sized, L: Keystore + ?Sized>(
    store: &mut K,
    other: &mut L,
    der: &[u8],
    r: Result<RsaKey, KeystoreError>,
    s: Result<RsaKey, KeystoreError>,
)
    requires
        call_ensures(RsaKey::import_der::<K>, (store, der), r),
        call_ensures(RsaKey::import_der::<L>, (other, der), s),
    ensures
        final(store).calls().last()->ImportKey_alias == final(other).calls().last()->ImportKey_alias,
        final(store).calls().last()->ImportKey_priv_key
            == final(other).calls().last()->ImportKey_priv_key,
        r is Ok && s is Ok ==> r->Ok_0.0@ == s->Ok_0.0@,
{
    law_imported_der_is_handed_over_whole(store, der, r);
    law_imported_der_is_handed_over_whole(other, der, s);
}

/// A stored alias is taken as it is and asks nothing; a stored key in DER is
/// imported as any other.
pub proof fn law_stored_key_is_loaded_as_it_is<K: Keystore + ?Sized>(
    store: &mut K,
    stored: StoredRsaKey,
    r: Result<RsaKey, KeystoreError>,
)
    requires
        call_ensures(RsaKey::load::<K>, (store, stored), r),
    ensures
        stored matches StoredRsaKey::Alias(alias) ==> {
            &&& final(store).calls() == old(store).calls()
            &&& r is Ok && r->Ok_0.0@ == alias@
        },
        stored matches StoredRsaKey::Der(der) ==> {
            let before = old(store).calls();
            let after = final(store).calls();
            let n = before.len() as int;
            &&& after.len() == n + 1 && after.take(n) == before
            &&& after[n] matches KeystoreCall::ImportKey {
                alias: a,
                key_type: t,
                priv_key,
                access_rules: u,
                result,
            }
            &&& a == "imported:rsa:"@ + hex(sha256(der@).take(10), false)
            &&& t == KeyType::Rsa(2048)
            &&& priv_key == der@
            &&& u.block_modes.len() == 0 && u.digests.len() == 0 && u.encryption_paddings.len() == 0
            &&& u.mgf1_digests.len() == 0 && u.signature_padding.len() == 0
            &&& !u.require_user && !u.can_agree && !u.can_sign && !u.can_encrypt && !u.can_decrypt
            &&& match result {
                Ok(_) => r is Ok && r->Ok_0.0@ == a,
                Err(KeystoreError::KeyAlreadyExists) => r is Ok && r->Ok_0.0@ == a,
                Err(e) => r == Err::<RsaKey, KeystoreError>(e),
            }
        },
{
}

/// The call that imports a key in DER has these fields, whatever the answer.
pub proof fn law_import_call_has_its_fields(der: Seq<u8>, reply: Result<(), KeystoreError>)
    ensures
        ({
            let calls = import_der_calls(der, reply);
            &&& calls.len() == 1
            &&& calls[0] is ImportKey
            &&& calls[0]->ImportKey_alias == "imported:rsa:"@ + hex(sha256(der).take(10), false)
            &&& calls[0]->ImportKey_key_type == KeyType::Rsa(2048)
            &&& calls[0]->ImportKey_priv_key == der
            &&& calls[0]->ImportKey_access_rules == (AccessRules {
                block_modes: Seq::empty(),
                digests: Seq::empty(),
                encryption_paddings: Seq::empty(),
                mgf1_digests: Seq::empty(),
                signature_padding: Seq::empty(),
                require_user: false,
                can_agree: false,
                can_sign: false,
                can_encrypt: false,
                can_decrypt: false,
            })
            &&& calls[0]->ImportKey_result == reply
        }),
{
}

/// The alias of an imported key holds the first ten bytes of its digest.
pub proof fn law_imported_alias_holds_ten_bytes(digest: &[u8], r: String)
    requires
        call_ensures(digest_alias, (digest,), r),
    ensures
        r@ == "imported:rsa:"@ + hex(digest@.take(10), false),
{
}

/// A key that was imported, or is there already, is the one under its alias;
/// any other error is passed on.
pub proof fn law_key_that_is_there_is_as_good(
    alias: String,
    reply: Result<(), KeystoreError>,
    r: Result<RsaKey, KeystoreError>,
)
    requires
        call_ensures(RsaKey::imported, (alias, reply), r),
    ensures
        reply is Ok || reply == Err::<(), KeystoreError>(KeystoreError::KeyAlreadyExists) ==> r is Ok
            && r->Ok_0.0@ == alias@,
        reply is Err && reply->Err_0 !is KeyAlreadyExists ==> r is Err && r->Err_0 == reply->Err_0,
{
    assert(imported_outcome(alias@, reply) == RsaKey::outcome(r));
}

/// An RSA key that is made sure of is looked up under the very alias and,
/// where there is none, created there with the very size and rules; the key
/// under that alias is the outcome.
pub proof fn law_ensured_rsa_key_is_the_one_asked_for<K: Keystore + ?Sized>(
    store: &mut K,
    key: &str,
    bits: u16,
    access_rules: KeystoreAccessRules,
    r: Result<RsaKey, KeystoreError>,
)
    requires
        call_ensures(RsaKey::ensure::<K>, (store, key, bits, access_rules), r),
    ensures
        ({
            let before = old(store).calls();
            let after = final(store).calls();
            let n = before.len() as int;
            &&& after.len() > n && after.take(n) == before
            &&& after[n] matches KeystoreCall::GetKeyType { alias: a, result: found }
            &&& a == key@
            &&& match found {
                Err(e) => after.len() == n + 1 && r == Err::<RsaKey, KeystoreError>(e),
                Ok(Some(_)) => after.len() == n + 1 && r is Ok && r->Ok_0.0@ == key@,
                Ok(None) => {
                    &&& after.len() == n + 2
                    &&& after[n + 1] matches KeystoreCall::CreateKey {
                        alias: b,
                        key_type: t,
                        access_rules: u,
                        result,
                    }
                    &&& b == key@ && t == KeyType::Rsa(bits) && u == access_rules@
                    &&& match result {
                        Ok(_) => r is Ok && r->Ok_0.0@ == key@,
                        Err(e) => r == Err::<RsaKey, KeystoreError>(e),
                    }
                },
            }
        }),
{
}

/// An RSA key that replaces another is created under the very alias with
/// the very size and rules, once the other is destroyed.
pub proof fn law_overwriting_rsa_key_is_the_one_asked_for<K: Keystore + ?Sized>(
    store: &mut K,
    key: &str,
    bits: u16,
    access_rules: KeystoreAccessRules,
    r: Result<RsaKey, KeystoreError>,
)
    requires
        call_ensures(RsaKey::overwrite::<K>, (store, key, bits, access_rules), r),
    ensures
        ({
            let before = old(store).calls();
            let after = final(store).calls();
            let n = before.len() as int;
            &&& after.len() > n && after.take(n) == before
            &&& after[n] matches KeystoreCall::DestroyKey { alias: a, result: destroyed }
            &&& a == key@
            &&& match destroyed {
                Err(e) => after.len() == n + 1 && r == Err::<RsaKey, KeystoreError>(e),
                Ok(_) => {
                    &&& after.len() == n + 2
                    &&& after[n + 1] matches KeystoreCall::CreateKey {
                        alias: b,
                        key_type: t,
                        access_rules: u,
                        result,
                    }
                    &&& b == key@ && t == KeyType::Rsa(bits) && u == access_rules@
                    &&& match result {
                        Ok(_) => r is Ok && r->Ok_0.0@ == key@,
                        Err(e) => r == Err::<RsaKey, KeystoreError>(e),
                    }
                },
            }
        }),
{
}

/// An RSA key with a new alias is created by one call with the very size
/// and rules, under the prefix, a colon and a number; the key under that alias
/// is the outcome.
pub proof fn law_new_rsa_key_is_the_one_asked_for<K: Keystore + ?Sized>(
    store: &mut K,
    prefix: &str,
    bits: u16,
    access_rules: KeystoreAccessRules,
    r: Result<RsaKey, KeystoreError>,
)
    requires
        call_ensures(RsaKey::create_new::<K>, (store, prefix, bits, access_rules), r),
    ensures
        ({
            let before = old(store).calls();
            let after = final(store).calls();
            let n = before.len() as int;
            &&& after.len() == n + 1 && after.take(n) == before
            &&& after[n] matches KeystoreCall::CreateKey {
                alias: a,
                key_type: t,
                access_rules: u,
                result,
            }
            &&& exists|m: u64| a == prefix@ + ":"@ + #[trigger] decimal(m as nat)
            &&& t == KeyType::Rsa(bits) && u == access_rules@
            &&& match result {
                Ok(_) => r is Ok && r->Ok_0.0@ == a,
                Err(e) => r == Err::<RsaKey, KeystoreError>(e),
            }
        }),
{
}

/// An RSA key is imported by one call that hands over the whole key under
/// the very alias, with the very size and rules.
pub proof fn law_imported_rsa_key_is_the_one_given<K: Keystore + ?Sized>(
    store: &mut K,
    key: &str,
    bits: u16,
    priv_key: &[u8],
    access_rules: KeystoreAccessRules,
    r: Result<RsaKey, KeystoreError>,
)
    requires
        call_ensures(RsaKey::import::<K>, (store, key, bits, priv_key, access_rules), r),
    ensures
        ({
            let before = old(store).calls();
            let after = final(store).calls();
            let n = before.len() as int;
            &&& after.len() == n + 1 && after.take(n) == before
            &&& after[n] matches KeystoreCall::ImportKey {
                alias: a,
                key_type: t,
                priv_key: bytes,
                access_rules: u,
                result,
            }
            &&& a == key@ && t == KeyType::Rsa(bits) && bytes == priv_key@ && u == access_rules@
            &&& match result {
                Ok(_) => r is Ok && r->Ok_0.0@ == key@,
                Err(e) => r == Err::<RsaKey, KeystoreError>(e),
            }
        }),
{
}

/// An EC key that is made sure of is looked up under the very alias and,
/// where there is none, created there with the very curve and rules; the key
/// under that alias is the outcome.
pub proof fn law_ensured_ec_key_is_the_one_asked_for<K: Keystore + ?Sized>(
    store: &mut K,
    key: &str,
    curve: EcCurve,
    access_rules: KeystoreAccessRules,
    r: Result<EcKeystoreKey, KeystoreError>,
)
    requires
        call_ensures(EcKeystoreKey::ensure::<K>, (store, key, curve, access_rules), r),
    ensures
        ({
            let before = old(store).calls();
            let after = final(store).calls();
            let n = before.len() as int;
            &&& after.len() > n && after.take(n) == before
            &&& after[n] matches KeystoreCall::GetKeyType { alias: a, result: found }
            &&& a == key@
            &&& match found {
                Err(e) => after.len() == n + 1 && r == Err::<EcKeystoreKey, KeystoreError>(e),
                Ok(Some(_)) => after.len() == n + 1 && r is Ok && r->Ok_0.0@ == key@,
                Ok(None) => {
                    &&& after.len() == n + 2
                    &&& after[n + 1] matches KeystoreCall::CreateKey {
                        alias: b,
                        key_type: t,
                        access_rules: u,
                        result,
                    }
                    &&& b == key@ && t == KeyType::Ec(curve) && u == access_rules@
                    &&& match result {
                        Ok(_) => r is Ok && r->Ok_0.0@ == key@,
                        Err(e) => r == Err::<EcKeystoreKey, KeystoreError>(e),
                    }
                },
            }
        }),
{
}

/// An EC key that replaces another is created under the very alias with
/// the very curve and rules, once the other is destroyed.
pub proof fn law_overwriting_ec_key_is_the_one_asked_for<K: Keystore + ?Sized>(
    store: &mut K,
    key: &str,
    curve: EcCurve,
    access_rules: KeystoreAccessRules,
    r: Result<EcKeystoreKey, KeystoreError>,
)
    requires
        call_ensures(EcKeystoreKey::overwrite::<K>, (store, key, curve, access_rules), r),
    ensures
        ({
            let before = old(store).calls();
            let after = final(store).calls();
            let n = before.len() as int;
            &&& after.len() > n && after.take(n) == before
            &&& after[n] matches KeystoreCall::DestroyKey { alias: a, result: destroyed }
            &&& a == key@
            &&& match destroyed {
                Err(e) => after.len() == n + 1 && r == Err::<EcKeystoreKey, KeystoreError>(e),
                Ok(_) => {
                    &&& after.len() == n + 2
                    &&& after[n + 1] matches KeystoreCall::CreateKey {
                        alias: b,
                        key_type: t,
                        access_rules: u,
                        result,
                    }
                    &&& b == key@ && t == KeyType::Ec(curve) && u == access_rules@
                    &&& match result {
                        Ok(_) => r is Ok && r->Ok_0.0@ == key@,
                        Err(e) => r == Err::<EcKeystoreKey, KeystoreError>(e),
                    }
                },
            }
        }),
{
}

/// An EC key with a new alias is created by one call with the very curve
/// and rules, under the prefix, a colon and a number; the key under that alias
/// is the outcome.
pub proof fn law_new_ec_key_is_the_one_asked_for<K: Keystore + ?Sized>(
    store: &mut K,
    prefix: &str,
    curve: EcCurve,
    access_rules: KeystoreAccessRules,
    r: Result<EcKeystoreKey, KeystoreError>,
)
    requires
        call_ensures(EcKeystoreKey::create_new::<K>, (store, prefix, curve, access_rules), r),
    ensures
        ({
            let before = old(store).calls();
            let after = final(store).calls();
            let n = before.len() as int;
            &&& after.len() == n + 1 && after.take(n) == before
            &&& after[n] matches KeystoreCall::CreateKey {
                alias: a,
                key_type: t,
                access_rules: u,
                result,
            }
            &&& exists|m: u64| a == prefix@ + ":"@ + #[trigger] decimal(m as nat)
            &&& t == KeyType::Ec(curve) && u == access_rules@
            &&& match result {
                Ok(_) => r is Ok && r->Ok_0.0@ == a,
                Err(e) => r == Err::<EcKeystoreKey, KeystoreError>(e),
            }
        }),
{
}

/// An EC key is imported by one call that hands over the whole key under
/// the very alias, with the very curve and rules.
pub proof fn law_imported_ec_key_is_the_one_given<K: Keystore + ?Sized>(
    store: &mut K,
    key: &str,
    curve: EcCurve,
    priv_key: &[u8],
    access_rules: KeystoreAccessRules,
    r: Result<EcKeystoreKey, KeystoreError>,
)
    requires
        call_ensures(EcKeystoreKey::import::<K>, (store, key, curve, priv_key, access_rules), r),
    ensures
        ({
            let before = old(store).calls();
            let after = final(store).calls();
            let n = before.len() as int;
            &&& after.len() == n + 1 && after.take(n) == before
            &&& after[n] matches KeystoreCall::ImportKey {
                alias: a,
                key_type: t,
                priv_key: bytes,
                access_rules: u,
                result,
            }
            &&& a == key@ && t == KeyType::Ec(curve) && bytes == priv_key@ && u == access_rules@
            &&& match result {
                Ok(_) => r is Ok && r->Ok_0.0@ == key@,
                Err(e) => r == Err::<EcKeystoreKey, KeystoreError>(e),
            }
        }),
{
}

/// An AES key that is made sure of is looked up under the very alias and,
/// where there is none, created there with the very size and rules; the key
/// under that alias is the outcome.
pub proof fn law_ensured_aes_key_is_the_one_asked_for<K: Keystore + ?Sized>(
    store: &mut K,
    key: &str,
    bits: u16,
    access_rules: KeystoreAccessRules,
    r: Result<AesKeystoreKey, KeystoreError>,
)
    requires
        call_ensures(AesKeystoreKey::ensure::<K>, (store, key, bits, access_rules), r),
    ensures
        ({
            let before = old(store).calls();
            let after = final(store).calls();
            let n = before.len() as int;
            &&& after.len() > n && after.take(n) == before
            &&& after[n] matches KeystoreCall::GetKeyType { alias: a, result: found }
            &&& a == key@
            &&& match found {
                Err(e) => after.len() == n + 1 && r == Err::<AesKeystoreKey, KeystoreError>(e),
                Ok(Some(_)) => after.len() == n + 1 && r is Ok && r->Ok_0.0@ == key@,
                Ok(None) => {
                    &&& after.len() == n + 2
                    &&& after[n + 1] matches KeystoreCall::CreateKey {
                        alias: b,
                        key_type: t,
                        access_rules: u,
                        result,
                    }
                    &&& b == key@ && t == KeyType::Aes(bits) && u == access_rules@
                    &&& match result {
                        Ok(_) => r is Ok && r->Ok_0.0@ == key@,
                        Err(e) => r == Err::<AesKeystoreKey, KeystoreError>(e),
                    }
                },
            }
        }),
{
}

/// An AES key that replaces another is created under the very alias with
/// the very size and rules, once the other is destroyed.
pub proof fn law_overwriting_aes_key_is_the_one_asked_for<K: Keystore + ?Sized>(
    store: &mut K,
    key: &str,
    bits: u16,
    access_rules: KeystoreAccessRules,
    r: Result<AesKeystoreKey, KeystoreError>,
)
    requires
        call_ensures(AesKeystoreKey::overwrite::<K>, (store, key, bits, access_rules), r),
    ensures
        ({
            let before = old(store).calls();
            let after = final(store).calls();
            let n = before.len() as int;
            &&& after.len() > n && after.take(n) == before
            &&& after[n] matches KeystoreCall::DestroyKey { alias: a, result: destroyed }
            &&& a == key@
            &&& match destroyed {
                Err(e) => after.len() == n + 1 && r == Err::<AesKeystoreKey, KeystoreError>(e),
                Ok(_) => {
                    &&& after.len() == n + 2
                    &&& after[n + 1] matches KeystoreCall::CreateKey {
                        alias: b,
                        key_type: t,
                        access_rules: u,
                        result,
                    }
                    &&& b == key@ && t == KeyType::Aes(bits) && u == access_rules@
                    &&& match result {
                        Ok(_) => r is Ok && r->Ok_0.0@ == key@,
                        Err(e) => r == Err::<AesKeystoreKey, KeystoreError>(e),
                    }
                },
            }
        }),
{
}

/// An AES key with a new alias is created by one call with the very size
/// and rules, under the prefix, a colon and a number; the key under that alias
/// is the outcome.
pub proof fn law_new_aes_key_is_the_one_asked_for<K: Keystore + ?Sized>(
    store: &mut K,
    prefix: &str,
    bits: u16,
    access_rules: KeystoreAccessRules,
    r: Result<AesKeystoreKey, KeystoreError>,
)
    requires
        call_ensures(AesKeystoreKey::create_new::<K>, (store, prefix, bits, access_rules), r),
    ensures
        ({
            let before = old(store).calls();
            let after = final(store).calls();
            let n = before.len() as int;
            &&& after.len() == n + 1 && after.take(n) == before
            &&& after[n] matches KeystoreCall::CreateKey {
                alias: a,
                key_type: t,
                access_rules: u,
                result,
            }
            &&& exists|m: u64| a == prefix@ + ":"@ + #[trigger] decimal(m as nat)
            &&& t == KeyType::Aes(bits) && u == access_rules@
            &&& match result {
                Ok(_) => r is Ok && r->Ok_0.0@ == a,
                Err(e) => r == Err::<AesKeystoreKey, KeystoreError>(e),
            }
        }),
{
}

/// An AES key is imported by one call that hands over the whole key under
/// the very alias, with the very size and rules.
pub proof fn law_imported_aes_key_is_the_one_given<K: Keystore + ?Sized>(
    store: &mut K,
    key: &str,
    bits: u16,
    priv_key: &[u8],
    access_rules: KeystoreAccessRules,
    r: Result<AesKeystoreKey, KeystoreError>,
)
    requires
        call_ensures(AesKeystoreKey::import::<K>, (store, key, bits, priv_key, access_rules), r),
    ensures
        ({
            let before = old(store).calls();
            let after = final(store).calls();
            let n = before.len() as int;
            &&& after.len() == n + 1 && after.take(n) == before
            &&& after[n] matches KeystoreCall::ImportKey {
                alias: a,
                key_type: t,
                priv_key: bytes,
                access_rules: u,
                result,
            }
            &&& a == key@ && t == KeyType::Aes(bits) && bytes == priv_key@ && u == access_rules@
            &&& match result {
                Ok(_) => r is Ok && r->Ok_0.0@ == key@,
                Err(e) => r == Err::<AesKeystoreKey, KeystoreError>(e),
            }
        }),
{
}

/// The public half is asked for under the alias of the key.
#[allow(dead_code)]
fn public_key_is_asked_for<S: KeystorePublicKey, K: Keystore + ?Sized>(
    key: &S,
    store: &mut K,
) -> (r: Result<Vec<u8>, KeystoreError>)
    ensures
        final(store).calls().len() == old(store).calls().len() + 1,
        final(store).calls().drop_last() == old(store).calls(),
        final(store).calls().last() is GetPublicKey,
        final(store).calls().last()->GetPublicKey_alias == key.key_alias(),
        final(store).calls().last()->GetPublicKey_result == r,
{
    let r = key.get_public_key(store);
    assert(store.calls().drop_last() =~= old(store).calls());
    r
}

/// The secret shared with a peer is asked for with the whole of the peer's key.
#[allow(dead_code)]
fn shared_secret_is_asked_for<S: KeystoreDeriveKey, K: Keystore + ?Sized>(
    key: &S,
    store: &mut K,
    peer: &[u8],
) -> (r: Result<Vec<u8>, KeystoreError>)
    ensures
        final(store).calls().len() == old(store).calls().len() + 1,
        final(store).calls().drop_last() == old(store).calls(),
        final(store).calls().last() is Derive,
        final(store).calls().last()->Derive_alias == key.key_alias(),
        final(store).calls().last()->Derive_peer == peer@,
        final(store).calls().last()->Derive_result == r,
{
    let r = key.derive(store, peer);
    assert(store.calls().drop_last() =~= old(store).calls());
    r
}

/// A signature is asked for with the very digest and padding, of all the data.
#[allow(dead_code)]
fn signature_is_asked_for<S: KeystoreSignKey, K: Keystore + ?Sized>(
    key: &S,
    store: &mut K,
    digest: KeystoreDigest,
    padding: KeystorePadding,
    data: &[u8],
) -> (r: Result<Vec<u8>, KeystoreError>)
    ensures
        final(store).calls().len() == old(store).calls().len() + 1,
        final(store).calls().drop_last() == old(store).calls(),
        final(store).calls().last() is Sign,
        final(store).calls().last()->Sign_alias == key.key_alias(),
        final(store).calls().last()->Sign_digest == digest,
        final(store).calls().last()->Sign_padding == padding,
        final(store).calls().last()->Sign_data == data@,
        final(store).calls().last()->Sign_result == r,
{
    let r = key.sign(store, digest, padding, data);
    assert(store.calls().drop_last() =~= old(store).calls());
    r
}

/// A signature is checked with the very digest and padding, whole and against all
/// the data.
#[allow(dead_code)]
fn signature_is_checked<S: KeystoreSignKey, K: Keystore + ?Sized>(
    key: &S,
    store: &mut K,
    digest: KeystoreDigest,
    padding: KeystorePadding,
    data: &[u8],
    sig: &[u8],
) -> (r: Result<bool, KeystoreError>)
    ensures
        final(store).calls().len() == old(store).calls().len() + 1,
        final(store).calls().drop_last() == old(store).calls(),
        final(store).calls().last() is Verify,
        final(store).calls().last()->Verify_alias == key.key_alias(),
        final(store).calls().last()->Verify_digest == digest,
        final(store).calls().last()->Verify_padding == padding,
        final(store).calls().last()->Verify_data == data@,
        final(store).calls().last()->Verify_sig == sig@,
        final(store).calls().last()->Verify_result == r,
{
    let r = key.verify(store, digest, padding, data, sig);
    assert(store.calls().drop_last() =~= old(store).calls());
    r
}

/// All of a plaintext is encrypted in the very mode that was given, and the mode
/// that the keystore leaves is the one that is left.
#[allow(dead_code)]
fn plaintext_is_encrypted<S: KeystoreEncryptKey, K: Keystore + ?Sized>(
    key: &S,
    store: &mut K,
    plaintext: &[u8],
    mode: &mut EncryptMode,
) -> (r: Result<Vec<u8>, KeystoreError>)
    ensures
        final(store).calls().len() == old(store).calls().len() + 1,
        final(store).calls().drop_last() == old(store).calls(),
        final(store).calls().last() is Encrypt,
        final(store).calls().last()->Encrypt_alias == key.key_alias(),
        final(store).calls().last()->Encrypt_plaintext == plaintext@,
        final(store).calls().last()->Encrypt_mode == *old(mode),
        final(store).calls().last()->Encrypt_mode_after == *final(mode),
        final(store).calls().last()->Encrypt_result == r,
{
    let r = key.encrypt(store, plaintext, mode);
    assert(store.calls().drop_last() =~= old(store).calls());
    r
}

/// All of a ciphertext is decrypted in the very mode that was given.
#[allow(dead_code)]
fn ciphertext_is_decrypted<S: KeystoreEncryptKey, K: Keystore + ?Sized>(
    key: &S,
    store: &mut K,
    ciphertext: &[u8],
    mode: &EncryptMode,
) -> (r: Result<Vec<u8>, KeystoreError>)
    ensures
        final(store).calls().len() == old(store).calls().len() + 1,
        final(store).calls().drop_last() == old(store).calls(),
        final(store).calls().last() is Decrypt,
        final(store).calls().last()->Decrypt_alias == key.key_alias(),
        final(store).calls().last()->Decrypt_ciphertext == ciphertext@,
        final(store).calls().last()->Decrypt_mode == *mode,
        final(store).calls().last()->Decrypt_result == r,
{
    let r = key.decrypt(store, ciphertext, mode);
    assert(store.calls().drop_last() =~= old(store).calls());
    r
}

/// The alias of a key is the whole text that it holds.
pub proof fn law_alias_is_the_text_of_the_key(
    rsa: &RsaKey,
    a: &str,
    ec: &EcKeystoreKey,
    b: &str,
    aes: &AesKeystoreKey,
    c: &str,
)
    requires
        call_ensures(RsaKey::alias, (rsa,), a),
        call_ensures(EcKeystoreKey::alias, (ec,), b),
        call_ensures(AesKeystoreKey::alias, (aes,), c),
    ensures
        a@ == rsa.0@ && rsa.key_alias() == rsa.0@,
        b@ == ec.0@ && ec.key_alias() == ec.0@,
        c@ == aes.0@ && aes.key_alias() == aes.0@,
{
}

} // verus!

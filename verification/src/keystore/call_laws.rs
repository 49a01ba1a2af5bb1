//! What every keystore is asked for, call by call, and what is made of its
//! answers.
use crate::keystore::calls::KeystoreCall;
use crate::keystore::store::{numbered_alias, Keystore};
use crate::keystore::types::{
    software_message, EcCurve, KeyType, KeystoreAccessRules, KeystoreError,
};
use crate::text::decimal;
use vstd::prelude::*;

verus! {

/// Making sure of a key asks for its kind under that alias. Where there is none
/// the very kind of key that was asked for is created under the very alias,
/// with the very rules, and the answer to that is the outcome; where there is
/// one nothing more is asked.
pub proof fn law_ensured_key_is_the_one_asked_for<K: Keystore + ?Sized>(
    store: &mut K,
    alias: &str,
    key_type: KeyType,
    access_rules: KeystoreAccessRules,
    r: Result<(), KeystoreError>,
)
    requires
        call_ensures(K::ensure_exists, (store, alias, key_type, access_rules), r),
    ensures
        ({
            let before = old(store).calls();
            let after = final(store).calls();
            let n = before.len() as int;
            &&& after.len() > n && after.take(n) == before
            &&& after[n] matches KeystoreCall::GetKeyType { alias: a, result: found }
            &&& a == alias@
            &&& match found {
                Err(e) => after.len() == n + 1 && r == Err::<(), KeystoreError>(e),
                Ok(Some(_)) => after.len() == n + 1 && r is Ok,
                Ok(None) => {
                    &&& after.len() == n + 2
                    &&& after[n + 1] matches KeystoreCall::CreateKey {
                        alias: b,
                        key_type: t,
                        access_rules: u,
                        result,
                    }
                    &&& b == alias@ && t == key_type && u == access_rules@ && result == r
                },
            }
        }),
{
}

/// Replacing a key destroys what is under the alias and then creates the very
/// kind of key that was asked for there, with the very rules; where nothing can
/// be destroyed nothing is created.
pub proof fn law_overwriting_key_is_the_one_asked_for<K: Keystore + ?Sized>(
    store: &mut K,
    alias: &str,
    key_type: KeyType,
    access_rules: KeystoreAccessRules,
    r: Result<(), KeystoreError>,
)
    requires
        call_ensures(K::overwrite_new, (store, alias, key_type, access_rules), r),
    ensures
        ({
            let before = old(store).calls();
            let after = final(store).calls();
            let n = before.len() as int;
            &&& after.len() > n && after.take(n) == before
            &&& after[n] matches KeystoreCall::DestroyKey { alias: a, result: destroyed }
            &&& a == alias@
            &&& match destroyed {
                Err(e) => after.len() == n + 1 && r == Err::<(), KeystoreError>(e),
                Ok(_) => {
                    &&& after.len() == n + 2
                    &&& after[n + 1] matches KeystoreCall::CreateKey {
                        alias: b,
                        key_type: t,
                        access_rules: u,
                        result,
                    }
                    &&& b == alias@ && t == key_type && u == access_rules@ && result == r
                },
            }
        }),
{
}

/// A new key is created by one call, under the prefix, a colon and a number; the
/// alias that is handed out is the one that the key was created under.
pub proof fn law_new_key_is_the_one_asked_for<K: Keystore + ?Sized>(
    store: &mut K,
    prefix: &str,
    key_type: KeyType,
    access_rules: KeystoreAccessRules,
    r: Result<String, KeystoreError>,
)
    requires
        call_ensures(K::create_new, (store, prefix, key_type, access_rules), r),
    ensures
        ({
            let before = old(store).calls();
            let after = final(store).calls();
            let n = before.len() as int;
            &&& after.len() == n + 1 && after.take(n) == before
            &&& after[n] matches KeystoreCall::CreateKey {
                alias: a,
                key_type: t,
                access_rules: u,
                result,
            }
            &&& exists|m: u64| a == prefix@ + ":"@ + #[trigger] decimal(m as nat)
            &&& t == key_type && u == access_rules@
            &&& match result {
                Ok(_) => r is Ok && r->Ok_0@ == a,
                Err(e) => r == Err::<String, KeystoreError>(e),
            }
        }),
{
}

/// The alias with a number is the prefix, a colon and the number.
pub proof fn law_numbered_alias_holds_its_parts(prefix: &str, n: u64, r: String)
    requires
        call_ensures(numbered_alias, (prefix, n), r),
    ensures
        r@ == prefix@ + ":"@ + decimal(n as nat),
{
}

/// A fresh secret is stored as it is, under the very alias, and handed back as
/// it was stored.
pub proof fn law_stored_secret_is_the_one_given<K: Keystore + ?Sized>(
    store: &mut K,
    alias: &str,
    fresh: Vec<u8>,
    r: Result<Vec<u8>, KeystoreError>,
)
    requires
        call_ensures(K::store_secret, (store, alias, fresh), r),
    ensures
        ({
            let before = old(store).calls();
            let after = final(store).calls();
            let n = before.len() as int;
            &&& after.len() == n + 1 && after.take(n) == before
            &&& after[n] matches KeystoreCall::SetSecret { alias: a, secret, result }
            &&& a == alias@ && secret == fresh@
            &&& match result {
                Ok(_) => r is Ok && r->Ok_0@ == fresh@,
                Err(e) => r == Err::<Vec<u8>, KeystoreError>(e),
            }
        }),
{
}

/// Making sure of a secret looks it up. One that is there is handed out whole
/// and unchanged; where there is none, one of the length that was asked for is
/// stored under the alias, and the one that was stored is handed out.
pub proof fn law_ensured_secret_is_the_stored_one<K: Keystore + ?Sized>(
    store: &mut K,
    alias: &str,
    len: usize,
    r: Result<Vec<u8>, KeystoreError>,
)
    requires
        call_ensures(K::ensure_secret, (store, alias, len), r),
    ensures
        ({
            let before = old(store).calls();
            let after = final(store).calls();
            let n = before.len() as int;
            &&& after.len() > n && after.take(n) == before
            &&& after[n] matches KeystoreCall::GetSecret { alias: a, result: found }
            &&& a == alias@
            &&& match found {
                Err(e) => after.len() == n + 1 && r == Err::<Vec<u8>, KeystoreError>(e),
                Ok(Some(secret)) => after.len() == n + 1 && r is Ok && r->Ok_0@ == secret@,
                Ok(None) => if len > isize::MAX {
                    after.len() == n + 1 && r is Err && r->Err_0 is NotSupported
                } else {
                    &&& after.len() == n + 2
                    &&& after[n + 1] matches KeystoreCall::SetSecret { alias: b, secret, result }
                    &&& b == alias@ && secret.len() == len
                    &&& match result {
                        Ok(_) => r is Ok && r->Ok_0@ == secret,
                        Err(e) => r == Err::<Vec<u8>, KeystoreError>(e),
                    }
                },
            }
        }),
{
}

/// Every error has its own message, with all that it carries in it; of a
/// software error it starts with what it is.
pub proof fn law_every_error_has_its_message(e: &KeystoreError, r: String)
    requires
        call_ensures(KeystoreError::message, (e,), r),
    ensures
        match *e {
            KeystoreError::NotSupported => r@ == "Operation not supported"@,
            KeystoreError::KeyNotFound => r@ == "Key not found!"@,
            KeystoreError::KeyAlreadyExists => r@ == "Key already exists!"@,
            KeystoreError::BadKeyType(KeyType::Rsa(bits)) => r@ == "Bad key type "@ + ("Rsa("@
                + decimal(bits as nat) + ")"@),
            KeystoreError::BadKeyType(KeyType::Aes(bits)) => r@ == "Bad key type "@ + ("Aes("@
                + decimal(bits as nat) + ")"@),
            KeystoreError::BadKeyType(KeyType::Ec(EcCurve::P256)) => r@ == "Bad key type "@
                + "Ec(P256)"@,
            KeystoreError::BadKeyType(KeyType::Ec(EcCurve::P384)) => r@ == "Bad key type "@
                + "Ec(P384)"@,
            KeystoreError::KeystoreLocked => r@ == "Keystore locked!"@,
            KeystoreError::KeyUnrecoverable => r@ == "Key not recoverable!"@,
            KeystoreError::SoftwareError(_) => r@.take("Software error "@.len() as int)
                == "Software error "@,
            KeystoreError::KeystoreError(m) => r@ == "Keystore error "@ + m@,
        },
{
    if e is SoftwareError {
        assert(r@.take("Software error "@.len() as int) =~= "Software error "@);
    }
}

/// The name of a kind of key holds its size or its curve.
pub proof fn law_every_kind_of_key_has_its_name(t: &KeyType, r: String)
    requires
        call_ensures(KeyType::name, (t,), r),
    ensures
        match *t {
            KeyType::Rsa(bits) => r@ == "Rsa("@ + decimal(bits as nat) + ")"@,
            KeyType::Aes(bits) => r@ == "Aes("@ + decimal(bits as nat) + ")"@,
            KeyType::Ec(EcCurve::P256) => r@ == "Ec(P256)"@,
            KeyType::Ec(EcCurve::P384) => r@ == "Ec(P384)"@,
        },
{
}

/// The message of a software error holds the whole of what OpenSSL says.
pub proof fn law_software_message_holds_the_text(text: &str, r: String)
    requires
        call_ensures(software_message, (text,), r),
    ensures
        r@ == "Software error "@ + text@,
{
}

/// The default rules list nothing and allow nothing.
pub proof fn law_default_rules_allow_nothing(r: KeystoreAccessRules)
    requires
        call_ensures(KeystoreAccessRules::default, (), r),
    ensures
        r.block_modes@.len() == 0,
        r.digests@.len() == 0,
        r.encryption_paddings@.len() == 0,
        r.mgf1_digests@.len() == 0,
        r.signature_padding@.len() == 0,
        !r.require_user && !r.can_agree && !r.can_sign && !r.can_encrypt && !r.can_decrypt,
{
    assert(r@.block_modes == r.block_modes@);
}

/// The view of access rules holds every field of them.
pub proof fn law_view_of_rules_holds_every_field(rules: KeystoreAccessRules)
    ensures
        rules@.block_modes == rules.block_modes@,
        rules@.digests == rules.digests@,
        rules@.encryption_paddings == rules.encryption_paddings@,
        rules@.mgf1_digests == rules.mgf1_digests@,
        rules@.signature_padding == rules.signature_padding@,
        rules@.require_user == rules.require_user,
        rules@.can_agree == rules.can_agree,
        rules@.can_sign == rules.can_sign,
        rules@.can_encrypt == rules.can_encrypt,
        rules@.can_decrypt == rules.can_decrypt,
{
}

} // verus!

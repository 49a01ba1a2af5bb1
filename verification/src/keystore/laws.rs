//! What holds of every keystore, whatever it answers.
use crate::keystore::calls::{
    ensure_exists_calls, ensure_exists_outcome, ensure_secret_calls, ensure_secret_outcome,
    new_alias, overwrite_calls, KeystoreCall,
};
use crate::keystore::keys::{
    import_der_calls, imported_outcome, imported_rsa_alias, ALIAS_DIGEST_BYTES,
};
use crate::keystore::types::{AccessRules, KeyType, KeystoreError};
use crate::outside::sha256;
use crate::text::{decimal, hex, law_decimal_is_injective, law_hex_is_injective};
use vstd::prelude::*;

verus! {

/// Importing the same key twice asks for the same alias both times, and leads
/// to the same key where the keystore, each time, takes the key or reports that
/// it is there already.
pub proof fn law_importing_again_is_a_no_op(
    der: Seq<u8>,
    first: Result<(), KeystoreError>,
    second: Result<(), KeystoreError>,
)
    requires
        first is Ok || first == Err::<(), KeystoreError>(KeystoreError::KeyAlreadyExists),
        second is Ok || second == Err::<(), KeystoreError>(KeystoreError::KeyAlreadyExists),
    ensures
        import_der_calls(der, first)[0]->ImportKey_alias == import_der_calls(
            der,
            second,
        )[0]->ImportKey_alias,
        imported_outcome(imported_rsa_alias(sha256(der)), first) == Ok::<Seq<char>, KeystoreError>(
            imported_rsa_alias(sha256(der)),
        ),
        imported_outcome(imported_rsa_alias(sha256(der)), second) == imported_outcome(
            imported_rsa_alias(sha256(der)),
            first,
        ),
{
}

/// An import fails exactly where the keystore reports an error other than that
/// the key is there already, and then with that error.
pub proof fn law_import_fails_only_as_the_keystore_does(
    alias: Seq<char>,
    reply: Result<(), KeystoreError>,
    e: KeystoreError,
)
    ensures
        imported_outcome(alias, reply) == Err::<Seq<char>, KeystoreError>(e) <==> reply == Err::<
            (),
            KeystoreError,
        >(e) && e !is KeyAlreadyExists,
{
}

/// Two imported keys share an alias exactly where their digests start alike.
pub proof fn law_alias_tells_digests_apart(a: Seq<u8>, b: Seq<u8>)
    ensures
        imported_rsa_alias(a) == imported_rsa_alias(b) <==> a.take(ALIAS_DIGEST_BYTES as int)
            == b.take(ALIAS_DIGEST_BYTES as int),
{
    let p = "imported:rsa:"@;
    let x = hex(a.take(ALIAS_DIGEST_BYTES as int), false);
    let y = hex(b.take(ALIAS_DIGEST_BYTES as int), false);
    if p + x == p + y {
        assert((p + x).skip(p.len() as int) =~= x);
        assert((p + y).skip(p.len() as int) =~= y);
        law_hex_is_injective(
            a.take(ALIAS_DIGEST_BYTES as int),
            b.take(ALIAS_DIGEST_BYTES as int),
            false,
        );
    }
}

/// New keys with the same prefix share an alias only where they share the
/// number.
pub proof fn law_new_aliases_tell_numbers_apart(prefix: Seq<char>, n: u64, m: u64)
    requires
        new_alias(prefix, n) == new_alias(prefix, m),
    ensures
        n == m,
{
    let p = prefix + ":"@;
    let x = decimal(n as nat);
    let y = decimal(m as nat);
    assert((p + x).skip(p.len() as int) =~= x);
    assert((p + y).skip(p.len() as int) =~= y);
    law_decimal_is_injective(n as nat, m as nat);
}

/// Making sure of a key never destroys one, and creates one only where the
/// keystore said that there is none.
pub proof fn law_ensuring_a_key_spares_what_is_there(
    alias: Seq<char>,
    key_type: KeyType,
    access_rules: AccessRules,
    found: Result<Option<KeyType>, KeystoreError>,
    created: Result<(), KeystoreError>,
    i: int,
)
    requires
        0 <= i < ensure_exists_calls(alias, key_type, access_rules, found, created).len(),
    ensures
        ({
            let call = ensure_exists_calls(alias, key_type, access_rules, found, created)[i];
            &&& call is GetKeyType || call is CreateKey
            &&& call is CreateKey ==> found == Ok::<Option<KeyType>, KeystoreError>(None)
            &&& call is GetKeyType <==> i == 0
            &&& call is GetKeyType ==> {
                &&& call->GetKeyType_alias == alias
                &&& call->GetKeyType_result == found
            }
            &&& call is CreateKey ==> {
                &&& call->CreateKey_alias == alias
                &&& call->CreateKey_key_type == key_type
                &&& call->CreateKey_access_rules == access_rules
                &&& call->CreateKey_result == created
            }
        }),
        found == Ok::<Option<KeyType>, KeystoreError>(None) ==> ensure_exists_calls(
            alias,
            key_type,
            access_rules,
            found,
            created,
        ).len() == 2,
{
}

/// A key that is there is enough: making sure of it again asks once and
/// changes nothing.
pub proof fn law_ensuring_an_existing_key_only_asks(
    alias: Seq<char>,
    key_type: KeyType,
    access_rules: AccessRules,
    held: KeyType,
    created: Result<(), KeystoreError>,
)
    ensures
        ensure_exists_calls(alias, key_type, access_rules, Ok(Some(held)), created) == seq![
            KeystoreCall::GetKeyType { alias, result: Ok(Some(held)) },
        ],
        ensure_exists_outcome(Ok(Some(held)), created) == Ok::<(), KeystoreError>(()),
{
}

/// Replacing a key destroys before it creates, and creates nothing where the
/// keystore refuses to destroy.
pub proof fn law_overwriting_destroys_first(
    alias: Seq<char>,
    key_type: KeyType,
    access_rules: AccessRules,
    destroyed: Result<(), KeystoreError>,
    created: Result<(), KeystoreError>,
    i: int,
)
    requires
        0 <= i < overwrite_calls(alias, key_type, access_rules, destroyed, created).len(),
    ensures
        ({
            let calls = overwrite_calls(alias, key_type, access_rules, destroyed, created);
            &&& calls[0] == KeystoreCall::DestroyKey { alias, result: destroyed }
            &&& i > 0 ==> calls[i] is CreateKey && destroyed is Ok
            &&& i > 0 ==> {
                &&& calls[i]->CreateKey_alias == alias
                &&& calls[i]->CreateKey_key_type == key_type
                &&& calls[i]->CreateKey_access_rules == access_rules
                &&& calls[i]->CreateKey_result == created
            }
            &&& calls.len() == if destroyed is Ok {
                2int
            } else {
                1int
            }
        }),
{
}

/// Once a secret was made sure of, making sure of it again gives the same
/// secret whatever length is asked for, and stores nothing, on a keystore that
/// still has what it had or took.
pub proof fn law_ensured_secret_is_stable(
    alias: Seq<char>,
    len: usize,
    found: Result<Option<Vec<u8>>, KeystoreError>,
    fresh: Seq<u8>,
    stored: Result<(), KeystoreError>,
    held: Vec<u8>,
    other_len: usize,
    other_fresh: Seq<u8>,
    other_stored: Result<(), KeystoreError>,
)
    requires
        ensure_secret_outcome(len, found, fresh, stored) is Ok,
        held@ == (match found {
            Ok(Some(secret)) => secret@,
            _ => fresh,
        }),
    ensures
        ensure_secret_outcome(other_len, Ok(Some(held)), other_fresh, other_stored)
            == ensure_secret_outcome(len, found, fresh, stored),
        ensure_secret_calls(alias, other_len, Ok(Some(held)), other_fresh, other_stored) == seq![
            KeystoreCall::GetSecret { alias, result: Ok(Some(held)) },
        ],
{
}

/// A secret that is handed out is one that the keystore had or took.
pub proof fn law_secret_is_never_handed_out_unstored(
    alias: Seq<char>,
    len: usize,
    found: Result<Option<Vec<u8>>, KeystoreError>,
    fresh: Seq<u8>,
    stored: Result<(), KeystoreError>,
    secret: Seq<u8>,
)
    requires
        ensure_secret_outcome(len, found, fresh, stored) == Ok::<Seq<u8>, KeystoreError>(secret),
    ensures
        ({
            ||| found matches Ok(Some(held)) && held@ == secret
            ||| stored is Ok && ensure_secret_calls(alias, len, found, fresh, stored)[1]
                == (KeystoreCall::SetSecret { alias, secret, result: stored })
        }),
{
}

} // verus!

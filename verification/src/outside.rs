//! The calls into other crates, and into parts of the standard library that
//! have no specification of their own. Each contract here is taken on trust.
use base64::Engine;
use rand::RngCore;
use sha2::Digest;
use vstd::prelude::*;
use vstd::utf8::{decode_utf8, is_ascii_chars, valid_utf8};

verus! {

/// The SHA-256 digest of `data`.
pub uninterp spec fn sha256(data: Seq<u8>) -> Seq<u8>;

/// `sha2::Sha256::digest`: the digest depends on the data alone and has 32
/// bytes.
#[verifier::external_body]
pub(crate) fn sha256_digest(data: &[u8]) -> (r: Vec<u8>)
    ensures
        r@ == sha256(data@),
        r@.len() == 32,
{
    sha2::Sha256::digest(data).to_vec()
}

/// `rand::RngCore::fill_bytes` on the generator of this thread: every byte is
/// replaced, and the number of bytes stays. Nothing is said of their values,
/// which are random.
#[verifier::external_body]
pub(crate) fn fill_random(bytes: &mut Vec<u8>)
    ensures
        final(bytes)@.len() == old(bytes)@.len(),
{
    rand::thread_rng().fill_bytes(bytes);
}

/// `rand::RngCore::next_u64` on the generator of this thread. Nothing is said
/// of the number, which is random.
#[verifier::external_body]
pub(crate) fn random_u64() -> (n: u64) {
    rand::thread_rng().next_u64()
}

/// The standard Base64 encoding, with padding, of `data`.
pub uninterp spec fn base64_encoded(data: Seq<u8>) -> Seq<char>;

/// What a standard Base64 text, with padding, encodes; `None` where the text
/// is not one.
pub uninterp spec fn base64_decoded(text: Seq<char>) -> Option<Seq<u8>>;

/// Whether the encoding of `len` bytes fits in memory.
pub open spec fn base64_fits(len: nat) -> bool {
    (len + 2) / 3 * 4 <= isize::MAX
}

/// `base64::engine::general_purpose::STANDARD.encode`: the text depends on the
/// data alone, and decoding it gives the data back.
#[verifier::external_body]
pub(crate) fn base64_encode(data: &[u8]) -> (r: String)
    requires
        base64_fits(data@.len()),
    ensures
        r@ == base64_encoded(data@),
        base64_decoded(r@) == Some(data@),
{
    base64::engine::general_purpose::STANDARD.encode(data)
}

/// `base64::engine::general_purpose::STANDARD.decode`: the outcome depends on
/// the text alone.
#[verifier::external_body]
pub(crate) fn base64_decode(text: &str) -> (r: Option<Vec<u8>>)
    ensures
        match r {
            Some(v) => base64_decoded(text@) == Some(v@),
            None => base64_decoded(text@) is None,
        },
{
    base64::engine::general_purpose::STANDARD.decode(text).ok()
}

/// The text of a random UUID in lower case: five groups of hexadecimal digits,
/// with the version 4 and the variant of RFC 9562 in place.
pub open spec fn uuid_v4_text(s: Seq<char>) -> bool {
    &&& s.len() == 36
    &&& s[8] == '-' && s[13] == '-' && s[18] == '-' && s[23] == '-'
    &&& forall|i: int|
        0 <= i < 36 && i != 8 && i != 13 && i != 18 && i != 23 ==> ('0' <= #[trigger] s[i] <= '9'
            || 'a' <= s[i] <= 'f')
    &&& s[14] == '4'
    &&& (s[19] == '8' || s[19] == '9' || s[19] == 'a' || s[19] == 'b')
}

/// `uuid::Uuid::new_v4` and its `Display`: the shape of the text is fixed, its
/// other digits are random.
#[verifier::external_body]
pub(crate) fn random_uuid() -> (r: String)
    ensures
        uuid_v4_text(r@),
{
    uuid::Uuid::new_v4().to_string()
}

/// The upper case of `s`, by the Unicode tables.
pub uninterp spec fn uppercase(s: Seq<char>) -> Seq<char>;

/// The upper case of a text of ASCII characters.
pub open spec fn ascii_uppercase(s: Seq<char>) -> Seq<char> {
    Seq::new(
        s.len(),
        |i: int|
            if 'a' <= s[i] <= 'z' {
                (s[i] as int - 32) as char
            } else {
                s[i]
            },
    )
}

/// `str::to_uppercase`: the result depends on the text alone, and on ASCII
/// text only the letters from a to z change.
#[verifier::external_body]
pub(crate) fn to_uppercase(s: &str) -> (r: String)
    ensures
        r@ == uppercase(s@),
        is_ascii_chars(s@) ==> r@ == ascii_uppercase(s@),
{
    s.to_uppercase()
}

/// `String::push`: the character stands at the end, behind what was there.
#[verifier::external_body]
pub(crate) fn push_char(s: &mut String, c: char)
    ensures
        final(s)@ == old(s)@.push(c),
{
    s.push(c);
}

/// `String::from_utf8`: the text that the bytes encode, or
/// `None` where they are not valid UTF-8.
#[verifier::external_body]
pub(crate) fn utf8_text(bytes: &[u8]) -> (r: Option<String>)
    ensures
        r matches Some(s) ==> valid_utf8(bytes@) && s@ == decode_utf8(bytes@),
        r is None ==> !valid_utf8(bytes@),
{
    String::from_utf8(bytes.to_vec()).ok()
}

/// The text of `bytes`, with a replacement character for what is not UTF-8.
pub uninterp spec fn lossy_text(bytes: Seq<u8>) -> Seq<char>;

/// `String::from_utf8_lossy`: the result depends on the bytes alone, and valid
/// UTF-8 is decoded as it stands.
#[verifier::external_body]
pub(crate) fn utf8_lossy(bytes: &[u8]) -> (r: String)
    ensures
        r@ == lossy_text(bytes@),
        valid_utf8(bytes@) ==> r@ == decode_utf8(bytes@),
{
    String::from_utf8_lossy(bytes).into_owned()
}

/// A property-list dictionary of the `plist` crate.
#[verifier::external_type_specification]
#[verifier::external_body]
pub struct ExDictionary(plist::Dictionary);

/// A property-list value of the kinds that are written here.
pub enum PlistValue {
    String(String),
    Integer(i64),
}

/// A property-list value, for contracts.
pub enum PlistData {
    String(Seq<char>),
    Integer(int),
}

impl View for PlistValue {
    type V = PlistData;

    open spec fn view(&self) -> PlistData {
        match self {
            PlistValue::String(s) => PlistData::String(s@),
            PlistValue::Integer(n) => PlistData::Integer(*n as int),
        }
    }
}

/// What a dictionary holds under each key.
pub uninterp spec fn dictionary_entries(d: plist::Dictionary) -> Map<Seq<char>, PlistData>;

/// `plist::Dictionary::new`: a dictionary without entries.
#[verifier::external_body]
pub(crate) fn dictionary_new() -> (d: plist::Dictionary)
    ensures
        dictionary_entries(d).dom() == Set::<Seq<char>>::empty(),
{
    plist::Dictionary::new()
}

/// `plist::Dictionary::insert`: the value stands under the key, in place of an
/// earlier one, and the other entries stay.
#[verifier::external_body]
pub(crate) fn dictionary_insert(d: &mut plist::Dictionary, key: &str, value: PlistValue)
    ensures
        dictionary_entries(*final(d)) == dictionary_entries(*old(d)).insert(key@, value@),
{
    let value = match value {
        PlistValue::String(s) => plist::Value::String(s),
        PlistValue::Integer(n) => plist::Value::Integer(n.into()),
    };
    d.insert(key.to_string(), value);
}

/// The errors that the `openssl` crate reports, carried through as they are.
#[verifier::external_type_specification]
#[verifier::external_body]
pub struct ExErrorStack(openssl::error::ErrorStack);

/// The `Display` of `openssl::error::ErrorStack`. Nothing is said of the text:
/// the stack is opaque here.
#[verifier::external_body]
pub(crate) fn error_stack_text(e: &openssl::error::ErrorStack) -> (r: String) {
    e.to_string()
}

} // verus!

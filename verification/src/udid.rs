//! The client UDID: 32 random bytes in upper-case hexadecimal.
use crate::outside::fill_random;
use crate::text::{encode_hex_upper, hex, lemma_hex_digits};
use vstd::prelude::*;

verus! {

/// Number of characters of a UDID.
pub const UDID_CHARS: usize = 64;

/// An upper-case hexadecimal digit.
pub open spec fn upper_hex_digit(c: char) -> bool {
    '0' <= c <= '9' || 'A' <= c <= 'F'
}

/// The shape of an OpenBubbles UDID: 64 upper-case hexadecimal digits.
pub open spec fn openbubbles_shaped(s: Seq<char>) -> bool {
    &&& s.len() == UDID_CHARS
    &&& forall|i: int| 0 <= i < s.len() ==> upper_hex_digit(#[trigger] s[i])
}

/// Whether `udid` has the shape of an OpenBubbles UDID.
pub fn is_openbubbles_shaped_udid(udid: &str) -> (r: bool)
    ensures
        r == openbubbles_shaped(udid@),
{
    let mut n: usize = 0;
    for c in it: udid.chars()
        invariant
            it.seq() == udid@,
            n == it.index(),
            n <= UDID_CHARS,
            forall|i: int| 0 <= i < n ==> upper_hex_digit(#[trigger] udid@[i]),
    {
        let hex_digit = ('0' <= c && c <= '9') || ('A' <= c && c <= 'F');
        if n == UDID_CHARS || !hex_digit {
            assert(udid@[n as int] == c);
            return false;
        }
        n = n + 1;
    }
    n == UDID_CHARS
}

/// The upper-case hexadecimal of any 32 bytes has the shape of a UDID.
pub proof fn law_hex_of_32_bytes_is_shaped(bytes: Seq<u8>)
    requires
        bytes.len() == 32,
    ensures
        openbubbles_shaped(hex(bytes, true)),
{
    let s = hex(bytes, true);
    assert forall|i: int| 0 <= i < s.len() implies upper_hex_digit(#[trigger] s[i]) by {
        lemma_hex_digits(bytes, i / 2, true);
        assert(i == 2 * (i / 2) || i == 2 * (i / 2) + 1);
    }
}

/// A text with a hyphen in it, such as a dashed UUID, does not have the shape
/// of a UDID.
pub proof fn law_dashed_is_not_shaped(s: Seq<char>, i: int)
    requires
        0 <= i < s.len(),
        s[i] == '-',
    ensures
        !openbubbles_shaped(s),
{
    assert(!upper_hex_digit(s[i]));
}

/// A UDID is not the device id, unless the device id has the shape of a UDID
/// itself.
pub proof fn law_udid_is_not_the_device_id(udid: Seq<char>, device_id: Seq<char>)
    requires
        openbubbles_shaped(udid),
        !openbubbles_shaped(device_id),
    ensures
        udid != device_id,
{
}

/// A fresh UDID. Its digits are random; its shape is not.
pub fn generate_udid() -> (r: String)
    ensures
        openbubbles_shaped(r@),
{
    let mut bytes: Vec<u8> = vec![0u8; 32];
    fill_random(&mut bytes);
    proof {
        law_hex_of_32_bytes_is_shaped(bytes@);
    }
    encode_hex_upper(bytes.as_slice())
}

} // verus!

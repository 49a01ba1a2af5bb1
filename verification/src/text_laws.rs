//! What holds of every text that is written and read: digits spell what they
//! stand for, and white space divides.
use crate::text::{
    before_white_space, decimal, decimal_text, digit_char, encode_hex, encode_hex_upper, first_word,
    is_white_space, lemma_hex_digits, trim, trimmed_end, trimmed_start, white_space,
};
use crate::udid::{generate_udid, is_openbubbles_shaped_udid, openbubbles_shaped, upper_hex_digit};
use vstd::prelude::*;

verus! {

proof fn lemma_digit_of_alphabet(d: int)
    requires
        0 <= d < 16,
    ensures
        "0123456789abcdef"@.len() == 16,
        "0123456789ABCDEF"@.len() == 16,
        "0123456789abcdef"@[d] == digit_char(d, false),
        "0123456789ABCDEF"@[d] == digit_char(d, true),
{
    reveal_strlit("0123456789abcdef");
    reveal_strlit("0123456789ABCDEF");
}

/// Every byte is written as its two hexadecimal digits, the high one first, and
/// nothing else is written.
pub proof fn law_hex_digits_spell_the_bytes(bytes: &[u8], lower: String, upper: String)
    requires
        call_ensures(encode_hex, (bytes,), lower),
        call_ensures(encode_hex_upper, (bytes,), upper),
    ensures
        lower@.len() == 2 * bytes@.len(),
        upper@.len() == 2 * bytes@.len(),
        forall|i: int|
            0 <= i < bytes@.len() ==> {
                &&& lower@[2 * i] == "0123456789abcdef"@[(#[trigger] bytes@[i]) as int / 16]
                &&& lower@[2 * i + 1] == "0123456789abcdef"@[bytes@[i] as int % 16]
                &&& upper@[2 * i] == "0123456789ABCDEF"@[bytes@[i] as int / 16]
                &&& upper@[2 * i + 1] == "0123456789ABCDEF"@[bytes@[i] as int % 16]
            },
{
    assert forall|i: int| 0 <= i < bytes@.len() implies {
        &&& lower@[2 * i] == "0123456789abcdef"@[(#[trigger] bytes@[i]) as int / 16]
        &&& lower@[2 * i + 1] == "0123456789abcdef"@[bytes@[i] as int % 16]
        &&& upper@[2 * i] == "0123456789ABCDEF"@[bytes@[i] as int / 16]
        &&& upper@[2 * i + 1] == "0123456789ABCDEF"@[bytes@[i] as int % 16]
    } by {
        lemma_hex_digits(bytes@, i, false);
        lemma_hex_digits(bytes@, i, true);
        lemma_digit_of_alphabet(bytes@[i] as int / 16);
        lemma_digit_of_alphabet(bytes@[i] as int % 16);
    }
}

/// The number that decimal digits spell.
pub open spec fn digits_value(s: Seq<char>) -> int
    decreases s.len(),
{
    if s.len() == 0 {
        0
    } else {
        10 * digits_value(s.drop_last()) + (s.last() as int - '0' as int)
    }
}

proof fn lemma_decimal(n: nat)
    ensures
        decimal(n).len() > 0,
        digits_value(decimal(n)) == n,
        forall|i: int| 0 <= i < decimal(n).len() ==> '0' <= #[trigger] decimal(n)[i] <= '9',
        n > 0 ==> decimal(n)[0] != '0',
        n < 10 ==> decimal(n).len() == 1,
    decreases n,
{
    if n < 10 {
        assert(decimal(n).drop_last() =~= Seq::<char>::empty());
        assert(digits_value(Seq::<char>::empty()) == 0);
    } else {
        lemma_decimal(n / 10);
        assert(decimal(n).drop_last() =~= decimal(n / 10));
        assert forall|i: int| 0 <= i < decimal(n).len() implies '0' <= #[trigger] decimal(n)[i]
            <= '9' by {
            if i < decimal(n).len() - 1 {
                assert(decimal(n)[i] == decimal(n / 10)[i]);
            }
        }
        assert(decimal(n)[0] == decimal(n / 10)[0]);
    }
}

/// A number is written in decimal digits that spell it, without a leading zero.
pub proof fn law_decimal_digits_spell_the_number(n: u64, s: String)
    requires
        call_ensures(decimal_text, (n,), s),
    ensures
        s@ == decimal(n as nat),
        s@.len() > 0,
        digits_value(s@) == n,
        forall|i: int| 0 <= i < s@.len() ==> '0' <= #[trigger] s@[i] <= '9',
        s@[0] == '0' ==> s@.len() == 1,
{
    lemma_decimal(n as nat);
}

proof fn lemma_first_word(s: Seq<char>)
    ensures
        first_word(s).len() <= s.len(),
        first_word(s) == s.take(first_word(s).len() as int),
        forall|i: int| 0 <= i < first_word(s).len() ==> !white_space(#[trigger] s[i]),
        first_word(s).len() < s.len() ==> white_space(s[first_word(s).len() as int]),
    decreases s.len(),
{
    if s.len() == 0 || white_space(s[0]) {
        assert(s.take(0) =~= Seq::<char>::empty());
    } else {
        let rest = s.drop_first();
        lemma_first_word(rest);
        let n = first_word(rest).len();
        assert(first_word(s) =~= s.take((n + 1) as int));
        assert forall|i: int| 0 <= i < n + 1 implies !white_space(#[trigger] s[i]) by {
            if i > 0 {
                assert(s[i] == rest[i - 1]);
            }
        }
        if n < rest.len() {
            assert(s[(n + 1) as int] == rest[n as int]);
        }
    }
}

/// A text is divided at its first white space: what is given stands in front of
/// it, whole and without white space, and nothing is given where there is none.
pub proof fn law_first_word_ends_at_the_first_white_space(s: &str, r: Option<String>)
    requires
        call_ensures(before_white_space, (s,), r),
    ensures
        match r {
            Some(w) => {
                &&& w@.len() < s@.len()
                &&& w@ == s@.take(w@.len() as int)
                &&& forall|i: int| 0 <= i < w@.len() ==> !white_space(#[trigger] w@[i])
                &&& white_space(s@[w@.len() as int])
            },
            None => forall|i: int| 0 <= i < s@.len() ==> !white_space(#[trigger] s@[i]),
        },
{
    lemma_first_word(s@);
    if let Some(w) = r {
        let n = first_word(s@).len();
        assert(w@ == first_word(s@));
        assert forall|i: int| 0 <= i < w@.len() implies !white_space(#[trigger] w@[i]) by {
            assert(w@[i] == s@.take(n as int)[i]);
            assert(w@[i] == s@[i]);
        }
    }
}

/// White space is told by the number of the character.
pub proof fn law_white_space_is_told_by_its_number(c: char, r: bool)
    requires
        call_ensures(is_white_space, (c,), r),
    ensures
        r == white_space(c),
        r == (0x09 <= c as u32 <= 0x0d || c as u32 == 0x20 || c as u32 == 0x85 || c as u32 == 0xa0
            || c as u32 == 0x1680 || 0x2000 <= c as u32 <= 0x200a || c as u32 == 0x2028 || c as u32
            == 0x2029 || c as u32 == 0x202f || c as u32 == 0x205f || c as u32 == 0x3000),
{
}

proof fn lemma_trimmed_start(s: Seq<char>) -> (n: nat)
    ensures
        n <= s.len(),
        trimmed_start(s) == s.skip(n as int),
        forall|i: int| 0 <= i < n ==> white_space(#[trigger] s[i]),
        n < s.len() ==> !white_space(s[n as int]),
    decreases s.len(),
{
    if s.len() > 0 && white_space(s[0]) {
        let rest = s.drop_first();
        let m = lemma_trimmed_start(rest);
        assert(rest.skip(m as int) =~= s.skip((m + 1) as int));
        assert forall|i: int| 0 <= i < m + 1 implies white_space(#[trigger] s[i]) by {
            if i > 0 {
                assert(s[i] == rest[i - 1]);
            }
        }
        if m < rest.len() {
            assert(s[(m + 1) as int] == rest[m as int]);
        }
        m + 1
    } else {
        assert(s.skip(0) =~= s);
        0
    }
}

proof fn lemma_trimmed_end(s: Seq<char>) -> (n: nat)
    ensures
        n <= s.len(),
        trimmed_end(s) == s.take(n as int),
        forall|i: int| n <= i < s.len() ==> white_space(#[trigger] s[i]),
        n > 0 ==> !white_space(s[n - 1]),
    decreases s.len(),
{
    if s.len() > 0 && white_space(s.last()) {
        let rest = s.drop_last();
        let m = lemma_trimmed_end(rest);
        assert(rest.take(m as int) =~= s.take(m as int));
        assert forall|i: int| m <= i < s.len() implies white_space(#[trigger] s[i]) by {
            if i < s.len() - 1 {
                assert(s[i] == rest[i]);
            }
        }
        if m > 0 {
            assert(s[m - 1] == rest[m - 1]);
        }
        m
    } else {
        assert(s.take(s.len() as int) =~= s);
        s.len()
    }
}

/// Trimming takes white space from both ends and nothing else: what is left
/// neither starts nor ends with white space.
pub proof fn law_trimming_takes_only_white_space_at_the_ends(s: &str, r: &str)
    requires
        call_ensures(trim, (s,), r),
    ensures
        exists|a: int, b: int|
            {
                &&& 0 <= a <= b <= s@.len()
                &&& r@ == #[trigger] s@.subrange(a, b)
                &&& forall|i: int| 0 <= i < a ==> white_space(#[trigger] s@[i])
                &&& forall|i: int| b <= i < s@.len() ==> white_space(#[trigger] s@[i])
            },
        r@.len() > 0 ==> !white_space(r@[0]) && !white_space(r@.last()),
{
    let n = lemma_trimmed_start(s@);
    let rest = s@.skip(n as int);
    let m = lemma_trimmed_end(rest);
    assert(r@ =~= s@.subrange(n as int, (n + m) as int));
    assert forall|i: int| n + m <= i < s@.len() implies white_space(#[trigger] s@[i]) by {
        assert(s@[i] == rest[i - n]);
    }
    if m > 0 {
        assert(r@.last() == rest[m - 1]);
        assert(r@[0] == s@[n as int]);
    }
}

/// A UDID is told by its 64 characters, each an upper-case hexadecimal digit.
pub proof fn law_udid_has_64_upper_case_digits(s: &str, r: bool)
    requires
        call_ensures(is_openbubbles_shaped_udid, (s,), r),
    ensures
        r <==> s@.len() == 64 && forall|i: int|
            0 <= i < s@.len() ==> "0123456789ABCDEF"@.contains(#[trigger] s@[i]),
{
    lemma_upper_alphabet();
    assert forall|i: int| 0 <= i < s@.len() implies upper_hex_digit(s@[i])
        == "0123456789ABCDEF"@.contains(#[trigger] s@[i]) by {}
}

proof fn lemma_upper_alphabet()
    ensures
        forall|c: char| #[trigger] upper_hex_digit(c) == "0123456789ABCDEF"@.contains(c),
{
    reveal_strlit("0123456789ABCDEF");
    let t = "0123456789ABCDEF"@;
    assert forall|c: char| #[trigger] upper_hex_digit(c) == t.contains(c) by {
        if '0' <= c <= '9' {
            assert(t[c as int - '0' as int] == c);
        }
        if 'A' <= c <= 'F' {
            assert(t[c as int - 'A' as int + 10] == c);
        }
    }
}

/// A fresh UDID is taken for one, so that nobody who has one gets another.
pub proof fn law_fresh_udid_is_taken_for_one(fresh: String, again: &str, r: bool)
    requires
        call_ensures(generate_udid, (), fresh),
        again@ == fresh@,
        call_ensures(is_openbubbles_shaped_udid, (again,), r),
    ensures
        r,
        fresh@.len() == 64,
        forall|i: int| 0 <= i < fresh@.len() ==> "0123456789ABCDEF"@.contains(#[trigger] fresh@[i]),
{
    lemma_upper_alphabet();
    assert(openbubbles_shaped(fresh@));
    assert forall|i: int| 0 <= i < fresh@.len() implies "0123456789ABCDEF"@.contains(
        #[trigger] fresh@[i],
    ) by {
        assert(upper_hex_digit(fresh@[i]));
    }
}

} // verus!

//! Text that the rest of the library writes and reads: hexadecimal and decimal
//! digits, and white space.
use crate::outside::push_char;
use vstd::prelude::*;

verus! {

/// One digit of a number in base sixteen or below.
pub open spec fn digit_char(d: int, upper: bool) -> char {
    if d < 10 {
        ('0' as int + d) as char
    } else if upper {
        ('A' as int + d - 10) as char
    } else {
        ('a' as int + d - 10) as char
    }
}

/// Two hexadecimal digits for each byte, the high half first.
pub open spec fn hex(bytes: Seq<u8>, upper: bool) -> Seq<char> {
    Seq::new(
        2 * bytes.len(),
        |i: int|
            digit_char(
                if i % 2 == 0 {
                    (bytes[i / 2] / 16) as int
                } else {
                    (bytes[i / 2] % 16) as int
                },
                upper,
            ),
    )
}

fn digit(d: u8, upper: bool) -> (c: char)
    requires
        d < 16,
    ensures
        c == digit_char(d as int, upper),
{
    if d < 10 {
        (48 + d) as char
    } else if upper {
        (65 + (d - 10)) as char
    } else {
        (97 + (d - 10)) as char
    }
}

fn write_hex(bytes: &[u8], upper: bool) -> (s: String)
    ensures
        s@ == hex(bytes@, upper),
{
    let mut s = String::new();
    let mut i: usize = 0;
    while i < bytes.len()
        invariant
            i <= bytes@.len(),
            s@ =~= hex(bytes@.take(i as int), upper),
        decreases bytes@.len() - i,
    {
        let b = bytes[i];
        push_char(&mut s, digit(b / 16, upper));
        push_char(&mut s, digit(b % 16, upper));
        i = i + 1;
    }
    assert(bytes@.take(i as int) =~= bytes@);
    s
}

/// Lower-case hexadecimal.
pub fn encode_hex(bytes: &[u8]) -> (s: String)
    ensures
        s@ == hex(bytes@, false),
{
    write_hex(bytes, false)
}

/// Upper-case hexadecimal.
pub fn encode_hex_upper(bytes: &[u8]) -> (s: String)
    ensures
        s@ == hex(bytes@, true),
{
    write_hex(bytes, true)
}

proof fn lemma_digit_char(d: int, upper: bool)
    requires
        0 <= d < 16,
    ensures
        digit_char(d, upper) as int == (if d < 10 {
            48 + d
        } else if upper {
            55 + d
        } else {
            87 + d
        }),
{
}

pub proof fn lemma_hex_digits(bytes: Seq<u8>, i: int, upper: bool)
    requires
        0 <= i < bytes.len(),
    ensures
        hex(bytes, upper)[2 * i] == digit_char((bytes[i] / 16) as int, upper),
        hex(bytes, upper)[2 * i + 1] == digit_char((bytes[i] % 16) as int, upper),
{
    assert((2 * i) / 2 == i && (2 * i) % 2 == 0);
    assert((2 * i + 1) / 2 == i && (2 * i + 1) % 2 == 1);
}

/// Different bytes are written differently.
pub proof fn law_hex_is_injective(a: Seq<u8>, b: Seq<u8>, upper: bool)
    requires
        hex(a, upper) == hex(b, upper),
    ensures
        a == b,
{
    assert(hex(a, upper).len() == 2 * a.len());
    assert(hex(b, upper).len() == 2 * b.len());
    assert forall|i: int| 0 <= i < a.len() implies a[i] == b[i] by {
        lemma_hex_digits(a, i, upper);
        lemma_hex_digits(b, i, upper);
        lemma_digit_char((a[i] / 16) as int, upper);
        lemma_digit_char((b[i] / 16) as int, upper);
        lemma_digit_char((a[i] % 16) as int, upper);
        lemma_digit_char((b[i] % 16) as int, upper);
    }
    assert(a =~= b);
}

/// A number in base ten, without leading zeros.
pub open spec fn decimal(n: nat) -> Seq<char>
    decreases n,
{
    if n < 10 {
        seq![digit_char(n as int, false)]
    } else {
        decimal(n / 10).push(digit_char((n % 10) as int, false))
    }
}

/// Writes a number in base ten.
pub fn decimal_text(n: u64) -> (s: String)
    ensures
        s@ == decimal(n as nat),
    decreases n,
{
    let mut s = if n < 10 {
        String::new()
    } else {
        decimal_text(n / 10)
    };
    push_char(&mut s, digit((n % 10) as u8, false));
    assert(n < 10 ==> s@ =~= decimal(n as nat));
    s
}

/// Different numbers are written differently.
pub proof fn law_decimal_is_injective(n: nat, m: nat)
    requires
        decimal(n) == decimal(m),
    ensures
        n == m,
    decreases n,
{
    lemma_decimal_len(n);
    lemma_decimal_len(m);
    assert(decimal(n).last() == digit_char((n % 10) as int, false));
    assert(decimal(m).last() == digit_char((m % 10) as int, false));
    lemma_digit_char((n % 10) as int, false);
    lemma_digit_char((m % 10) as int, false);
    if n >= 10 && m >= 10 {
        assert(decimal(n).drop_last() =~= decimal(n / 10));
        assert(decimal(m).drop_last() =~= decimal(m / 10));
        law_decimal_is_injective(n / 10, m / 10);
    }
}

proof fn lemma_decimal_len(n: nat)
    ensures
        n < 10 ==> decimal(n).len() == 1,
        n >= 10 ==> decimal(n).len() > 1,
    decreases n,
{
    if n >= 10 {
        lemma_decimal_len(n / 10);
    }
}

/// The characters with the Unicode property White_Space.
pub open spec fn white_space(c: char) -> bool {
    ||| 0x09 <= c as u32 <= 0x0d
    ||| c as u32 == 0x20
    ||| c as u32 == 0x85
    ||| c as u32 == 0xa0
    ||| c as u32 == 0x1680
    ||| 0x2000 <= c as u32 <= 0x200a
    ||| c as u32 == 0x2028
    ||| c as u32 == 0x2029
    ||| c as u32 == 0x202f
    ||| c as u32 == 0x205f
    ||| c as u32 == 0x3000
}

/// Whether `c` is white space.
pub fn is_white_space(c: char) -> (r: bool)
    ensures
        r == white_space(c),
{
    let u = c as u32;
    (0x09 <= u && u <= 0x0d) || u == 0x20 || u == 0x85 || u == 0xa0 || u == 0x1680 || (0x2000 <= u
        && u <= 0x200a) || u == 0x2028 || u == 0x2029 || u == 0x202f || u == 0x205f || u == 0x3000
}

/// The characters of `s` in front of the first white space.
pub open spec fn first_word(s: Seq<char>) -> Seq<char>
    decreases s.len(),
{
    if s.len() == 0 || white_space(s[0]) {
        Seq::empty()
    } else {
        seq![s[0]] + first_word(s.drop_first())
    }
}

/// What stands in front of the first white space, or `None` where there is none.
pub fn before_white_space(s: &str) -> (r: Option<String>)
    ensures
        match r {
            Some(w) => (exists|i: int| 0 <= i < s@.len() && white_space(s@[i])) && w@ == first_word(
                s@,
            ),
            None => forall|i: int| 0 <= i < s@.len() ==> !white_space(#[trigger] s@[i]),
        },
        r is None <==> first_word(s@) == s@,
{
    let mut word = String::new();
    assert(s@.skip(0) =~= s@);
    for c in it: s.chars()
        invariant
            it.seq() == s@,
            word@ == s@.take(it.index() as int),
            forall|i: int| 0 <= i < it.index() ==> !white_space(s@[i]),
            first_word(s@) == word@ + first_word(s@.skip(it.index() as int)),
    {
        if is_white_space(c) {
            assert(s@.skip(it.index() as int)[0] == c);
            assert(word@ + Seq::<char>::empty() =~= word@);
            assert(white_space(s@[it.index() as int]));
            assert(first_word(s@).len() < s@.len());
            return Some(word);
        }
        let ghost k = it.index() as int;
        push_char(&mut word, c);
        proof {
            let rest = s@.skip(k);
            assert(rest[0] == c);
            assert(rest.drop_first() =~= s@.skip(k + 1));
            assert(s@.take(k) + (seq![c] + first_word(s@.skip(k + 1))) =~= s@.take(k).push(c)
                + first_word(s@.skip(k + 1)));
            assert(s@.take(k + 1) =~= s@.take(k).push(c));
        }
    }
    assert(s@.skip(s@.len() as int) =~= Seq::<char>::empty());
    assert(first_word(s@) =~= s@);
    None
}

/// `s` without the white space at its start.
pub open spec fn trimmed_start(s: Seq<char>) -> Seq<char>
    decreases s.len(),
{
    if s.len() > 0 && white_space(s[0]) {
        trimmed_start(s.drop_first())
    } else {
        s
    }
}

/// `s` without the white space at its end.
pub open spec fn trimmed_end(s: Seq<char>) -> Seq<char>
    decreases s.len(),
{
    if s.len() > 0 && white_space(s.last()) {
        trimmed_end(s.drop_last())
    } else {
        s
    }
}

pub proof fn lemma_trim_start(before: Seq<char>, s: Seq<char>)
    requires
        forall|i: int| 0 <= i < before.len() ==> white_space(#[trigger] before[i]),
        s.len() > 0,
        !white_space(s[0]),
    ensures
        trimmed_start(before + s) == s,
    decreases before.len(),
{
    if before.len() == 0 {
        assert(before + s =~= s);
    } else {
        let rest = before.drop_first();
        assert((before + s)[0] == before[0]);
        assert((before + s).drop_first() =~= rest + s);
        assert forall|i: int| 0 <= i < rest.len() implies white_space(#[trigger] rest[i]) by {
            assert(rest[i] == before[i + 1]);
        }
        lemma_trim_start(rest, s);
    }
}

pub proof fn lemma_trim_end(s: Seq<char>, after: Seq<char>)
    requires
        forall|i: int| 0 <= i < after.len() ==> white_space(#[trigger] after[i]),
        s.len() > 0,
        !white_space(s.last()),
    ensures
        trimmed_end(s + after) == s,
    decreases after.len(),
{
    if after.len() == 0 {
        assert(s + after =~= s);
    } else {
        let rest = after.drop_last();
        assert((s + after).last() == after.last());
        assert(white_space(after[after.len() - 1]));
        assert((s + after).drop_last() =~= s + rest);
        assert forall|i: int| 0 <= i < rest.len() implies white_space(#[trigger] rest[i]) by {
            assert(rest[i] == after[i]);
        }
        lemma_trim_end(s, rest);
    }
}

pub proof fn lemma_trim_blank(s: Seq<char>)
    requires
        forall|i: int| 0 <= i < s.len() ==> white_space(#[trigger] s[i]),
    ensures
        trimmed_start(s) == Seq::<char>::empty(),
    decreases s.len(),
{
    if s.len() > 0 {
        let rest = s.drop_first();
        assert forall|i: int| 0 <= i < rest.len() implies white_space(#[trigger] rest[i]) by {
            assert(rest[i] == s[i + 1]);
        }
        lemma_trim_blank(rest);
    }
}

/// `s` without the white space at both ends.
pub fn trim(s: &str) -> (r: &str)
    ensures
        r@ == trimmed_end(trimmed_start(s@)),
{
    let len = s.unicode_len();
    let mut n: usize = 0;
    let mut start: usize = 0;
    let mut end: usize = 0;
    for c in it: s.chars()
        invariant
            it.seq() == s@,
            len == s@.len(),
            n == it.index(),
            start <= n,
            end <= n,
            forall|i: int| 0 <= i < start ==> white_space(#[trigger] s@[i]),
            forall|i: int| end <= i < n ==> white_space(#[trigger] s@[i]),
            end == 0 ==> start == n,
            end > 0 ==> start < end && !white_space(s@[start as int]) && !white_space(s@[end - 1]),
    {
        assert(s@[n as int] == c);
        if is_white_space(c) {
            if end == 0 {
                start = start + 1;
            }
            n = n + 1;
        } else {
            n = n + 1;
            end = n;
        }
    }
    if end == 0 {
        proof {
            lemma_trim_blank(s@);
        }
        return s.substring_char(0, 0);
    }
    proof {
        let before = s@.take(start as int);
        let middle = s@.subrange(start as int, end as int);
        let after = s@.skip(end as int);
        assert(s@ =~= before + (middle + after));
        assert((middle + after)[0] == middle[0]);
        lemma_trim_start(before, middle + after);
        lemma_trim_end(middle, after);
    }
    s.substring_char(start, end)
}

} // verus!

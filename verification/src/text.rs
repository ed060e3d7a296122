//! Small text utilities the engine needs: decimal rendering and parsing
//! of numeric window ids, a blankness test for window titles, and the
//! substring search used when matching a window title during
//! fine-grained activation.

use vstd::prelude::*;

verus! {

/// The character for one decimal digit.
pub open spec fn spec_digit_char(d: int) -> char {
    if d == 0 {
        '0'
    } else if d == 1 {
        '1'
    } else if d == 2 {
        '2'
    } else if d == 3 {
        '3'
    } else if d == 4 {
        '4'
    } else if d == 5 {
        '5'
    } else if d == 6 {
        '6'
    } else if d == 7 {
        '7'
    } else if d == 8 {
        '8'
    } else {
        '9'
    }
}

/// The decimal rendering of a natural number, most significant digit first.
pub open spec fn spec_u64_dec(n: nat) -> Seq<char>
    decreases n,
{
    if n < 10 {
        seq![spec_digit_char(n as int)]
    } else {
        spec_u64_dec(n / 10).push(spec_digit_char((n % 10) as int))
    }
}

proof fn lemma_u64_dec_len(n: nat)
    ensures
        spec_u64_dec(n).len() >= 1,
        n >= 10 ==> spec_u64_dec(n).len() >= 2,
    decreases n,
{
    if n >= 10 {
        lemma_u64_dec_len(n / 10);
    }
}

/// Distinct numbers render to distinct decimal strings, so ids derived
/// from distinct window numbers never collide.
pub proof fn lemma_u64_dec_injective(a: nat, b: nat)
    requires
        spec_u64_dec(a) == spec_u64_dec(b),
    ensures
        a == b,
    decreases a,
{
    lemma_u64_dec_len(a);
    lemma_u64_dec_len(b);
    if a < 10 && b < 10 {
        assert(spec_u64_dec(a) == seq![spec_digit_char(a as int)]);
        assert(spec_u64_dec(b) == seq![spec_digit_char(b as int)]);
        assert(spec_u64_dec(a)[0] == spec_digit_char(a as int));
        assert(spec_u64_dec(b)[0] == spec_digit_char(b as int));
        assert(spec_digit_char(a as int) == spec_digit_char(b as int));
    } else if a >= 10 && b >= 10 {
        let ra = spec_u64_dec(a / 10);
        let rb = spec_u64_dec(b / 10);
        assert(spec_u64_dec(a) == ra.push(spec_digit_char((a % 10) as int)));
        assert(spec_u64_dec(b) == rb.push(spec_digit_char((b % 10) as int)));
        assert(spec_u64_dec(a).last() == spec_digit_char((a % 10) as int));
        assert(spec_u64_dec(b).last() == spec_digit_char((b % 10) as int));
        assert(0 <= a % 10 < 10 && 0 <= b % 10 < 10);
        assert(a % 10 == b % 10);
        assert(spec_u64_dec(a).drop_last() =~= ra);
        assert(spec_u64_dec(b).drop_last() =~= rb);
        lemma_u64_dec_injective(a / 10, b / 10);
        assert(a == 10 * (a / 10) + a % 10);
        assert(b == 10 * (b / 10) + b % 10);
    } else if a < 10 {
        assert(spec_u64_dec(a).len() == 1);
        assert(false);
    } else {
        assert(spec_u64_dec(b).len() == 1);
        assert(false);
    }
}

fn digit_str(d: u64) -> (s: &'static str)
    requires
        d < 10,
    ensures
        s@ == seq![spec_digit_char(d as int)],
{
    proof {
        reveal_strlit("0");
        reveal_strlit("1");
        reveal_strlit("2");
        reveal_strlit("3");
        reveal_strlit("4");
        reveal_strlit("5");
        reveal_strlit("6");
        reveal_strlit("7");
        reveal_strlit("8");
        reveal_strlit("9");
    }
    if d == 0 {
        "0"
    } else if d == 1 {
        "1"
    } else if d == 2 {
        "2"
    } else if d == 3 {
        "3"
    } else if d == 4 {
        "4"
    } else if d == 5 {
        "5"
    } else if d == 6 {
        "6"
    } else if d == 7 {
        "7"
    } else if d == 8 {
        "8"
    } else {
        "9"
    }
}

/// Renders a window number as its decimal id string.
pub fn u64_to_dec_string(n: u64) -> (s: String)
    ensures
        s@ == spec_u64_dec(n as nat),
    decreases n,
{
    if n < 10 {
        digit_str(n).to_owned()
    } else {
        let mut s = u64_to_dec_string(n / 10);
        s.append(digit_str(n % 10));
        proof {
            assert(s@ =~= spec_u64_dec(n as nat));
        }
        s
    }
}

/// A decimal digit character.
pub open spec fn spec_is_digit(c: char) -> bool {
    c == '0' || c == '1' || c == '2' || c == '3' || c == '4' || c == '5' || c == '6' || c == '7'
        || c == '8' || c == '9'
}

/// The numeric value of a digit character (meaningful on digits only).
pub open spec fn spec_digit_val(c: char) -> int {
    if c == '0' {
        0
    } else if c == '1' {
        1
    } else if c == '2' {
        2
    } else if c == '3' {
        3
    } else if c == '4' {
        4
    } else if c == '5' {
        5
    } else if c == '6' {
        6
    } else if c == '7' {
        7
    } else if c == '8' {
        8
    } else {
        9
    }
}

/// The number a string of digit characters denotes, most significant
/// digit first.
pub open spec fn spec_digits_value(s: Seq<char>) -> int
    decreases s.len(),
{
    if s.len() == 0 {
        0
    } else {
        spec_digits_value(s.drop_last()) * 10 + spec_digit_val(s.last())
    }
}

/// All characters of the string are digits.
pub open spec fn spec_all_digits(s: Seq<char>) -> bool {
    forall|i: int| 0 <= i < s.len() ==> spec_is_digit(#[trigger] s[i])
}

proof fn lemma_digits_value_nonneg(s: Seq<char>)
    requires
        spec_all_digits(s),
    ensures
        spec_digits_value(s) >= 0,
    decreases s.len(),
{
    if s.len() > 0 {
        assert(spec_is_digit(s[s.len() - 1]));
        lemma_digits_value_nonneg(s.drop_last());
        assert(spec_digits_value(s.drop_last()) * 10 >= 0) by (nonlinear_arith)
            requires spec_digits_value(s.drop_last()) >= 0,
        ;
    }
}

fn digit_of(c: char) -> (r: Option<u64>)
    ensures
        match r {
            Option::Some(d) => spec_is_digit(c) && d == spec_digit_val(c),
            Option::None => !spec_is_digit(c),
        },
{
    if c == '0' {
        Option::Some(0)
    } else if c == '1' {
        Option::Some(1)
    } else if c == '2' {
        Option::Some(2)
    } else if c == '3' {
        Option::Some(3)
    } else if c == '4' {
        Option::Some(4)
    } else if c == '5' {
        Option::Some(5)
    } else if c == '6' {
        Option::Some(6)
    } else if c == '7' {
        Option::Some(7)
    } else if c == '8' {
        Option::Some(8)
    } else if c == '9' {
        Option::Some(9)
    } else {
        Option::None
    }
}

/// Parses the decimal id string back to the window number: it succeeds
/// exactly on nonempty all-digit strings whose value fits, and then
/// yields the denoted number.
pub fn parse_window_id(s: &str) -> (r: Option<u64>)
    ensures
        match r {
            Option::Some(n) => s@.len() > 0 && spec_all_digits(s@) && n == spec_digits_value(s@),
            Option::None => s@.len() == 0 || !spec_all_digits(s@) || spec_digits_value(s@)
                > u64::MAX,
        },
{
    let chars = chars_of(s);
    if chars.len() == 0 {
        return Option::None;
    }
    let mut acc: u64 = 0;
    let mut i: usize = 0;
    while i < chars.len()
        invariant
            chars@ == s@,
            0 < chars@.len(),
            i <= chars@.len(),
            forall|k: int| 0 <= k < i ==> spec_is_digit(#[trigger] s@[k]),
            acc == spec_digits_value(s@.take(i as int)),
        decreases chars@.len() - i,
    {
        let d: u64 = match digit_of(chars[i]) {
            Option::Some(d) => d,
            Option::None => {
                return Option::None;
            },
        };
        proof {
            assert(spec_is_digit(s@[i as int]));
            assert(d == spec_digit_val(s@[i as int]));
            assert(s@.take(i + 1).drop_last() =~= s@.take(i as int));
            assert(s@.take(i + 1).last() == s@[i as int]);
        }
        if acc > (u64::MAX - d) / 10 {
            proof {
                assert(acc * 10 + d > u64::MAX) by (nonlinear_arith)
                    requires acc > (u64::MAX - d) / 10 && 0 <= d <= 9,
                ;
                if spec_all_digits(s@) {
                    lemma_digits_prefix_bound(s@, i + 1);
                }
            }
            return Option::None;
        }
        acc = acc * 10 + d;
        i = i + 1;
    }
    proof {
        assert(s@.take(i as int) =~= s@);
    }
    Option::Some(acc)
}

/// The value of a digit string bounds the value of each of its
/// prefixes.
proof fn lemma_digits_prefix_bound(s: Seq<char>, i: int)
    requires
        0 <= i <= s.len(),
        spec_all_digits(s),
    ensures
        spec_digits_value(s.take(i)) <= spec_digits_value(s),
    decreases s.len() - i,
{
    if i < s.len() {
        lemma_digits_prefix_bound(s, i + 1);
        assert(s.take(i + 1).drop_last() =~= s.take(i));
        assert(s.take(i + 1).last() == s[i]);
        assert(spec_is_digit(s[i]));
        let v = spec_digits_value(s.take(i));
        assert forall|k: int| 0 <= k < i implies spec_is_digit(#[trigger] s.take(i)[k]) by {
            assert(s.take(i)[k] == s[k]);
        }
        lemma_digits_value_nonneg(s.take(i));
        assert(v <= v * 10 + spec_digit_val(s[i])) by (nonlinear_arith)
            requires v >= 0 && spec_digit_val(s[i]) >= 0,
        ;
    } else {
        assert(s.take(i) =~= s);
    }
}

/// Rendering and parsing are inverse: the decimal id of a window
/// number is all digits and denotes that number again.
pub proof fn lemma_id_round_trip(n: u64)
    ensures
        spec_all_digits(spec_u64_dec(n as nat)),
        spec_digits_value(spec_u64_dec(n as nat)) == n,
    decreases n,
{
    let s = spec_u64_dec(n as nat);
    assert(spec_digits_value(Seq::<char>::empty()) == 0);
    if n < 10 {
        assert(s =~= seq![spec_digit_char(n as int)]);
        assert(s.drop_last() =~= Seq::<char>::empty());
        assert(spec_digit_val(spec_digit_char(n as int)) == n);
    } else {
        lemma_id_round_trip(n / 10);
        assert(s == spec_u64_dec((n / 10) as nat).push(spec_digit_char((n % 10) as int)));
        assert(s.drop_last() =~= spec_u64_dec((n / 10) as nat));
        assert(s.last() == spec_digit_char((n % 10) as int));
        assert(spec_digit_val(spec_digit_char((n % 10) as int)) == n % 10);
        assert forall|i: int| 0 <= i < s.len() implies spec_is_digit(#[trigger] s[i]) by {
            if i < s.len() - 1 {
                assert(s[i] == spec_u64_dec((n / 10) as nat)[i]);
            }
        }
    }
}

/// Relied on below: whether a character counts as Unicode whitespace
/// depends on the character alone.
pub uninterp spec fn is_unicode_space(c: char) -> bool;

/// A string is blank when every character in it is whitespace; in
/// particular the empty string is blank.
pub open spec fn spec_blank(s: Seq<char>) -> bool {
    forall|i: int| 0 <= i < s.len() ==> is_unicode_space(#[trigger] s[i])
}

/// Relies on str::trim (and through it char::is_whitespace): trimming
/// leaves an empty string exactly when every character is whitespace.
#[verifier::external_body]
pub fn str_is_blank(s: &str) -> (r: bool)
    ensures
        r == (forall|i: int| 0 <= i < s@.len() ==> is_unicode_space(#[trigger] s@[i])),
        r == spec_blank(s@),
{
    s.trim().is_empty()
}

/// The needle occurs in the haystack starting at position `i`.
pub open spec fn spec_contains_at(hay: Seq<char>, needle: Seq<char>, i: int) -> bool {
    0 <= i && i + needle.len() <= hay.len() && hay.subrange(i, i + needle.len()) == needle
}

/// The needle occurs somewhere in the haystack.
pub open spec fn spec_contains(hay: Seq<char>, needle: Seq<char>) -> bool {
    exists|i: int| spec_contains_at(hay, needle, i)
}

/// The characters of a string as a vector, for indexed scanning.
pub fn chars_of(s: &str) -> (v: Vec<char>)
    ensures
        v@ == s@,
{
    let n = s.unicode_len();
    let mut v: Vec<char> = Vec::new();
    let mut i: usize = 0;
    while i < n
        invariant
            n == s@.len(),
            i <= n,
            v@ == s@.take(i as int),
        decreases n - i,
    {
        v.push(s.get_char(i));
        i = i + 1;
        proof {
            assert(v@ =~= s@.take(i as int));
        }
    }
    proof {
        assert(v@ =~= s@);
    }
    v
}

fn matches_at(hay: &Vec<char>, needle: &Vec<char>, i: usize) -> (r: bool)
    requires
        i + needle@.len() <= hay@.len(),
    ensures
        r == spec_contains_at(hay@, needle@, i as int),
{
    let hlen = hay.len();
    let nlen = needle.len();
    let mut j: usize = 0;
    while j < nlen
        invariant
            hlen == hay@.len(),
            nlen == needle@.len(),
            i + needle@.len() <= hay@.len(),
            j <= needle@.len(),
            forall|k: int| 0 <= k < j ==> hay@[i + k] == needle@[k],
        decreases needle@.len() - j,
    {
        if hay[i + j] != needle[j] {
            proof {
                assert(hay@.subrange(i as int, i + needle@.len())[j as int] != needle@[j as int]);
            }
            return false;
        }
        j = j + 1;
    }
    proof {
        assert(hay@.subrange(i as int, i + needle@.len()) =~= needle@);
    }
    true
}

/// Naive substring search over character sequences.
pub fn contains_chars(hay: &Vec<char>, needle: &Vec<char>) -> (r: bool)
    ensures
        r == spec_contains(hay@, needle@),
{
    if needle.len() > hay.len() {
        proof {
            assert(forall|i: int| !spec_contains_at(hay@, needle@, i));
        }
        return false;
    }
    if needle.len() == 0 {
        proof {
            assert(hay@.subrange(0, 0) =~= needle@);
            assert(spec_contains_at(hay@, needle@, 0));
        }
        return true;
    }
    let hlen = hay.len();
    let last = hlen - needle.len();
    let mut i: usize = 0;
    while i <= last
        invariant
            hlen == hay@.len(),
            1 <= needle@.len() <= hay@.len(),
            last == hay@.len() - needle@.len(),
            i <= last + 1,
            forall|k: int| 0 <= k < i ==> !spec_contains_at(hay@, needle@, k),
        decreases last + 1 - i,
    {
        if matches_at(hay, needle, i) {
            return true;
        }
        i = i + 1;
    }
    proof {
        assert(forall|k: int| !spec_contains_at(hay@, needle@, k));
    }
    false
}

/// Substring search on strings: does `hay` contain `needle`?
pub fn str_contains(hay: &str, needle: &str) -> (r: bool)
    ensures
        r == spec_contains(hay@, needle@),
{
    let h = chars_of(hay);
    let n = chars_of(needle);
    contains_chars(&h, &n)
}

} // verus!

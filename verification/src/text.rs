//! Text scanning for the operator surface: character tests, numbers in decimal
//! and hex, byte strings in hex.

use vstd::prelude::*;
use vstd::string::{StrSliceExecFns, StringExecFns};

verus! {

/// Whether two strings hold the same characters.
pub fn same(a: &str, b: &str) -> (r: bool)
    ensures
        r == (a@ == b@),
{
    let n: usize = a.unicode_len();
    if n != b.unicode_len() {
        return false;
    }
    let mut i: usize = 0;
    while i < n
        invariant
            i <= n,
            n == a@.len(),
            n == b@.len(),
            forall|k: int| 0 <= k < i ==> a@[k] == b@[k],
        decreases n - i,
    {
        if a.get_char(i) != b.get_char(i) {
            return false;
        }
        i = i + 1;
    }
    assert(a@ =~= b@);
    true
}

/// The characters of a string.
pub fn chars_of(s: &str) -> (r: Vec<char>)
    ensures
        r@ == s@,
{
    let mut v: Vec<char> = Vec::new();
    for c in it: s.chars()
        invariant
            v@ == it.seq().take(it.index() as int),
            it.seq() == s@,
    {
        v.push(c);
    }
    v
}

/// Unicode White_Space.
pub open spec fn blank(c: char) -> bool {
    ||| '\u{9}' <= c <= '\u{d}'
    ||| c == '\u{20}' || c == '\u{85}' || c == '\u{a0}' || c == '\u{1680}'
    ||| '\u{2000}' <= c <= '\u{200a}'
    ||| c == '\u{2028}' || c == '\u{2029}' || c == '\u{202f}' || c == '\u{205f}' || c == '\u{3000}'
}

pub fn is_blank(c: char) -> (r: bool)
    ensures
        r == blank(c),
{
    ('\u{9}' <= c && c <= '\u{d}') || c == '\u{20}' || c == '\u{85}' || c == '\u{a0}' || c
        == '\u{1680}' || ('\u{2000}' <= c && c <= '\u{200a}') || c == '\u{2028}' || c == '\u{2029}'
        || c == '\u{202f}' || c == '\u{205f}' || c == '\u{3000}'
}

/// The characters between the blanks at both ends.
pub open spec fn stripped(s: Seq<char>) -> Seq<char>
    decreases s.len(),
{
    if s.len() == 0 {
        s
    } else if blank(s[0]) {
        stripped(s.skip(1))
    } else if blank(s.last()) {
        stripped(s.drop_last())
    } else {
        s
    }
}

/// A part of a character vector.
pub fn part(s: &Vec<char>, lo: usize, hi: usize) -> (r: Vec<char>)
    requires
        lo <= hi <= s@.len(),
    ensures
        r@ == s@.subrange(lo as int, hi as int),
{
    let mut v: Vec<char> = Vec::new();
    let mut i: usize = lo;
    while i < hi
        invariant
            lo <= i <= hi <= s@.len(),
            v@ == s@.subrange(lo as int, i as int),
        decreases hi - i,
    {
        v.push(s[i]);
        assert(s@.subrange(lo as int, i + 1) =~= s@.subrange(lo as int, i as int).push(
            s@[i as int],
        ));
        i = i + 1;
    }
    v
}

pub fn strip(s: &Vec<char>) -> (r: Vec<char>)
    ensures
        r@ == stripped(s@),
{
    let mut lo: usize = 0;
    let mut hi: usize = s.len();
    assert(s@.subrange(0, s@.len() as int) =~= s@);
    while lo < hi && is_blank(s[lo])
        invariant
            lo <= hi,
            hi == s@.len(),
            stripped(s@) == stripped(s@.subrange(lo as int, hi as int)),
        decreases hi - lo,
    {
        assert(s@.subrange(lo as int, hi as int).skip(1) =~= s@.subrange(lo + 1, hi as int));
        lo = lo + 1;
    }
    while lo < hi && is_blank(s[hi - 1])
        invariant
            lo <= hi <= s@.len(),
            lo < hi ==> !blank(s@[lo as int]),
            stripped(s@) == stripped(s@.subrange(lo as int, hi as int)),
        decreases hi - lo,
    {
        assert(s@.subrange(lo as int, hi as int).drop_last() =~= s@.subrange(lo as int, hi - 1));
        hi = hi - 1;
    }
    part(s, lo, hi)
}

/// The value of a digit in either case, up to base 16.
pub open spec fn digit(c: char, radix: int) -> Option<int> {
    let v = if '0' <= c <= '9' {
        c as int - '0' as int
    } else if 'a' <= c <= 'f' {
        c as int - 'a' as int + 10
    } else if 'A' <= c <= 'F' {
        c as int - 'A' as int + 10
    } else {
        radix
    };
    if v < radix {
        Some(v)
    } else {
        None
    }
}

fn digit_of(c: char, radix: u32) -> (r: Option<u32>)
    requires
        radix == 10 || radix == 16,
    ensures
        match r {
            Some(v) => digit(c, radix as int) == Some(v as int),
            None => digit(c, radix as int) is None,
        },
        r matches Some(v) ==> v < radix,
{
    let v: u32 = if '0' <= c && c <= '9' {
        c as u32 - 48
    } else if 'a' <= c && c <= 'f' {
        c as u32 - 87
    } else if 'A' <= c && c <= 'F' {
        c as u32 - 55
    } else {
        radix
    };
    if v < radix {
        Some(v)
    } else {
        None
    }
}

/// The number a digit string writes; nothing where a character is no digit.
pub open spec fn digits_value(s: Seq<char>, radix: int) -> Option<int>
    decreases s.len(),
{
    if s.len() == 0 {
        Some(0)
    } else {
        match (digits_value(s.drop_last(), radix), digit(s.last(), radix)) {
            (Some(hi), Some(lo)) => Some(hi * radix + lo),
            _ => None,
        }
    }
}

/// The unsigned number a text writes: an optional plus sign, then at least one
/// digit.
pub open spec fn number(s: Seq<char>, radix: int) -> Option<int> {
    let d = if s.len() > 0 && s[0] == '+' {
        s.skip(1)
    } else {
        s
    };
    if d.len() == 0 {
        None
    } else {
        digits_value(d, radix)
    }
}

/// A number no larger than `max`.
pub open spec fn number_upto(s: Seq<char>, radix: int, max: int) -> Option<int> {
    match number(s, radix) {
        Some(v) if v <= max => Some(v),
        _ => None,
    }
}

/// A number only grows as digits follow.
proof fn lemma_digits_grow(s: Seq<char>, k: int, radix: int)
    requires
        0 <= k <= s.len(),
        radix >= 1,
        digits_value(s, radix) is Some,
    ensures
        digits_value(s.take(k), radix) is Some,
        0 <= digits_value(s.take(k), radix)->0 <= digits_value(s, radix)->0,
    decreases s.len(),
{
    if k == s.len() {
        assert(s.take(k) =~= s);
        if s.len() > 0 {
            lemma_digits_grow(s.drop_last(), s.len() - 1, radix);
            assert(s.drop_last().take(s.len() - 1) =~= s.drop_last());
            let hi = digits_value(s.drop_last(), radix)->0;
            assert(0 <= hi * radix) by (nonlinear_arith)
                requires
                    0 <= hi,
                    radix >= 1,
            ;
        }
    } else {
        lemma_digits_grow(s.drop_last(), k, radix);
        assert(s.drop_last().take(k) =~= s.take(k));
        let hi = digits_value(s.drop_last(), radix)->0;
        assert(hi <= hi * radix) by (nonlinear_arith)
            requires
                0 <= hi,
                radix >= 1,
        ;
    }
}

/// Where a prefix is no number, nothing longer is.
proof fn lemma_bad_prefix(s: Seq<char>, k: int, radix: int)
    requires
        0 <= k <= s.len(),
        digits_value(s.take(k), radix) is None,
    ensures
        digits_value(s, radix) is None,
    decreases s.len(),
{
    if k == s.len() {
        assert(s.take(k) =~= s);
    } else {
        assert(s.drop_last().take(k) =~= s.take(k));
        lemma_bad_prefix(s.drop_last(), k, radix);
    }
}

/// Read an unsigned number of at most `max`.
pub fn parse_number(s: &Vec<char>, radix: u32, max: u32) -> (r: Option<u32>)
    requires
        radix == 10 || radix == 16,
    ensures
        match r {
            Some(v) => number_upto(s@, radix as int, max as int) == Some(v as int),
            None => number_upto(s@, radix as int, max as int) is None,
        },
{
    let n: usize = s.len();
    let start: usize = if n > 0 && s[0] == '+' {
        1
    } else {
        0
    };
    let ghost d = if n > 0 && s@[0] == '+' {
        s@.skip(1)
    } else {
        s@
    };
    assert(d =~= s@.skip(start as int));
    if start == n {
        return None;
    }
    let mut value: u64 = 0;
    let mut i: usize = start;
    assert(d.take(0) =~= Seq::<char>::empty());
    while i < n
        invariant
            n == s@.len(),
            start <= i <= n,
            start < n,
            radix == 10 || radix == 16,
            d == s@.skip(start as int),
            number(s@, radix as int) == digits_value(d, radix as int),
            digits_value(d.take(i - start), radix as int) == Some(value as int),
            value <= max,
        decreases n - i,
    {
        let ghost k = i - start;
        assert(d.take(k + 1).drop_last() =~= d.take(k));
        assert(d.take(k + 1).last() == s@[i as int]);
        match digit_of(s[i], radix) {
            None => {
                proof {
                    lemma_bad_prefix(d, k + 1, radix as int);
                }
                return None;
            },
            Some(v) => {
                assert(0 <= value * radix <= 16 * 0xffff_ffff) by (nonlinear_arith)
                    requires
                        0 <= value <= 0xffff_ffff,
                        0 <= radix <= 16,
                ;
                let next: u64 = value * (radix as u64) + v as u64;
                if next > max as u64 {
                    proof {
                        if digits_value(d, radix as int) is Some {
                            lemma_digits_grow(d, k + 1, radix as int);
                        }
                    }
                    return None;
                }
                value = next;
            },
        }
        i = i + 1;
    }
    assert(d.take(n - start) =~= d);
    Some(value as u32)
}

/// The lower-case hex digit of a nibble.
pub open spec fn nibble(n: int) -> char {
    if n < 10 {
        (48 + n) as char
    } else {
        (87 + n) as char
    }
}

/// The same digit as a text.
pub fn nibble_str(n: u8) -> (r: &'static str)
    requires
        n < 16,
    ensures
        r@ == seq![nibble(n as int)],
{
    proof {
        reveal_strlit("0");
        reveal_strlit("1");
        reveal_strlit("2");
        reveal_strlit("3");
        reveal_strlit("4");
        reveal_strlit("5");
        reveal_strlit("6");
        reveal_strlit("7");
        reveal_strlit("8");
        reveal_strlit("9");
        reveal_strlit("a");
        reveal_strlit("b");
        reveal_strlit("c");
        reveal_strlit("d");
        reveal_strlit("e");
        reveal_strlit("f");
    }
    let r: &'static str = if n == 0 {
        "0"
    } else if n == 1 {
        "1"
    } else if n == 2 {
        "2"
    } else if n == 3 {
        "3"
    } else if n == 4 {
        "4"
    } else if n == 5 {
        "5"
    } else if n == 6 {
        "6"
    } else if n == 7 {
        "7"
    } else if n == 8 {
        "8"
    } else if n == 9 {
        "9"
    } else if n == 10 {
        "a"
    } else if n == 11 {
        "b"
    } else if n == 12 {
        "c"
    } else if n == 13 {
        "d"
    } else if n == 14 {
        "e"
    } else {
        "f"
    };
    assert(r@ =~= seq![nibble(n as int)]);
    r
}

/// The value of a digit: its place in `0123456789abcdef`, capitals alike, where
/// that is below the base; any other character is no digit.
pub proof fn law_digit(c: char, radix: int)
    requires
        radix == 10 || radix == 16,
    ensures
        48 <= c as int <= 57 ==> digit(c, radix) == Some(c as int - 48),
        radix == 16 && 97 <= c as int <= 102 ==> digit(c, radix) == Some(c as int - 87),
        radix == 16 && 65 <= c as int <= 70 ==> digit(c, radix) == Some(c as int - 55),
        radix == 10 && !(48 <= c as int <= 57) ==> digit(c, radix) is None,
        radix == 16 && !(48 <= c as int <= 57) && !(97 <= c as int <= 102) && !(65 <= c as int
            <= 70) ==> digit(c, radix) is None,
{
}

/// One more digit moves the number up a place; one more character that is no
/// digit leaves no number.
pub proof fn law_digits_append(s: Seq<char>, c: char, radix: int)
    ensures
        digits_value(Seq::<char>::empty(), radix) == Some(0int),
        digits_value(s, radix) is Some && digit(c, radix) is Some ==> digits_value(s.push(c), radix)
            == Some(digits_value(s, radix)->0 * radix + digit(c, radix)->0),
        digits_value(s, radix) is None || digit(c, radix) is None ==> digits_value(
            s.push(c),
            radix,
        ) is None,
{
    assert(s.push(c).drop_last() =~= s);
    assert(s.push(c).last() == c);
}

/// A number is at least one digit, behind a plus sign or not, and no more than
/// its limit.
pub proof fn law_number(s: Seq<char>, radix: int, max: int)
    ensures
        number(Seq::<char>::empty(), radix) is None,
        number(seq!['+'], radix) is None,
        s.len() > 0 && s[0] != '+' ==> number(s, radix) == digits_value(s, radix),
        s.len() > 1 && s[0] == '+' ==> number(s, radix) == digits_value(s.skip(1), radix),
        number_upto(s, radix, max) matches Some(v) ==> number(s, radix) == Some(v) && v <= max,
        number(s, radix) matches Some(v) ==> (v <= max ==> number_upto(s, radix, max) == Some(v)),
{
    assert(seq!['+'].skip(1).len() == 0);
}

/// Stripping takes blanks off the two ends and stops at the first character on
/// either side that is none.
pub proof fn law_strip(s: Seq<char>) -> (cut: (int, int))
    ensures
        0 <= cut.0 <= cut.1 <= s.len(),
        stripped(s) == s.subrange(cut.0, cut.1),
        forall|k: int| 0 <= k < cut.0 ==> blank(#[trigger] s[k]),
        forall|k: int| cut.1 <= k < s.len() ==> blank(#[trigger] s[k]),
        cut.0 < cut.1 ==> !blank(s[cut.0]) && !blank(s[cut.1 - 1]),
    decreases s.len(),
{
    if s.len() == 0 {
        assert(s.subrange(0, 0) =~= s);
        (0, 0)
    } else if blank(s[0]) {
        let t = s.skip(1);
        let c = law_strip(t);
        assert(s.subrange(c.0 + 1, c.1 + 1) =~= t.subrange(c.0, c.1));
        assert forall|k: int| 0 <= k < c.0 + 1 implies blank(#[trigger] s[k]) by {
            if k > 0 {
                assert(t[k - 1] == s[k]);
            }
        }
        assert forall|k: int| c.1 + 1 <= k < s.len() implies blank(#[trigger] s[k]) by {
            assert(t[k - 1] == s[k]);
        }
        (c.0 + 1, c.1 + 1)
    } else if blank(s.last()) {
        let t = s.drop_last();
        let c = law_strip(t);
        assert(s.subrange(c.0, c.1) =~= t.subrange(c.0, c.1));
        assert forall|k: int| 0 <= k < c.0 implies blank(#[trigger] s[k]) by {
            assert(t[k] == s[k]);
        }
        assert forall|k: int| c.1 <= k < s.len() implies blank(#[trigger] s[k]) by {
            if k < t.len() {
                assert(t[k] == s[k]);
            }
        }
        c
    } else {
        assert(s.subrange(0, s.len() as int) =~= s);
        (0, s.len() as int)
    }
}

/// The blanks are the characters Unicode calls white space, by code point.
pub proof fn law_blank(c: char)
    ensures
        blank(c) <==> {
            let n = c as int;
            ||| 9 <= n <= 13
            ||| n == 32
            ||| n == 133
            ||| n == 160
            ||| n == 5760
            ||| 8192 <= n <= 8202
            ||| n == 8232
            ||| n == 8233
            ||| n == 8239
            ||| n == 8287
            ||| n == 12288
        },
{
}

/// The digit written for a nibble reads as that nibble, and is no capital.
pub proof fn law_nibble(n: int)
    requires
        0 <= n < 16,
    ensures
        digit(nibble(n), 16) == Some(n),
        n < 10 ==> digit(nibble(n), 10) == Some(n),
        !(65 <= nibble(n) as int <= 90),
{
}

} // verus!

//! Argument vocabulary of the operator tool: switches, rates, addresses, spans,
//! byte strings, and the decisions a verb takes on what the bus answered.

use crate::regions::config::BaudRate;
use crate::text::{
    blank, chars_of, digit, is_blank, nibble, nibble_str, number, number_upto, parse_number, part, same,
};
use vstd::prelude::*;
use vstd::string::{StrSliceExecFns, StringExecFns};

verus! {

/// Why an argument was refused.
#[derive(Copy, Clone, Debug, PartialEq, Eq, Structural)]
pub enum ArgError {
    /// Neither `on` nor `off`.
    NotASwitch,
    /// Not a number, or out of range for its field.
    BadNumber,
    /// A byte string with an odd number of digits.
    OddDigits,
    /// A byte string holding something else than hex digits.
    BadDigit,
    /// A rate the bus does not run at.
    UnsupportedBaud(u32),
    /// A UID of this many bytes instead of sixteen.
    UidLength(usize),
    /// A span without a colon.
    NotASpan,
    /// A span address past 1023, or a count outside 1..=63.
    SpanBounds,
    /// More spans than a slot holds.
    TooManySpans,
    /// A prefix whose bytes do not match its bit length.
    BadPrefix,
    /// A reply of this many bytes, too short to decode.
    ShortReply(usize),
}

/// Bytes in a UID.
pub const UID_LEN: usize = 16;

/// Payload bytes of one status frame.
pub const STATUS_MAX: u16 = 252;

pub open spec fn switch(s: Seq<char>) -> Result<bool, ArgError> {
    if s == "on"@ {
        Ok(true)
    } else if s == "off"@ {
        Ok(false)
    } else {
        Err(ArgError::NotASwitch)
    }
}

pub fn on_off(s: &str) -> (r: Result<bool, ArgError>)
    ensures
        r == switch(s@),
{
    if same(s, "on") {
        Ok(true)
    } else if same(s, "off") {
        Ok(false)
    } else {
        Err(ArgError::NotASwitch)
    }
}

/// A 16-bit address: hex behind `0x`, else decimal.
pub open spec fn address(s: Seq<char>) -> Option<int> {
    if s.len() >= 2 && s[0] == '0' && s[1] == 'x' {
        number_upto(s.skip(2), 16, 0xffff)
    } else {
        number_upto(s, 10, 0xffff)
    }
}

fn address_of(s: &Vec<char>) -> (r: Option<u16>)
    ensures
        match r {
            Some(v) => address(s@) == Some(v as int),
            None => address(s@) is None,
        },
{
    let n: usize = s.len();
    let v: Option<u32> = if n >= 2 && s[0] == '0' && s[1] == 'x' {
        let tail: Vec<char> = part(s, 2, n);
        assert(tail@ =~= s@.skip(2));
        parse_number(&tail, 16, 0xffff)
    } else {
        parse_number(s, 10, 0xffff)
    };
    match v {
        Some(x) => Some(x as u16),
        None => None,
    }
}

pub fn parse_u16(s: &str) -> (r: Result<u16, ArgError>)
    ensures
        match address(s@) {
            Some(v) => r is Ok && r->Ok_0 == v,
            None => r == Err::<u16, ArgError>(ArgError::BadNumber),
        },
{
    match address_of(&chars_of(s)) {
        Some(v) => Ok(v),
        None => Err(ArgError::BadNumber),
    }
}

/// The rate of a number of bits per second.
pub open spec fn rate_of(bps: int) -> Option<BaudRate> {
    if bps == 500_000 {
        Some(BaudRate::B500000)
    } else if bps == 1_000_000 {
        Some(BaudRate::B1000000)
    } else if bps == 2_000_000 {
        Some(BaudRate::B2000000)
    } else if bps == 3_000_000 {
        Some(BaudRate::B3000000)
    } else {
        None
    }
}

pub open spec fn rate(s: Seq<char>) -> Result<BaudRate, ArgError> {
    match number_upto(s, 10, u32::MAX as int) {
        None => Err(ArgError::BadNumber),
        Some(bps) => match rate_of(bps) {
            Some(r) => Ok(r),
            None => Err(ArgError::UnsupportedBaud(bps as u32)),
        },
    }
}

pub fn parse_rate(s: &str) -> (r: Result<BaudRate, ArgError>)
    ensures
        r == rate(s@),
{
    let bps: u32 = match parse_number(&chars_of(s), 10, u32::MAX) {
        Some(v) => v,
        None => {
            return Err(ArgError::BadNumber);
        },
    };
    if bps == 500_000 {
        Ok(BaudRate::B500000)
    } else if bps == 1_000_000 {
        Ok(BaudRate::B1000000)
    } else if bps == 2_000_000 {
        Ok(BaudRate::B2000000)
    } else if bps == 3_000_000 {
        Ok(BaudRate::B3000000)
    } else {
        Err(ArgError::UnsupportedBaud(bps))
    }
}

/// Where the bus is looked for.
#[derive(Copy, Clone, Debug, PartialEq, Eq, Structural)]
pub enum BaudArg {
    /// Probe every rate.
    Auto,
    Fixed(BaudRate),
}

pub open spec fn baud_arg(s: Seq<char>) -> Result<BaudArg, ArgError> {
    if s == "auto"@ {
        Ok(BaudArg::Auto)
    } else {
        match rate(s) {
            Ok(r) => Ok(BaudArg::Fixed(r)),
            Err(e) => Err(e),
        }
    }
}

pub fn parse_baud(s: &str) -> (r: Result<BaudArg, ArgError>)
    ensures
        r == baud_arg(s@),
{
    if same(s, "auto") {
        Ok(BaudArg::Auto)
    } else {
        match parse_rate(s) {
            Ok(x) => Ok(BaudArg::Fixed(x)),
            Err(e) => Err(e),
        }
    }
}

/// The rates a discovery walks: all of them from the slowest up, or the one
/// that was asked for.
pub open spec fn rates_of(b: BaudArg) -> Seq<BaudRate> {
    match b {
        BaudArg::Auto => seq![
            BaudRate::B500000,
            BaudRate::B1000000,
            BaudRate::B2000000,
            BaudRate::B3000000,
        ],
        BaudArg::Fixed(r) => seq![r],
    }
}

pub fn discover_rates(b: BaudArg) -> (r: Vec<BaudRate>)
    ensures
        r@ == rates_of(b),
{
    match b {
        BaudArg::Auto => vec![
            BaudRate::B500000,
            BaudRate::B1000000,
            BaudRate::B2000000,
            BaudRate::B3000000,
        ],
        BaudArg::Fixed(x) => vec![x],
    }
}

/// The targets of a verb: those named, or the default one.
pub fn ids_or_default(ids: &Vec<u8>, id: u8) -> (r: Vec<u8>)
    ensures
        r@ == (if ids@.len() == 0 {
            seq![id]
        } else {
            ids@
        }),
{
    if ids.len() == 0 {
        return vec![id];
    }
    let mut v: Vec<u8> = Vec::new();
    let mut i: usize = 0;
    while i < ids.len()
        invariant
            i <= ids@.len(),
            v@ == ids@.take(i as int),
        decreases ids@.len() - i,
    {
        v.push(ids[i]);
        assert(ids@.take(i + 1) =~= ids@.take(i as int).push(ids@[i as int]));
        i = i + 1;
    }
    assert(ids@.take(ids@.len() as int) =~= ids@);
    v
}

// --- byte strings ---

/// Bytes as two lower-case digits each, a blank between.
pub open spec fn hexed(bytes: Seq<u8>) -> Seq<char>
    decreases bytes.len(),
{
    if bytes.len() == 0 {
        seq![]
    } else {
        let pair = seq![nibble(bytes.last() as int / 16), nibble(bytes.last() as int % 16)];
        if bytes.len() == 1 {
            pair
        } else {
            hexed(bytes.drop_last()) + seq![' '] + pair
        }
    }
}

pub fn hex(bytes: &[u8]) -> (r: String)
    ensures
        r@ == hexed(bytes@),
{
    let mut s: String = String::new();
    proof {
        reveal_strlit(" ");
    }
    let mut i: usize = 0;
    assert(bytes@.take(0) =~= Seq::<u8>::empty());
    assert(s@ =~= hexed(bytes@.take(0)));
    while i < bytes.len()
        invariant
            i <= bytes@.len(),
            s@ == hexed(bytes@.take(i as int)),
            " "@ == seq![' '],
        decreases bytes@.len() - i,
    {
        let ghost before = s@;
        let ghost t = bytes@.take(i + 1);
        assert(t.drop_last() =~= bytes@.take(i as int));
        if i > 0 {
            s.append(" ");
        }
        let b: u8 = bytes[i];
        s.append(nibble_str(b / 16));
        s.append(nibble_str(b % 16));
        assert(s@ =~= hexed(t));
        i = i + 1;
    }
    assert(bytes@.take(bytes@.len() as int) =~= bytes@);
    s
}

/// Bytes a character takes in UTF-8.
pub open spec fn width(c: char) -> int {
    if (c as int) < 0x80 {
        1
    } else if (c as int) < 0x800 {
        2
    } else if (c as int) < 0x1_0000 {
        3
    } else {
        4
    }
}

pub open spec fn total_width(s: Seq<char>) -> int
    decreases s.len(),
{
    if s.len() == 0 {
        0
    } else {
        total_width(s.drop_last()) + width(s.last())
    }
}

/// The text without its blanks.
pub open spec fn compact(s: Seq<char>) -> Seq<char>
    decreases s.len(),
{
    if s.len() == 0 {
        s
    } else if blank(s.last()) {
        compact(s.drop_last())
    } else {
        compact(s.drop_last()).push(s.last())
    }
}

/// The byte of a pair of digits; a plus sign may stand for the first.
pub open spec fn pair_value(a: char, b: char) -> Option<int> {
    number(seq![a, b], 16)
}

/// The byte string of a compact text of even width: pair by pair, up to the
/// first that is no byte.
pub open spec fn pairs_value(s: Seq<char>) -> Option<Seq<u8>>
    decreases s.len(),
{
    if s.len() == 0 {
        Some(seq![])
    } else if s.len() == 1 {
        None
    } else {
        match (pair_value(s[0], s[1]), pairs_value(s.skip(2))) {
            (Some(v), Some(rest)) => Some(seq![v as u8] + rest),
            _ => None,
        }
    }
}

/// Cutting a compact text every two bytes never cuts through a character, up to
/// the first pair that is no byte. Every ASCII text qualifies.
pub open spec fn cuts_cleanly(s: Seq<char>) -> bool
    decreases s.len(),
{
    if s.len() == 0 || width(s[0]) == 2 {
        true
    } else if s.len() == 1 || width(s[0]) > 2 || width(s[1]) > 1 {
        false
    } else {
        pair_value(s[0], s[1]) is Some ==> cuts_cleanly(s.skip(2))
    }
}

pub open spec fn byte_string(s: Seq<char>) -> Result<Seq<u8>, ArgError> {
    let c = compact(s);
    if total_width(c) % 2 != 0 {
        Err(ArgError::OddDigits)
    } else {
        match pairs_value(c) {
            Some(b) => Ok(b),
            None => Err(ArgError::BadDigit),
        }
    }
}

/// Whether `parse_hex` takes a text: its pairs do not cut through characters.
pub open spec fn hex_readable(s: Seq<char>) -> bool {
    total_width(compact(s)) % 2 == 0 ==> cuts_cleanly(compact(s))
}

/// Read a byte string in hex; blanks between digits do not matter.
pub fn parse_hex(s: &str) -> (r: Result<Vec<u8>, ArgError>)
    requires
        hex_readable(s@),
    ensures
        match byte_string(s@) {
            Ok(b) => r is Ok && r->Ok_0@ == b,
            Err(e) => r is Err && r->Err_0 == e,
        },
{
    let raw: Vec<char> = chars_of(s);
    let mut c: Vec<char> = Vec::new();
    let mut bytes: u64 = 0;
    let mut i: usize = 0;
    assert(raw@.take(0) =~= Seq::<char>::empty());
    while i < raw.len()
        invariant
            i <= raw@.len(),
            c@ == compact(raw@.take(i as int)),
            bytes <= 1,
            bytes == total_width(c@) % 2,
        decreases raw@.len() - i,
    {
        let x: char = raw[i];
        assert(raw@.take(i + 1).drop_last() =~= raw@.take(i as int));
        assert(raw@.take(i + 1).last() == x);
        if !is_blank(x) {
            let ghost before = c@;
            c.push(x);
            assert(c@.drop_last() =~= before);
            assert(total_width(c@) == total_width(before) + width(x));
            if x < '\u{80}' || ('\u{800}' <= x && x < '\u{10000}') {
                bytes = 1 - bytes;
            }
        }
        i = i + 1;
    }
    assert(raw@.take(raw@.len() as int) =~= raw@);
    if bytes != 0 {
        return Err(ArgError::OddDigits);
    }
    let n: usize = c.len();
    let mut out: Vec<u8> = Vec::new();
    let mut k: usize = 0;
    assert(c@.skip(0) =~= c@);
    while k < n
        invariant
            n == c@.len(),
            k <= n,
            c@ == compact(s@),
            total_width(c@) % 2 == 0,
            cuts_cleanly(c@.skip(k as int)),
            match (pairs_value(c@), pairs_value(c@.skip(k as int))) {
                (Some(all), Some(rest)) => all == out@ + rest,
                (None, None) => true,
                _ => false,
            },
        decreases n - k,
    {
        let ghost rest = c@.skip(k as int);
        if k + 1 >= n {
            assert(pairs_value(rest) is None);
            return Err(ArgError::BadDigit);
        }
        let pair: Vec<char> = part(&c, k, k + 2);
        assert(pair@ =~= seq![rest[0], rest[1]]);
        match parse_number(&pair, 16, 0xff) {
            None => {
                proof {
                    lemma_pair_is_byte(rest[0], rest[1]);
                    assert(pairs_value(rest) is None);
                }
                return Err(ArgError::BadDigit);
            },
            Some(v) => {
                assert(rest.skip(2) =~= c@.skip(k + 2));
                proof {
                    lemma_number_needs_ascii(rest[0], rest[1]);
                    if pairs_value(rest) is Some {
                        assert(out@ + pairs_value(rest)->0 =~= out@.push(v as u8) + pairs_value(
                            rest.skip(2),
                        )->0);
                    }
                }
                out.push(v as u8);
            },
        }
        k = k + 2;
    }
    assert(c@.skip(n as int) =~= Seq::<char>::empty());
    assert(out@ + Seq::<u8>::empty() =~= out@);
    Ok(out)
}

/// Two digits never write more than a byte.
proof fn lemma_pair_is_byte(a: char, b: char)
    ensures
        pair_value(a, b) matches Some(v) ==> 0 <= v <= 0xff,
{
    let s = seq![a, b];
    reveal_with_fuel(crate::text::digits_value, 3);
    assert(s.drop_last() =~= seq![a]);
    assert(s.skip(1) =~= seq![b]);
    assert(seq![a].drop_last() =~= Seq::<char>::empty());
    assert(seq![b].drop_last() =~= Seq::<char>::empty());
}

proof fn lemma_number_needs_ascii(a: char, b: char)
    requires
        pair_value(a, b) is Some,
    ensures
        width(a) == 1,
        width(b) == 1,
{
    let s = seq![a, b];
    reveal_with_fuel(crate::text::digits_value, 3);
    assert(s.drop_last() =~= seq![a]);
    assert(s.skip(1) =~= seq![b]);
    assert(seq![a].drop_last() =~= Seq::<char>::empty());
    assert(seq![b].drop_last() =~= Seq::<char>::empty());
}

// --- identities, spans, prefixes ---

pub open spec fn uid(s: Seq<char>) -> Result<Seq<u8>, ArgError> {
    match byte_string(s) {
        Ok(b) => if b.len() == UID_LEN {
            Ok(b.reverse())
        } else {
            Err(ArgError::UidLength(b.len() as usize))
        },
        Err(e) => Err(e),
    }
}

/// Read a UID in print order, most significant byte first; the result is in
/// wire order.
pub fn parse_uid(s: &str) -> (r: Result<Vec<u8>, ArgError>)
    requires
        hex_readable(s@),
    ensures
        match uid(s@) {
            Ok(b) => r is Ok && r->Ok_0@ == b,
            Err(e) => r is Err && r->Err_0 == e,
        },
{
    let bytes: Vec<u8> = match parse_hex(s) {
        Ok(b) => b,
        Err(e) => {
            return Err(e);
        },
    };
    let n: usize = bytes.len();
    if n != UID_LEN {
        return Err(ArgError::UidLength(n));
    }
    let mut out: Vec<u8> = Vec::new();
    let mut i: usize = 0;
    while i < n
        invariant
            n == bytes@.len(),
            i <= n,
            out@.len() == i,
            forall|k: int| 0 <= k < i ==> out@[k] == bytes@[n - 1 - k],
        decreases n - i,
    {
        out.push(bytes[n - 1 - i]);
        i = i + 1;
    }
    assert(out@ =~= bytes@.reverse());
    Ok(out)
}

/// Place of the first colon, or the length.
pub open spec fn colon(s: Seq<char>) -> int
    decreases s.len(),
{
    if s.len() == 0 || s[0] == ':' {
        0
    } else {
        1 + colon(s.skip(1))
    }
}

/// A profile span: where it starts and how many bytes it covers.
#[derive(Copy, Clone, Debug, PartialEq, Eq, Structural)]
pub struct Span {
    pub addr: u16,
    pub count: u8,
}

pub open spec fn span(s: Seq<char>) -> Result<Span, ArgError> {
    let k = colon(s);
    if k >= s.len() {
        Err(ArgError::NotASpan)
    } else {
        match (address(s.take(k)), number_upto(s.skip(k + 1), 10, 0xff)) {
            (Some(a), Some(c)) => if a > 1023 || c == 0 || c > 63 {
                Err(ArgError::SpanBounds)
            } else {
                Ok(Span { addr: a as u16, count: c as u8 })
            },
            _ => Err(ArgError::BadNumber),
        }
    }
}

/// Read one profile span, `addr:count`.
pub fn parse_span(s: &str) -> (r: Result<Span, ArgError>)
    ensures
        r == span(s@),
{
    let c: Vec<char> = chars_of(s);
    let n: usize = c.len();
    let mut k: usize = 0;
    assert(c@.skip(0) =~= c@);
    while k < n && c[k] != ':'
        invariant
            n == c@.len(),
            k <= n,
            colon(c@) == k + colon(c@.skip(k as int)),
        decreases n - k,
    {
        assert(c@.skip(k as int).skip(1) =~= c@.skip(k + 1));
        k = k + 1;
    }
    assert(colon(c@) == k);
    if k >= n {
        return Err(ArgError::NotASpan);
    }
    let a: Vec<char> = part(&c, 0, k);
    let b: Vec<char> = part(&c, k + 1, n);
    assert(a@ =~= c@.take(k as int));
    assert(b@ =~= c@.skip(k + 1));
    let addr: u16 = match address_of(&a) {
        Some(v) => v,
        None => {
            return Err(ArgError::BadNumber);
        },
    };
    let count: u32 = match parse_number(&b, 10, 0xff) {
        Some(v) => v,
        None => {
            return Err(ArgError::BadNumber);
        },
    };
    if addr > 1023 || count == 0 || count > 63 {
        return Err(ArgError::SpanBounds);
    }
    Ok(Span { addr, count: count as u8 })
}

/// A slot's image: the span words in order, low byte first, zero behind them.
pub open spec fn slot_byte(words: Seq<u16>, i: int) -> u8 {
    if i / 2 >= words.len() {
        0
    } else if i % 2 == 0 {
        (words[i / 2] % 256) as u8
    } else {
        (words[i / 2] / 256) as u8
    }
}

/// Compose the write of a profile slot.
pub fn slot_image(words: &Vec<u16>, spans_per_slot: usize) -> (r: Result<Vec<u8>, ArgError>)
    requires
        2 * spans_per_slot <= usize::MAX,
    ensures
        words@.len() > spans_per_slot <==> r == Err::<Vec<u8>, ArgError>(ArgError::TooManySpans),
        r is Err ==> words@.len() > spans_per_slot,
        r matches Ok(v) ==> v@ == Seq::new((2 * spans_per_slot) as nat, |i: int| slot_byte(words@, i)),
{
    let n: usize = words.len();
    if n > spans_per_slot {
        return Err(ArgError::TooManySpans);
    }
    let mut out: Vec<u8> = Vec::new();
    let mut i: usize = 0;
    while i < spans_per_slot
        invariant
            n == words@.len(),
            i <= spans_per_slot,
            2 * spans_per_slot <= usize::MAX,
            out@.len() == 2 * i,
            forall|k: int| 0 <= k < 2 * i ==> out@[k] == slot_byte(words@, k),
        decreases spans_per_slot - i,
    {
        let w: u16 = if i < n {
            words[i]
        } else {
            0
        };
        out.push((w % 256) as u8);
        out.push((w / 256) as u8);
        assert((2 * i) / 2 == i && (2 * i) % 2 == 0 && (2 * i + 1) / 2 == i && (2 * i + 1) % 2 == 1);
        i = i + 1;
    }
    assert(out@ =~= Seq::new((2 * spans_per_slot) as nat, |i: int| slot_byte(words@, i)));
    Ok(out)
}

/// The span words of a slot image; an odd byte at the end is left over.
pub fn slot_words(bytes: &[u8]) -> (r: Vec<u16>)
    ensures
        r@ == Seq::new(bytes@.len() / 2, |k: int| (bytes@[2 * k] + 256 * bytes@[2 * k + 1]) as u16),
{
    let total: usize = bytes.len();
    let n: usize = total / 2;
    let mut out: Vec<u16> = Vec::new();
    let mut k: usize = 0;
    while k < n
        invariant
            total == bytes@.len(),
            n == total / 2,
            k <= n,
            out@.len() == k,
            forall|j: int|
                0 <= j < k ==> out@[j] == (bytes@[2 * j] + 256 * bytes@[2 * j + 1]) as u16,
        decreases n - k,
    {
        out.push(bytes[2 * k] as u16 + 256 * (bytes[2 * k + 1] as u16));
        k = k + 1;
    }
    assert(out@ =~= Seq::new(
        bytes@.len() / 2,
        |k: int| (bytes@[2 * k] + 256 * bytes@[2 * k + 1]) as u16,
    ));
    out
}

/// Bytes the spans cover together.
pub open spec fn covered(spans: Seq<Span>) -> int
    decreases spans.len(),
{
    if spans.len() == 0 {
        0
    } else {
        covered(spans.drop_last()) + spans.last().count
    }
}

pub fn span_total(spans: &Vec<Span>) -> (r: u16)
    requires
        spans@.len() <= 257,
    ensures
        r == covered(spans@),
{
    let mut t: u16 = 0;
    let mut i: usize = 0;
    assert(spans@.take(0) =~= Seq::<Span>::empty());
    while i < spans.len()
        invariant
            i <= spans@.len() <= 257,
            t == covered(spans@.take(i as int)),
            t <= 255 * i,
        decreases spans@.len() - i,
    {
        assert(spans@.take(i + 1).drop_last() =~= spans@.take(i as int));
        t = t + spans[i].count as u16;
        i = i + 1;
    }
    assert(spans@.take(spans@.len() as int) =~= spans@);
    t
}

/// Compose the prefix of an enumeration query: `prefix_len` bits in as many
/// bytes as they need, zero up to a whole UID.
pub fn enum_prefix(prefix_len: u8, bytes: &Vec<u8>) -> (r: Result<Vec<u8>, ArgError>)
    ensures
        r is Ok <==> prefix_len <= 128 && bytes@.len() == (prefix_len + 7) / 8,
        r matches Err(e) ==> e == ArgError::BadPrefix,
        r matches Ok(v) ==> v@ == Seq::new(
            16,
            |i: int|
                if i < bytes@.len() {
                    bytes@[i]
                } else {
                    0u8
                },
        ),
{
    let n: usize = bytes.len();
    if prefix_len > 128 || n != (prefix_len as usize + 7) / 8 {
        return Err(ArgError::BadPrefix);
    }
    let mut out: Vec<u8> = Vec::new();
    let mut i: usize = 0;
    while i < UID_LEN
        invariant
            n == bytes@.len(),
            i <= UID_LEN,
            out@.len() == i,
            forall|k: int|
                0 <= k < i ==> out@[k] == (if k < n {
                    bytes@[k]
                } else {
                    0u8
                }),
        decreases UID_LEN - i,
    {
        if i < n {
            out.push(bytes[i]);
        } else {
            out.push(0);
        }
        i = i + 1;
    }
    assert(out@ =~= Seq::new(
        16,
        |i: int|
            if i < bytes@.len() {
                bytes@[i]
            } else {
                0u8
            },
    ));
    Ok(out)
}

/// What the answers to an enumeration query say about its subtree.
#[derive(Copy, Clone, Debug, PartialEq, Eq, Structural)]
pub enum EnumVerdict {
    /// Nobody answered.
    Silent,
    /// One servo, heard cleanly.
    One,
    /// Several, or an answer that was not clean: descend.
    Collision,
}

pub fn enum_verdict(statuses: usize, garble: usize, trailing: bool) -> (r: EnumVerdict)
    ensures
        r == EnumVerdict::Silent <==> statuses == 0 && garble == 0 && !trailing,
        r == EnumVerdict::One <==> statuses == 1 && garble == 0 && !trailing,
{
    let clean: bool = garble == 0 && !trailing;
    if clean && statuses == 0 {
        EnumVerdict::Silent
    } else if clean && statuses == 1 {
        EnumVerdict::One
    } else {
        EnumVerdict::Collision
    }
}

/// The front of the identity block.
#[derive(Copy, Clone, Debug, PartialEq, Eq, Structural)]
pub struct Identity {
    pub model: u16,
    pub fw: u8,
}

/// Decode the identity read.
pub fn identity(b: &[u8]) -> (r: Result<Identity, ArgError>)
    ensures
        r is Ok <==> b@.len() >= 4,
        r matches Err(e) ==> e == ArgError::ShortReply(b@.len() as usize),
        r matches Ok(x) ==> x.model == b@[0] + 256 * b@[1] && x.fw == b@[2],
{
    if b.len() < 4 {
        return Err(ArgError::ShortReply(b.len()));
    }
    Ok(Identity { model: b[0] as u16 + 256 * (b[1] as u16), fw: b[2] })
}

/// One read of a table walk.
#[derive(Copy, Clone, Debug, PartialEq, Eq, Structural)]
pub struct TableRead {
    pub addr: u16,
    pub len: u16,
}

/// The reads cover `0..size` once, in order, each in one status frame.
pub open spec fn tiles(reads: Seq<TableRead>, size: int) -> bool
    decreases reads.len(),
{
    if reads.len() == 0 {
        size == 0
    } else {
        let r = reads.last();
        &&& r.addr + r.len == size
        &&& r.len == (if size % 252 == 0 {
            252int
        } else {
            size % 252
        })
        &&& tiles(reads.drop_last(), r.addr as int)
    }
}

/// Walk a table in status-frame chunks.
pub fn table_reads(table_size: u16) -> (r: Vec<TableRead>)
    ensures
        tiles(r@, table_size as int),
        forall|k: int| 0 <= k < r@.len() ==> 0 < (#[trigger] r@[k]).len <= STATUS_MAX,
{
    let mut out: Vec<TableRead> = Vec::new();
    let mut addr: u16 = 0;
    while addr < table_size
        invariant
            addr <= table_size,
            addr % 252 == 0 || addr == table_size,
            tiles(out@, addr as int),
            forall|k: int| 0 <= k < out@.len() ==> 0 < (#[trigger] out@[k]).len <= STATUS_MAX,
        decreases table_size - addr,
    {
        let left: u16 = table_size - addr;
        let len: u16 = if left < STATUS_MAX {
            left
        } else {
            STATUS_MAX
        };
        let ghost before = out@;
        out.push(TableRead { addr, len });
        assert(out@.drop_last() =~= before);
        addr = addr + len;
    }
    out
}

/// Whether a servo answered at the new rate.
#[derive(Copy, Clone, Debug, PartialEq, Eq, Structural)]
pub struct Presence {
    pub id: u8,
    pub alive: bool,
}

/// The servos missing from a reunion roster, in its order.
pub open spec fn missing(roster: Seq<Presence>) -> Seq<u8>
    decreases roster.len(),
{
    if roster.len() == 0 {
        seq![]
    } else if roster.last().alive {
        missing(roster.drop_last())
    } else {
        missing(roster.drop_last()).push(roster.last().id)
    }
}

pub fn lost(roster: &Vec<Presence>) -> (r: Vec<u8>)
    ensures
        r@ == missing(roster@),
{
    let mut out: Vec<u8> = Vec::new();
    let mut i: usize = 0;
    assert(roster@.take(0) =~= Seq::<Presence>::empty());
    while i < roster.len()
        invariant
            i <= roster@.len(),
            out@ == missing(roster@.take(i as int)),
        decreases roster@.len() - i,
    {
        assert(roster@.take(i + 1).drop_last() =~= roster@.take(i as int));
        if !roster[i].alive {
            out.push(roster[i].id);
        }
        i = i + 1;
    }
    assert(roster@.take(roster@.len() as int) =~= roster@);
    out
}

// --- laws ---

/// The digits of a byte string, without blanks.
pub open spec fn digits(bytes: Seq<u8>) -> Seq<char>
    decreases bytes.len(),
{
    if bytes.len() == 0 {
        seq![]
    } else {
        digits(bytes.drop_last()) + seq![
            nibble(bytes.last() as int / 16),
            nibble(bytes.last() as int % 16),
        ]
    }
}

proof fn lemma_compact_concat(a: Seq<char>, b: Seq<char>)
    ensures
        compact(a + b) == compact(a) + compact(b),
    decreases b.len(),
{
    if b.len() == 0 {
        assert(a + b =~= a);
        assert(compact(a) + compact(b) =~= compact(a));
    } else {
        assert((a + b).drop_last() =~= a + b.drop_last());
        lemma_compact_concat(a, b.drop_last());
        assert(compact(a) + compact(b.drop_last()).push(b.last()) =~= (compact(a) + compact(
            b.drop_last(),
        )).push(b.last()));
    }
}

proof fn lemma_nibble(n: int)
    requires
        0 <= n < 16,
    ensures
        digit(nibble(n), 16) == Some(n),
        !blank(nibble(n)),
        width(nibble(n)) == 1,
        nibble(n) != '+',
{
}

proof fn lemma_compact_pair(hi: int, lo: int)
    requires
        0 <= hi < 16,
        0 <= lo < 16,
    ensures
        compact(seq![nibble(hi), nibble(lo)]) == seq![nibble(hi), nibble(lo)],
        compact(seq![' ']) == Seq::<char>::empty(),
        pair_value(nibble(hi), nibble(lo)) == Some(16 * hi + lo),
{
    lemma_nibble(hi);
    lemma_nibble(lo);
    let p = seq![nibble(hi), nibble(lo)];
    reveal_with_fuel(compact, 3);
    assert(p.drop_last() =~= seq![nibble(hi)]);
    assert(p.drop_last().drop_last() =~= Seq::<char>::empty());
    assert(compact(p) =~= p);
    assert(seq![' '].drop_last() =~= Seq::<char>::empty());
    reveal_with_fuel(crate::text::digits_value, 3);
}

proof fn lemma_hexed_compacts(bytes: Seq<u8>)
    ensures
        compact(hexed(bytes)) == digits(bytes),
        total_width(digits(bytes)) == 2 * bytes.len(),
        digits(bytes).len() == 2 * bytes.len(),
    decreases bytes.len(),
{
    if bytes.len() > 0 {
        let hi = bytes.last() as int / 16;
        let lo = bytes.last() as int % 16;
        let pair = seq![nibble(hi), nibble(lo)];
        let init = bytes.drop_last();
        lemma_hexed_compacts(init);
        lemma_compact_pair(hi, lo);
        lemma_nibble(hi);
        lemma_nibble(lo);
        if bytes.len() == 1 {
            assert(digits(init) =~= Seq::<char>::empty());
            assert(digits(bytes) =~= pair);
        } else {
            lemma_compact_concat(hexed(init), seq![' ']);
            lemma_compact_concat(hexed(init) + seq![' '], pair);
            assert(compact(hexed(bytes)) =~= digits(bytes));
        }
        let d = digits(bytes);
        assert(d.drop_last() =~= digits(init).push(nibble(hi)));
        assert(d.drop_last().drop_last() =~= digits(init));
        assert(d.last() == nibble(lo) && d.drop_last().last() == nibble(hi));
        assert(total_width(d) == total_width(d.drop_last()) + 1);
        assert(total_width(d.drop_last()) == total_width(digits(init)) + 1);
    }
}

/// A byte string followed by one more pair.
proof fn lemma_pairs_push(s: Seq<char>, hi: int, lo: int)
    requires
        s.len() % 2 == 0,
        pairs_value(s) is Some,
        cuts_cleanly(s),
        0 <= hi < 16,
        0 <= lo < 16,
    ensures
        pairs_value(s + seq![nibble(hi), nibble(lo)]) == Some(
            pairs_value(s)->0.push((16 * hi + lo) as u8),
        ),
        cuts_cleanly(s + seq![nibble(hi), nibble(lo)]),
    decreases s.len(),
{
    let p = seq![nibble(hi), nibble(lo)];
    lemma_compact_pair(hi, lo);
    lemma_nibble(hi);
    lemma_nibble(lo);
    let t = s + p;
    reveal_with_fuel(pairs_value, 2);
    reveal_with_fuel(cuts_cleanly, 2);
    if s.len() == 0 {
        assert(t =~= p);
        assert(t.skip(2) =~= Seq::<char>::empty());
        assert(pairs_value(t)->0 =~= pairs_value(s)->0.push((16 * hi + lo) as u8));
    } else {
        lemma_number_needs_ascii(s[0], s[1]);
        lemma_pairs_push(s.skip(2), hi, lo);
        assert(t.skip(2) =~= s.skip(2) + p);
        assert(t[0] == s[0] && t[1] == s[1]);
        assert(pairs_value(t)->0 =~= pairs_value(s)->0.push((16 * hi + lo) as u8));
    }
}

proof fn lemma_digits_read_back(bytes: Seq<u8>)
    ensures
        pairs_value(digits(bytes)) == Some(bytes),
        cuts_cleanly(digits(bytes)),
    decreases bytes.len(),
{
    if bytes.len() == 0 {
        assert(pairs_value(digits(bytes))->0 =~= bytes);
    } else {
        let init = bytes.drop_last();
        lemma_digits_read_back(init);
        lemma_hexed_compacts(init);
        lemma_pairs_push(digits(init), bytes.last() as int / 16, bytes.last() as int % 16);
        assert(init.push(bytes.last()) =~= bytes);
    }
}

/// What `hex` prints, `parse_hex` reads back, for every byte string.
pub proof fn law_hex_round_trip(bytes: Seq<u8>)
    ensures
        hex_readable(hexed(bytes)),
        byte_string(hexed(bytes)) == Ok::<Seq<u8>, ArgError>(bytes),
{
    lemma_hexed_compacts(bytes);
    lemma_digits_read_back(bytes);
}

/// A UID printed most significant byte first reads back to its wire order.
pub proof fn law_uid_round_trip(wire: Seq<u8>)
    requires
        wire.len() == UID_LEN,
    ensures
        uid(hexed(wire.reverse())) == Ok::<Seq<u8>, ArgError>(wire),
{
    law_hex_round_trip(wire.reverse());
    assert(wire.reverse().reverse() =~= wire);
}

/// A slot image gives its span words back, and zeros behind them.
pub proof fn law_slot_round_trip(words: Seq<u16>, spans_per_slot: int)
    requires
        words.len() <= spans_per_slot,
    ensures
        ({
            let image = Seq::new((2 * spans_per_slot) as nat, |i: int| slot_byte(words, i));
            forall|k: int|
                0 <= k < spans_per_slot ==> (#[trigger] image[2 * k]) + 256 * image[2 * k + 1] == (if k
                    < words.len() {
                    words[k] as int
                } else {
                    0
                })
        }),
{
    let image = Seq::new((2 * spans_per_slot) as nat, |i: int| slot_byte(words, i));
    assert forall|k: int| 0 <= k < spans_per_slot implies (#[trigger] image[2 * k]) + 256 * image[2 * k
        + 1] == (if k < words.len() {
        words[k] as int
    } else {
        0
    }) by {
        assert((2 * k) / 2 == k && (2 * k) % 2 == 0 && (2 * k + 1) / 2 == k && (2 * k + 1) % 2 == 1);
    }
}

/// An address is hex behind `0x`, decimal otherwise, of at most sixteen bits.
pub proof fn law_address(s: Seq<char>)
    ensures
        s.len() >= 2 && s[0] == '0' && s[1] == 'x' ==> address(s) == number_upto(
            s.skip(2),
            16,
            65_535,
        ),
        s.len() < 2 || s[0] != '0' || s[1] != 'x' ==> address(s) == number_upto(s, 10, 65_535),
{
}

/// A rate is named by its bits per second, and no other number names one.
pub proof fn law_rate_names(r: BaudRate, bps: int)
    ensures
        rate_of(r.hz() as int) == Some(r),
        rate_of(bps) is Some ==> rate_of(bps)->0.hz() == bps,
        r.hz() == 500_000 <==> r == BaudRate::B500000,
        r.hz() == 1_000_000 <==> r == BaudRate::B1000000,
        r.hz() == 2_000_000 <==> r == BaudRate::B2000000,
        r.hz() == 3_000_000 <==> r == BaudRate::B3000000,
{
}

/// A discovery that was given no rate tries every rate once, the slower first;
/// one that was given a rate tries that one.
pub proof fn law_discovery_covers(r: BaudRate, j: int, k: int)
    ensures
        rates_of(BaudArg::Auto).contains(r),
        rates_of(BaudArg::Auto).len() == 4,
        0 <= j < k < 4 ==> rates_of(BaudArg::Auto)[j].hz() < rates_of(BaudArg::Auto)[k].hz(),
        rates_of(BaudArg::Fixed(r)) == seq![r],
{
    let all = rates_of(BaudArg::Auto);
    assert(all[0] == BaudRate::B500000 && all[1] == BaudRate::B1000000 && all[2]
        == BaudRate::B2000000 && all[3] == BaudRate::B3000000);
}

/// Blanks fall out of a byte string and everything else stays, in order.
pub proof fn law_compact(s: Seq<char>, c: char)
    ensures
        blank(c) ==> compact(s.push(c)) == compact(s),
        !blank(c) ==> compact(s.push(c)) == compact(s).push(c),
        compact(Seq::<char>::empty()).len() == 0,
{
    assert(s.push(c).drop_last() =~= s);
    assert(s.push(c).last() == c);
}

proof fn lemma_colon(a: Seq<char>, rest: Seq<char>)
    requires
        forall|k: int| 0 <= k < a.len() ==> #[trigger] a[k] != ':',
    ensures
        colon(a + seq![':'] + rest) == a.len(),
        colon(a) == a.len(),
    decreases a.len(),
{
    let s = a + seq![':'] + rest;
    if a.len() > 0 {
        let t = a.skip(1);
        assert forall|k: int| 0 <= k < t.len() implies #[trigger] t[k] != ':' by {
            assert(t[k] == a[k + 1]);
        }
        lemma_colon(t, rest);
        assert(s.skip(1) =~= t + seq![':'] + rest);
        assert(s[0] == a[0]);
    } else {
        assert(s[0] == ':');
    }
}

/// A span is an address up to 1023, a colon and a count from 1 to 63; anything
/// else is refused, for want of the colon, for a number that is none, or for
/// its bounds.
pub proof fn law_span(a: Seq<char>, c: Seq<char>)
    requires
        forall|k: int| 0 <= k < a.len() ==> #[trigger] a[k] != ':',
    ensures
        span(a) == Err::<Span, ArgError>(ArgError::NotASpan),
        ({
            let s = a + seq![':'] + c;
            let from = address(a);
            let n = number_upto(c, 10, 255);
            &&& from is None || n is None ==> span(s) == Err::<Span, ArgError>(ArgError::BadNumber)
            &&& from is Some && n is Some ==> {
                let fits = from->0 <= 1023 && n->0 >= 1 && n->0 <= 63;
                &&& !fits && n->0 >= 0 ==> span(s) == Err::<Span, ArgError>(ArgError::SpanBounds)
                &&& fits && from->0 >= 0 ==> (span(s) matches Ok(x) && x.addr == from->0 && x.count
                    == n->0)
            }
        }),
{
    let s = a + seq![':'] + c;
    lemma_colon(a, c);
    assert(s.take(a.len() as int) =~= a);
    assert(s.skip(a.len() as int + 1) =~= c);
}

/// One more span adds its count; one more servo is missing exactly when it did
/// not answer.
pub proof fn law_tallies(spans: Seq<Span>, s: Span, roster: Seq<Presence>, p: Presence)
    ensures
        covered(Seq::<Span>::empty()) == 0,
        covered(spans.push(s)) == covered(spans) + s.count,
        missing(Seq::<Presence>::empty()).len() == 0,
        p.alive ==> missing(roster.push(p)) == missing(roster),
        !p.alive ==> missing(roster.push(p)) == missing(roster).push(p.id),
{
    assert(spans.push(s).drop_last() =~= spans);
    assert(roster.push(p).drop_last() =~= roster);
}

/// A byte of a slot image: the low byte of a word, then its high byte; zero
/// behind the last word.
pub proof fn law_slot_bytes(words: Seq<u16>, k: int)
    requires
        0 <= k,
    ensures
        k < words.len() ==> slot_byte(words, 2 * k) + 256 * slot_byte(words, 2 * k + 1) == words[k],
        k >= words.len() ==> slot_byte(words, 2 * k) == 0 && slot_byte(words, 2 * k + 1) == 0,
{
    assert((2 * k) / 2 == k && (2 * k) % 2 == 0 && (2 * k + 1) / 2 == k && (2 * k + 1) % 2 == 1);
}

/// How bytes are printed: two digits each, the high one first, and one blank
/// between two bytes.
pub proof fn law_hex_format(bytes: Seq<u8>, b: u8)
    ensures
        hexed(Seq::<u8>::empty()).len() == 0,
        ({
            let s = hexed(bytes.push(b));
            let n = s.len() as int;
            &&& n == hexed(bytes).len() + (if bytes.len() == 0 {
                2int
            } else {
                3
            })
            &&& digit(s[n - 2], 16) == Some(b as int / 16)
            &&& digit(s[n - 1], 16) == Some(b as int % 16)
            &&& bytes.len() > 0 ==> s[n - 3] == ' ' && s.take(n - 3) == hexed(bytes)
        }),
{
    let t = bytes.push(b);
    assert(t.drop_last() =~= bytes);
    assert(t.last() == b);
    lemma_nibble(b as int / 16);
    lemma_nibble(b as int % 16);
    if bytes.len() > 0 {
        let s = hexed(t);
        assert(s.take(s.len() - 3) =~= hexed(bytes));
    } else {
        assert(bytes =~= Seq::<u8>::empty());
    }
}

/// Bytes of a text in UTF-8: one up to code point 127, two up to 2047, three up
/// to 65535, four beyond; they add up.
pub proof fn law_text_width(s: Seq<char>, c: char)
    ensures
        total_width(Seq::<char>::empty()) == 0,
        total_width(s.push(c)) == total_width(s) + width(c),
        (c as int) <= 127 ==> width(c) == 1,
        128 <= c as int <= 2047 ==> width(c) == 2,
        2048 <= c as int <= 65_535 ==> width(c) == 3,
        65_536 <= c as int ==> width(c) == 4,
{
    assert(s.push(c).drop_last() =~= s);
    assert(s.push(c).last() == c);
}

/// A byte string of digits: an odd width is refused as such; a pair that is no
/// byte is refused; otherwise each pair is sixteen times its first digit and
/// its second.
pub proof fn law_byte_string(s: Seq<char>, a: char, b: char)
    requires
        digit(a, 16) is Some,
        digit(b, 16) is Some,
    ensures
        total_width(compact(s)) % 2 == 1 ==> byte_string(s) == Err::<Seq<u8>, ArgError>(
            ArgError::OddDigits,
        ),
        total_width(compact(s)) % 2 == 0 && pairs_value(compact(s)) is None ==> byte_string(s)
            == Err::<Seq<u8>, ArgError>(ArgError::BadDigit),
        total_width(compact(s)) % 2 == 0 && pairs_value(compact(s)) is Some ==> byte_string(s)
            == Ok::<Seq<u8>, ArgError>(pairs_value(compact(s))->0),
        pair_value(a, b) == Some(16 * digit(a, 16)->0 + digit(b, 16)->0),
{
    let p = seq![a, b];
    reveal_with_fuel(crate::text::digits_value, 3);
    assert(p.drop_last() =~= seq![a]);
    assert(seq![a].drop_last() =~= Seq::<char>::empty());
    assert(a != '+');
}

} // verus!

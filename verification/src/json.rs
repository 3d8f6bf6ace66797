//! A small JSON reader for recorded traces.
//!
//! `parse` reads a whole document: whitespace, one value, whitespace, end of input.
//! Numbers are kept as the text they were written with; objects keep their members
//! sorted by key bytes, a repeated key keeping its last value.

use vstd::prelude::*;
use crate::content::str_eq;
use vstd::string::StringSliceAdditionalSpecFns;
use vstd::utf8::{char_u32_cast, decode_utf8, encode_utf8, encode_utf8_decode_utf8, is_scalar, valid_utf8};

verus! {

// ---------------------------------------------------------------------------
// The mathematical model
// ---------------------------------------------------------------------------

/// A JSON value as data: strings as characters, numbers as their source text.
pub enum JsonV {
    Null,
    Bool(bool),
    Num(Seq<char>),
    Str(Seq<char>),
    Arr(Seq<JsonV>),
    Obj(Seq<(Seq<char>, JsonV)>),
}

/// Why a document was rejected.
#[derive(Clone, Copy, PartialEq, Eq, Debug)]
pub enum JsonErr {
    TrailingContent,
    ExpectedOpenBrace,
    ExpectedOpenBracket,
    ExpectedQuote,
    ExpectedColon,
    BadLiteral,
    ExpectedValue,
    ObjectSeparator,
    ArraySeparator,
    UnterminatedString,
    TruncatedEscape,
    UnknownEscape,
    TruncatedUtf8,
    InvalidUtf8,
    TruncatedUnicodeEscape,
    UnicodeEscapeNotAscii,
    UnicodeEscapeNotHex,
    InvalidCodePoint,
    LoneSurrogate,
    NumberNotAscii,
    BadNumber,
}

/// The outcome of reading from a position: a result and the position after it,
/// or the position of the failure and its reason.
pub type Read<T> = Result<(T, int), (int, JsonErr)>;

pub open spec fn is_ws(c: u8) -> bool {
    c == 0x20 || c == 0x09 || c == 0x0a || c == 0x0d
}

/// The first position at or after `i` that is not whitespace.
pub open spec fn skip_ws(b: Seq<u8>, i: int) -> int
    decreases b.len() - i,
{
    if 0 <= i < b.len() && is_ws(b[i]) {
        skip_ws(b, i + 1)
    } else {
        i
    }
}

pub proof fn lemma_skip_ws(b: Seq<u8>, i: int)
    ensures
        i <= skip_ws(b, i),
        i <= b.len() ==> skip_ws(b, i) <= b.len(),
        0 <= skip_ws(b, i) < b.len() ==> !is_ws(b[skip_ws(b, i)]),
        forall|j: int| i <= j < skip_ws(b, i) ==> is_ws(#[trigger] b[j]),
    decreases b.len() - i,
{
    if 0 <= i < b.len() && is_ws(b[i]) {
        lemma_skip_ws(b, i + 1);
    }
}

/// The value of a hexadecimal digit.
pub open spec fn hex_digit(c: u8) -> Option<u32> {
    if 0x30 <= c <= 0x39 {
        Some((c - 0x30) as u32)
    } else if 0x61 <= c <= 0x66 {
        Some((c - 0x61 + 10) as u32)
    } else if 0x41 <= c <= 0x46 {
        Some((c - 0x41 + 10) as u32)
    } else {
        Option::None
    }
}

/// The hexadecimal number written by at most four bytes `s`: an optional `+`, then digits
/// (the number `u32::from_str_radix(_, 16)` reads).
pub open spec fn hex_number(s: Seq<u8>) -> Option<u32> {
    if s.len() > 0 && s[0] == 0x2b {
        hex_digits(s.drop_first())
    } else {
        hex_digits(s)
    }
}

/// Hex digits to a number (at most 4 digits here).
pub open spec fn hex_digits(s: Seq<u8>) -> Option<u32>
    decreases s.len(),
{
    if s.len() == 0 {
        Option::None
    } else if s.len() == 1 {
        hex_digit(s[0])
    } else {
        match (hex_digits(s.drop_last()), hex_digit(s.last())) {
            (Some(hi), Some(lo)) => Some((hi * 16 + lo) as u32),
            _ => Option::None,
        }
    }
}

/// Four bytes at `i` read as the hexadecimal digits of a `\u` escape.
pub open spec fn read_hex4(b: Seq<u8>, i: int) -> Read<u32> {
    if i < 0 || i + 4 > b.len() {
        Err((i, JsonErr::TruncatedUnicodeEscape))
    } else if !valid_utf8(b.subrange(i, i + 4)) {
        Err((i, JsonErr::UnicodeEscapeNotAscii))
    } else {
        match hex_number(b.subrange(i, i + 4)) {
            Some(v) => Ok((v, i + 4)),
            Option::None => Err((i, JsonErr::UnicodeEscapeNotHex)),
        }
    }
}

/// A `\u` escape whose digits start at `i`: a scalar, or a high surrogate followed by
/// `\u` and a low surrogate.
pub open spec fn read_unicode_escape(b: Seq<u8>, i: int) -> Read<char> {
    match read_hex4(b, i) {
        Err(e) => Err(e),
        Ok((hi, j)) => if 0xD800 <= hi < 0xDC00 {
            if j < b.len() && b[j] == 0x5c && j + 1 < b.len() && b[j + 1] == 0x75 {
                match read_hex4(b, j + 2) {
                    Err(e) => Err(e),
                    Ok((lo, k)) => if 0xDC00 <= lo < 0xE000 {
                        Ok((((0x10000 + (hi - 0xD800) * 1024 + (lo - 0xDC00)) as u32) as char, k))
                    } else {
                        Err((k, JsonErr::LoneSurrogate))
                    },
                }
            } else {
                Err((j, JsonErr::LoneSurrogate))
            }
        } else if !is_scalar(hi) {
            Err((j, JsonErr::InvalidCodePoint))
        } else {
            Ok((hi as char, j))
        },
    }
}

/// How many bytes the UTF-8 sequence led by `c` claims.
pub open spec fn utf8_width(c: u8) -> int {
    if c <= 0x7f {
        1
    } else if 0xc0 <= c <= 0xdf {
        2
    } else if 0xe0 <= c <= 0xef {
        3
    } else {
        4
    }
}

/// The character an escape letter stands for (`\"`, `\\`, `\/`, `\b`, `\f`, `\n`, `\r`, `\t`).
pub open spec fn simple_escape(e: u8) -> Option<char> {
    if e == 0x22 {
        Some('"')
    } else if e == 0x5c {
        Some('\\')
    } else if e == 0x2f {
        Some('/')
    } else if e == 0x62 {
        Some('\u{8}')
    } else if e == 0x66 {
        Some('\u{c}')
    } else if e == 0x6e {
        Some('\n')
    } else if e == 0x72 {
        Some('\r')
    } else if e == 0x74 {
        Some('\t')
    } else {
        Option::None
    }
}

/// The rest of a string from `j` (after the opening quote), with the characters `out`
/// read so far.
pub open spec fn read_string_body(b: Seq<u8>, j: int, out: Seq<char>) -> Read<Seq<char>>
    decreases b.len() - j,
{
    if j < 0 || j >= b.len() {
        Err((j, JsonErr::UnterminatedString))
    } else if b[j] == 0x22 {
        Ok((out, j + 1))
    } else if b[j] == 0x5c {
        if j + 1 >= b.len() {
            Err((j + 1, JsonErr::TruncatedEscape))
        } else if b[j + 1] == 0x75 {
            match read_unicode_escape(b, j + 2) {
                Err(e) => Err(e),
                Ok((c, k)) => if k > j {
                    read_string_body(b, k, out.push(c))
                } else {
                    Err((k, JsonErr::UnterminatedString))
                },
            }
        } else {
            match simple_escape(b[j + 1]) {
                Some(c) => read_string_body(b, j + 2, out.push(c)),
                Option::None => Err((j + 2, JsonErr::UnknownEscape)),
            }
        }
    } else {
        let w = utf8_width(b[j]);
        if j + w > b.len() {
            Err((j, JsonErr::TruncatedUtf8))
        } else if valid_utf8(b.subrange(j, j + w)) {
            read_string_body(b, j + w, out + decode_utf8(b.subrange(j, j + w)))
        } else {
            Err((j + w, JsonErr::InvalidUtf8))
        }
    }
}

/// A string starting at `i` with its opening quote.
pub open spec fn read_string(b: Seq<u8>, i: int) -> Read<Seq<char>> {
    if 0 <= i < b.len() && b[i] == 0x22 {
        read_string_body(b, i + 1, Seq::empty())
    } else {
        Err((i, JsonErr::ExpectedQuote))
    }
}

proof fn lemma_hex_digits_bound(s: Seq<u8>)
    ensures
        hex_digits(s) matches Some(v) ==> {
            &&& s.len() == 1 ==> v < 16
            &&& s.len() == 2 ==> v < 256
            &&& s.len() == 3 ==> v < 4096
            &&& s.len() == 4 ==> v < 65536
        },
    decreases s.len(),
{
    if s.len() > 1 {
        lemma_hex_digits_bound(s.drop_last());
    }
}

pub proof fn lemma_read_hex4(b: Seq<u8>, i: int)
    ensures
        read_hex4(b, i) matches Ok((v, k)) ==> k == i + 4 && k <= b.len() && v <= 0xffff,
        read_hex4(b, i) matches Err((p, e)) ==> p == i,
{
    if 0 <= i && i + 4 <= b.len() && valid_utf8(b.subrange(i, i + 4)) {
        let s = b.subrange(i, i + 4);
        lemma_hex_digits_bound(s);
        lemma_hex_digits_bound(s.drop_first());
    }
}

pub proof fn lemma_read_string_body(b: Seq<u8>, j: int, out: Seq<char>)
    requires
        0 <= j <= b.len(),
    ensures
        read_string_body(b, j, out) matches Ok((s, k)) ==> j < k <= b.len(),
        read_string_body(b, j, out) matches Err((p, e)) ==> p <= b.len(),
    decreases b.len() - j,
{
    if 0 <= j < b.len() && b[j] != 0x22 {
        if b[j] == 0x5c {
            if j + 1 < b.len() {
                if b[j + 1] == 0x75 {
                    lemma_read_hex4(b, j + 2);
                    match read_hex4(b, j + 2) {
                        Ok((hi, k)) => {
                            lemma_read_hex4(b, k + 2);
                        },
                        Err(_) => {},
                    }
                    match read_unicode_escape(b, j + 2) {
                        Ok((c, k)) => {
                            lemma_read_string_body(b, k, out.push(c));
                        },
                        Err(_) => {},
                    }
                } else {
                    match simple_escape(b[j + 1]) {
                        Some(c) => lemma_read_string_body(b, j + 2, out.push(c)),
                        Option::None => {},
                    }
                }
            }
        } else {
            let w = utf8_width(b[j]);
            if j + w <= b.len() && valid_utf8(b.subrange(j, j + w)) {
                lemma_read_string_body(b, j + w, out + decode_utf8(b.subrange(j, j + w)));
            }
        }
    }
}


/// `b[i] == c`, with `i` inside `b`.
pub open spec fn at(b: Seq<u8>, i: int, c: u8) -> bool {
    0 <= i < b.len() && b[i] == c
}

pub open spec fn is_digit(c: u8) -> bool {
    0x30 <= c <= 0x39
}

/// The first position at or after `i` that does not hold a decimal digit.
pub open spec fn digits_end(b: Seq<u8>, i: int) -> int
    decreases b.len() - i,
{
    if 0 <= i < b.len() && is_digit(b[i]) {
        digits_end(b, i + 1)
    } else {
        i
    }
}

/// Where the number text starting at `i` ends (`-`? digits (`.` digits)? ([eE] [+-]? digits)?),
/// and whether it is a number for `f64`'s `FromStr`: at least one digit before the
/// exponent, and at least one digit in the exponent when there is one.
pub open spec fn number_scan(b: Seq<u8>, i: int) -> (int, bool) {
    let j0 = if at(b, i, 0x2d) { i + 1 } else { i };
    let j1 = digits_end(b, j0);
    let has_frac = at(b, j1, 0x2e);
    let j2 = if has_frac { digits_end(b, j1 + 1) } else { j1 };
    let mantissa = j1 > j0 || (has_frac && j2 > j1 + 1);
    if at(b, j2, 0x65) || at(b, j2, 0x45) {
        let k = if at(b, j2 + 1, 0x2b) || at(b, j2 + 1, 0x2d) { j2 + 2 } else { j2 + 1 };
        let j3 = digits_end(b, k);
        (j3, mantissa && j3 > k)
    } else {
        (j2, mantissa)
    }
}

/// A number starting at `i`; the result is its text.
pub open spec fn read_number(b: Seq<u8>, i: int) -> Read<Seq<char>> {
    let (end, ok) = number_scan(b, i);
    let text = b.subrange(i, end);
    if !valid_utf8(text) {
        Err((end, JsonErr::NumberNotAscii))
    } else if !ok {
        Err((end, JsonErr::BadNumber))
    } else {
        Ok((decode_utf8(text), end))
    }
}

/// The literal `word` at `i`, standing for `v`.
pub open spec fn read_literal(b: Seq<u8>, i: int, word: Seq<u8>, v: JsonV) -> Read<JsonV> {
    if 0 <= i && i + word.len() <= b.len() && b.subrange(i, i + word.len()) == word {
        Ok((v, i + word.len()))
    } else {
        Err((i, JsonErr::BadLiteral))
    }
}

pub open spec fn word_true() -> Seq<u8> {
    seq![0x74u8, 0x72u8, 0x75u8, 0x65u8]
}

pub open spec fn word_false() -> Seq<u8> {
    seq![0x66u8, 0x61u8, 0x6cu8, 0x73u8, 0x65u8]
}

pub open spec fn word_null() -> Seq<u8> {
    seq![0x6eu8, 0x75u8, 0x6cu8, 0x6cu8]
}

/// Byte-wise lexicographic order (the order of `str`).
pub open spec fn bytes_lt(a: Seq<u8>, b: Seq<u8>) -> bool
    decreases a.len(),
{
    if a.len() == 0 {
        b.len() > 0
    } else if b.len() == 0 {
        false
    } else if a[0] != b[0] {
        a[0] < b[0]
    } else {
        bytes_lt(a.drop_first(), b.drop_first())
    }
}

/// The order of object keys: that of their UTF-8 bytes.
pub open spec fn key_lt(a: Seq<char>, b: Seq<char>) -> bool {
    bytes_lt(encode_utf8(a), encode_utf8(b))
}

/// Object members in strictly increasing key order.
pub open spec fn keys_sorted(m: Seq<(Seq<char>, JsonV)>) -> bool {
    forall|i: int, j: int| 0 <= i < j < m.len() ==> key_lt(#[trigger] m[i].0, #[trigger] m[j].0)
}

/// The number of leading members whose key is below `k`.
pub open spec fn insert_pos(m: Seq<(Seq<char>, JsonV)>, k: Seq<char>) -> int
    decreases m.len(),
{
    if m.len() == 0 {
        0
    } else if key_lt(m[0].0, k) {
        1 + insert_pos(m.drop_first(), k)
    } else {
        0
    }
}

/// `m` with `k` set to `v`: the member with key `k` is replaced, or a new one goes in
/// before the first greater key.
pub open spec fn obj_insert(m: Seq<(Seq<char>, JsonV)>, k: Seq<char>, v: JsonV) -> Seq<(Seq<char>, JsonV)> {
    let p = insert_pos(m, k);
    if p < m.len() && m[p].0 == k {
        m.update(p, (k, v))
    } else {
        m.insert(p, (k, v))
    }
}

/// The value of the first member with key `k`.
pub open spec fn lookup(m: Seq<(Seq<char>, JsonV)>, k: Seq<char>) -> Option<JsonV>
    decreases m.len(),
{
    if m.len() == 0 {
        Option::None
    } else if m[0].0 == k {
        Some(m[0].1)
    } else {
        lookup(m.drop_first(), k)
    }
}

/// A value starting at `i` (whitespace already skipped).
pub open spec fn read_value(b: Seq<u8>, i: int) -> Read<JsonV>
    decreases b.len() - i, 1int,
{
    if !(0 <= i < b.len()) {
        Err((i, JsonErr::ExpectedValue))
    } else if b[i] == 0x7b {
        read_object(b, i)
    } else if b[i] == 0x5b {
        read_array(b, i)
    } else if b[i] == 0x22 {
        match read_string(b, i) {
            Ok((s, k)) => Ok((JsonV::Str(s), k)),
            Err(e) => Err(e),
        }
    } else if b[i] == 0x74 {
        read_literal(b, i, word_true(), JsonV::Bool(true))
    } else if b[i] == 0x66 {
        read_literal(b, i, word_false(), JsonV::Bool(false))
    } else if b[i] == 0x6e {
        read_literal(b, i, word_null(), JsonV::Null)
    } else if b[i] == 0x2d || is_digit(b[i]) {
        match read_number(b, i) {
            Ok((t, k)) => Ok((JsonV::Num(t), k)),
            Err(e) => Err(e),
        }
    } else {
        Err((i, JsonErr::ExpectedValue))
    }
}

/// An object starting at its `{` at `i`.
pub open spec fn read_object(b: Seq<u8>, i: int) -> Read<JsonV>
    decreases b.len() - i, 0int,
{
    if !at(b, i, 0x7b) {
        Err((i, JsonErr::ExpectedOpenBrace))
    } else {
        let j = skip_ws(b, i + 1);
        if at(b, j, 0x7d) {
            Ok((JsonV::Obj(Seq::empty()), j + 1))
        } else {
            proof {
                lemma_skip_ws(b, i + 1);
            }
            read_members(b, j, Seq::empty())
        }
    }
}

/// Object members from `j` on, after the members `acc` read so far.
pub open spec fn read_members(b: Seq<u8>, j: int, acc: Seq<(Seq<char>, JsonV)>) -> Read<JsonV>
    decreases b.len() - j, 2int,
{
    if !(0 <= j <= b.len()) {
        Err((j, JsonErr::ObjectSeparator))
    } else {
        let k0 = skip_ws(b, j);
        match read_string(b, k0) {
            Err(e) => Err(e),
            Ok((key, k1)) => {
                let k2 = skip_ws(b, k1);
                if !at(b, k2, 0x3a) {
                    Err((k2, JsonErr::ExpectedColon))
                } else {
                    let k3 = skip_ws(b, k2 + 1);
                    proof {
                        lemma_skip_ws(b, j);
                        lemma_read_string_body(b, k0 + 1, Seq::empty());
                        lemma_skip_ws(b, k1);
                        lemma_skip_ws(b, k2 + 1);
                    }
                    match read_value(b, k3) {
                        Err(e) => Err(e),
                        Ok((v, k4)) => if k4 <= k3 {
                            Err((k3, JsonErr::ExpectedValue))
                        } else {
                            let acc2 = obj_insert(acc, key, v);
                            let k5 = skip_ws(b, k4);
                            proof {
                                lemma_skip_ws(b, k4);
                            }
                            if at(b, k5, 0x2c) {
                                read_members(b, k5 + 1, acc2)
                            } else if at(b, k5, 0x7d) {
                                Ok((JsonV::Obj(acc2), k5 + 1))
                            } else {
                                Err((k5, JsonErr::ObjectSeparator))
                            }
                        },
                    }
                }
            },
        }
    }
}

/// An array starting at its `[` at `i`.
pub open spec fn read_array(b: Seq<u8>, i: int) -> Read<JsonV>
    decreases b.len() - i, 0int,
{
    if !at(b, i, 0x5b) {
        Err((i, JsonErr::ExpectedOpenBracket))
    } else {
        let j = skip_ws(b, i + 1);
        if at(b, j, 0x5d) {
            Ok((JsonV::Arr(Seq::empty()), j + 1))
        } else {
            proof {
                lemma_skip_ws(b, i + 1);
            }
            read_items(b, j, Seq::empty())
        }
    }
}

/// Array items from `j` on, after the items `acc` read so far.
pub open spec fn read_items(b: Seq<u8>, j: int, acc: Seq<JsonV>) -> Read<JsonV>
    decreases b.len() - j, 2int,
{
    if !(0 <= j <= b.len()) {
        Err((j, JsonErr::ArraySeparator))
    } else {
        let k0 = skip_ws(b, j);
        proof {
            lemma_skip_ws(b, j);
        }
        match read_value(b, k0) {
            Err(e) => Err(e),
            Ok((v, k1)) => if k1 <= k0 {
                Err((k0, JsonErr::ExpectedValue))
            } else {
                let acc2 = acc.push(v);
                let k2 = skip_ws(b, k1);
                proof {
                    lemma_skip_ws(b, k1);
                }
                if at(b, k2, 0x2c) {
                    read_items(b, k2 + 1, acc2)
                } else if at(b, k2, 0x5d) {
                    Ok((JsonV::Arr(acc2), k2 + 1))
                } else {
                    Err((k2, JsonErr::ArraySeparator))
                }
            },
        }
    }
}

/// A whole document: whitespace, one value, whitespace, and nothing after it.
pub open spec fn parse_document(b: Seq<u8>) -> Result<JsonV, (int, JsonErr)> {
    match read_value(b, skip_ws(b, 0)) {
        Err(e) => Err(e),
        Ok((v, j)) => {
            let k = skip_ws(b, j);
            if k == b.len() {
                Ok(v)
            } else {
                Err((k, JsonErr::TrailingContent))
            }
        },
    }
}



// ---------------------------------------------------------------------------
// Values
// ---------------------------------------------------------------------------

/// A parsed JSON value. A number keeps the text it was written with; an object's
/// members are in increasing key order, each key once, as in an ordered map.
#[derive(Debug, PartialEq)]
pub enum Json {
    Null,
    Bool(bool),
    Num(String),
    Str(String),
    Arr(Vec<Json>),
    Obj(Vec<(String, Json)>),
}

impl Json {
    pub open spec fn model(&self) -> JsonV
        decreases self,
    {
        match self {
            Json::Null => JsonV::Null,
            Json::Bool(v) => JsonV::Bool(*v),
            Json::Num(t) => JsonV::Num(t@),
            Json::Str(t) => JsonV::Str(t@),
            Json::Arr(items) => JsonV::Arr(items_view(items@)),
            Json::Obj(members) => JsonV::Obj(members_view(members@)),
        }
    }
}

impl View for Json {
    type V = JsonV;

    open spec fn view(&self) -> JsonV {
        self.model()
    }
}


impl Clone for Json {
    /// A deep copy with the same value.
    fn clone(&self) -> (r: Json)
        ensures
            r@ == self@,
        decreases self,
    {
        match self {
            Json::Null => Json::Null,
            Json::Bool(v) => Json::Bool(*v),
            Json::Num(t) => Json::Num(t.clone()),
            Json::Str(t) => Json::Str(t.clone()),
            Json::Arr(items) => {
                let mut out: Vec<Json> = Vec::new();
                let mut i: usize = 0;
                while i < items.len()
                    invariant
                        i <= items@.len(),
                        *self == Json::Arr(*items),
                        items_view(out@) == items_view(items@.take(i as int)),
                    decreases items@.len() - i,
                {
                    proof {
                        assert(decreases_to!(*self => (*self)->Arr_0));
                        assert(decreases_to!(*items => items@));
                        assert(decreases_to!(items@ => items@[i as int]));
                    }
                    let x = items[i].clone();
                    let ghost before = out@;
                    out.push(x);
                    proof {
                        assert(out@.drop_last() =~= before);
                        assert(items@.take(i + 1).drop_last() =~= items@.take(i as int));
                    }
                    i = i + 1;
                }
                assert(items@.take(items@.len() as int) =~= items@);
                Json::Arr(out)
            },
            Json::Obj(members) => {
                let mut out: Vec<(String, Json)> = Vec::new();
                let mut i: usize = 0;
                while i < members.len()
                    invariant
                        i <= members@.len(),
                        *self == Json::Obj(*members),
                        members_view(out@) == members_view(members@.take(i as int)),
                    decreases members@.len() - i,
                {
                    proof {
                        assert(decreases_to!(*self => (*self)->Obj_0));
                        assert(decreases_to!(*members => members@));
                        assert(decreases_to!(members@ => members@[i as int]));
                        assert(decreases_to!(members@[i as int] => members@[i as int].1));
                    }
                    let k = members[i].0.clone();
                    let x = members[i].1.clone();
                    let ghost before = out@;
                    out.push((k, x));
                    proof {
                        assert(out@.drop_last() =~= before);
                        assert(members@.take(i + 1).drop_last() =~= members@.take(i as int));
                    }
                    i = i + 1;
                }
                assert(members@.take(members@.len() as int) =~= members@);
                Json::Obj(out)
            },
        }
    }
}

/// The values of array items.
pub open spec fn items_view(items: Seq<Json>) -> Seq<JsonV>
    decreases items,
{
    if items.len() == 0 {
        Seq::empty()
    } else {
        items_view(items.drop_last()).push(items.last().model())
    }
}

/// The values of object members.
pub open spec fn members_view(members: Seq<(String, Json)>) -> Seq<(Seq<char>, JsonV)>
    decreases members,
{
    if members.len() == 0 {
        Seq::empty()
    } else {
        members_view(members.drop_last()).push((members.last().0@, members.last().1.model()))
    }
}

pub proof fn lemma_members_view(members: Seq<(String, Json)>)
    ensures
        members_view(members).len() == members.len(),
        forall|i: int|
            0 <= i < members.len() ==> #[trigger] members_view(members)[i] == (
                members[i].0@,
                members[i].1@,
            ),
    decreases members.len(),
{
    if members.len() > 0 {
        lemma_members_view(members.drop_last());
    }
}

pub open spec fn bool_of(v: JsonV) -> Option<bool> {
    match v {
        JsonV::Bool(x) => Some(x),
        _ => Option::None,
    }
}

pub open spec fn str_of(v: JsonV) -> Option<Seq<char>> {
    match v {
        JsonV::Str(x) => Some(x),
        _ => Option::None,
    }
}

pub open spec fn arr_of(v: JsonV) -> Option<Seq<JsonV>> {
    match v {
        JsonV::Arr(x) => Some(x),
        _ => Option::None,
    }
}

pub open spec fn obj_of(v: JsonV) -> Option<Seq<(Seq<char>, JsonV)>> {
    match v {
        JsonV::Obj(x) => Some(x),
        _ => Option::None,
    }
}

/// The field `key` of an object; a field holding `null` counts as missing.
pub open spec fn field(v: JsonV, key: Seq<char>) -> Option<JsonV> {
    match v {
        JsonV::Obj(m) => match lookup(m, key) {
            Some(JsonV::Null) => Option::None,
            found => found,
        },
        _ => Option::None,
    }
}

// ---------------------------------------------------------------------------
// Calls into std
// ---------------------------------------------------------------------------

/// `std::str::from_utf8`: the bytes as a `str` when they are UTF-8, and nothing otherwise.
#[verifier::external_body]
fn utf8_text<'a>(bytes: &'a [u8]) -> (r: Option<&'a str>)
    ensures
        r is Some <==> valid_utf8(bytes@),
        r matches Some(t) ==> t.spec_bytes() == bytes@,
{
    std::str::from_utf8(bytes).ok()
}

/// `u32::from_str_radix(text, 16)` on at most four bytes.
#[verifier::external_body]
fn hex_value(text: &str) -> (r: Option<u32>)
    requires
        text.spec_bytes().len() <= 4,
    ensures
        r == hex_number(text.spec_bytes()),
{
    u32::from_str_radix(text, 16).ok()
}

/// `char::from_u32`: the character with that scalar value, if there is one.
#[verifier::external_body]
fn char_from_u32(v: u32) -> (r: Option<char>)
    ensures
        r is Some <==> is_scalar(v),
        r matches Some(c) ==> c as u32 == v,
{
    char::from_u32(v)
}

/// `String::push`.
#[verifier::external_body]
fn push_char(out: &mut String, c: char)
    ensures
        final(out)@ == old(out)@.push(c),
{
    out.push(c);
}

/// `String::push_str`.
#[verifier::external_body]
fn push_text(out: &mut String, t: &str)
    ensures
        final(out)@ == old(out)@ + t@,
{
    out.push_str(t);
}

// ---------------------------------------------------------------------------
// The reader
// ---------------------------------------------------------------------------

spec fn same_u32(r: Result<(u32, usize), (usize, JsonErr)>, s: Read<u32>) -> bool {
    match r {
        Ok((v, k)) => s == Read::<u32>::Ok((v, k as int)),
        Err((p, e)) => s == Read::<u32>::Err((p as int, e)),
    }
}

spec fn same_char(r: Result<(char, usize), (usize, JsonErr)>, s: Read<char>) -> bool {
    match r {
        Ok((v, k)) => s == Read::<char>::Ok((v, k as int)),
        Err((p, e)) => s == Read::<char>::Err((p as int, e)),
    }
}

spec fn same_str(r: Result<(String, usize), (usize, JsonErr)>, s: Read<Seq<char>>) -> bool {
    match r {
        Ok((v, k)) => s == Read::<Seq<char>>::Ok((v@, k as int)),
        Err((p, e)) => s == Read::<Seq<char>>::Err((p as int, e)),
    }
}

fn is_ws_byte(c: u8) -> (r: bool)
    ensures
        r == is_ws(c),
{
    c == 0x20 || c == 0x09 || c == 0x0a || c == 0x0d
}

fn skip_whitespace(b: &[u8], i: usize) -> (r: usize)
    requires
        i <= b@.len(),
    ensures
        r == skip_ws(b@, i as int),
        i <= r <= b@.len(),
{
    let mut j = i;
    while j < b.len() && is_ws_byte(b[j])
        invariant
            i <= j <= b@.len(),
            skip_ws(b@, j as int) == skip_ws(b@, i as int),
        decreases b@.len() - j,
    {
        j += 1;
    }
    j
}

fn hex4(b: &[u8], i: usize) -> (r: Result<(u32, usize), (usize, JsonErr)>)
    requires
        i <= b@.len(),
    ensures
        same_u32(r, read_hex4(b@, i as int)),
        r matches Ok((v, k)) ==> k == i + 4 && k <= b@.len() && v <= 0xffff,
{
    proof {
        lemma_read_hex4(b@, i as int);
    }
    if b.len() < 4 || i > b.len() - 4 {
        return Err((i, JsonErr::TruncatedUnicodeEscape));
    }
    let digits = &b[i..i + 4];
    match utf8_text(digits) {
        Option::None => Err((i, JsonErr::UnicodeEscapeNotAscii)),
        Some(t) => match hex_value(t) {
            Option::None => Err((i, JsonErr::UnicodeEscapeNotHex)),
            Some(v) => Ok((v, i + 4)),
        },
    }
}

fn unicode_escape(b: &[u8], i: usize) -> (r: Result<(char, usize), (usize, JsonErr)>)
    requires
        i <= b@.len(),
    ensures
        same_char(r, read_unicode_escape(b@, i as int)),
        r matches Ok((c, k)) ==> i + 4 <= k <= b@.len(),
        r matches Err((p, e)) ==> p <= b@.len(),
{
    let (hi, j) = match hex4(b, i) {
        Err(e) => return Err(e),
        Ok(x) => x,
    };
    if 0xD800 <= hi && hi < 0xDC00 {
        if j < b.len() && b[j] == 0x5c && j + 1 < b.len() && b[j + 1] == 0x75 {
            let (lo, k) = match hex4(b, j + 2) {
                Err(e) => return Err(e),
                Ok(x) => x,
            };
            if 0xDC00 <= lo && lo < 0xE000 {
                let high: u32 = hi - 0xD800;
                assert(high << 10 == high * 1024) by (bit_vector)
                    requires
                        high < 0x400,
                ;
                let c: u32 = 0x10000 + (high << 10) + (lo - 0xDC00);
                return match char_from_u32(c) {
                    Some(ch) => {
                        proof {
                            char_u32_cast(ch, c);
                        }
                        Ok((ch, k))
                    },
                    Option::None => Err((k, JsonErr::InvalidCodePoint)),
                };
            }
            return Err((k, JsonErr::LoneSurrogate));
        }
        return Err((j, JsonErr::LoneSurrogate));
    }
    match char_from_u32(hi) {
        Some(ch) => {
            proof {
                char_u32_cast(ch, hi);
            }
            Ok((ch, j))
        },
        Option::None => Err((j, JsonErr::InvalidCodePoint)),
    }
}

fn escape_char(e: u8) -> (r: Option<char>)
    ensures
        r == simple_escape(e),
{
    if e == 0x22 {
        Some('"')
    } else if e == 0x5c {
        Some('\\')
    } else if e == 0x2f {
        Some('/')
    } else if e == 0x62 {
        Some('\u{8}')
    } else if e == 0x66 {
        Some('\u{c}')
    } else if e == 0x6e {
        Some('\n')
    } else if e == 0x72 {
        Some('\r')
    } else if e == 0x74 {
        Some('\t')
    } else {
        Option::None
    }
}

/// How many bytes the UTF-8 sequence led by `first` claims.
fn utf8_len(first: u8) -> (r: usize)
    ensures
        r == utf8_width(first),
{
    if first <= 0x7f {
        1
    } else if 0xc0 <= first && first <= 0xdf {
        2
    } else if 0xe0 <= first && first <= 0xef {
        3
    } else {
        4
    }
}

fn string(b: &[u8], i: usize) -> (r: Result<(String, usize), (usize, JsonErr)>)
    requires
        i <= b@.len(),
    ensures
        same_str(r, read_string(b@, i as int)),
        r matches Ok((s, k)) ==> i < k <= b@.len(),
        r matches Err((p, e)) ==> p <= b@.len(),
{
    if !(i < b.len() && b[i] == 0x22) {
        return Err((i, JsonErr::ExpectedQuote));
    }
    let mut out = String::new();
    let mut j = i + 1;
    loop
        invariant
            i < j <= b@.len(),
            read_string(b@, i as int) == read_string_body(b@, j as int, out@),
        decreases b@.len() - j,
    {
        if j >= b.len() {
            return Err((j, JsonErr::UnterminatedString));
        }
        let c = b[j];
        if c == 0x22 {
            return Ok((out, j + 1));
        } else if c == 0x5c {
            if j + 1 >= b.len() {
                return Err((j + 1, JsonErr::TruncatedEscape));
            }
            let e = b[j + 1];
            if e == 0x75 {
                match unicode_escape(b, j + 2) {
                    Err(x) => return Err(x),
                    Ok((ch, k)) => {
                        push_char(&mut out, ch);
                        j = k;
                    },
                }
            } else {
                match escape_char(e) {
                    Some(ch) => {
                        push_char(&mut out, ch);
                        j = j + 2;
                    },
                    Option::None => return Err((j + 2, JsonErr::UnknownEscape)),
                }
            }
        } else {
            let w = utf8_len(c);
            if w > b.len() - j {
                return Err((j, JsonErr::TruncatedUtf8));
            }
            match utf8_text(&b[j..j + w]) {
                Option::None => return Err((j + w, JsonErr::InvalidUtf8)),
                Some(t) => {
                    proof {
                        encode_utf8_decode_utf8(t@);
                    }
                    push_text(&mut out, t);
                    j = j + w;
                },
            }
        }
    }
}

spec fn same_json(r: Result<(Json, usize), (usize, JsonErr)>, s: Read<JsonV>) -> bool {
    match r {
        Ok((v, k)) => s == Read::<JsonV>::Ok((v@, k as int)),
        Err((p, e)) => s == Read::<JsonV>::Err((p as int, e)),
    }
}

fn digits_from(b: &[u8], i: usize) -> (r: usize)
    requires
        i <= b@.len(),
    ensures
        r == digits_end(b@, i as int),
        i <= r <= b@.len(),
{
    let mut j = i;
    while j < b.len() && 0x30 <= b[j] && b[j] <= 0x39
        invariant
            i <= j <= b@.len(),
            digits_end(b@, j as int) == digits_end(b@, i as int),
        decreases b@.len() - j,
    {
        j += 1;
    }
    j
}

fn number(b: &[u8], i: usize) -> (r: Result<(String, usize), (usize, JsonErr)>)
    requires
        i < b@.len(),
    ensures
        same_str(r, read_number(b@, i as int)),
        r matches Ok((t, k)) ==> i < k <= b@.len(),
{
    let j0 = if b[i] == 0x2d {
        i + 1
    } else {
        i
    };
    let j1 = digits_from(b, j0);
    let has_frac = j1 < b.len() && b[j1] == 0x2e;
    let j2 = if has_frac {
        digits_from(b, j1 + 1)
    } else {
        j1
    };
    let mantissa = j1 > j0 || (has_frac && j2 > j1 + 1);
    let (end, ok) = if j2 < b.len() && (b[j2] == 0x65 || b[j2] == 0x45) {
        let k = if j2 + 1 < b.len() && (b[j2 + 1] == 0x2b || b[j2 + 1] == 0x2d) {
            j2 + 2
        } else {
            j2 + 1
        };
        let j3 = digits_from(b, k);
        (j3, mantissa && j3 > k)
    } else {
        (j2, mantissa)
    };
    match utf8_text(&b[i..end]) {
        Option::None => Err((end, JsonErr::NumberNotAscii)),
        Some(t) => if !ok {
            Err((end, JsonErr::BadNumber))
        } else {
            proof {
                encode_utf8_decode_utf8(t@);
            }
            Ok((t.to_owned(), end))
        },
    }
}

fn literal(b: &[u8], i: usize, word: &[u8], v: Json) -> (r: Result<(Json, usize), (usize, JsonErr)>)
    requires
        i <= b@.len(),
        word@.len() > 0,
    ensures
        same_json(r, read_literal(b@, i as int, word@, v@)),
        r matches Ok((x, k)) ==> i < k <= b@.len(),
{
    if word.len() > b.len() - i {
        return Err((i, JsonErr::BadLiteral));
    }
    let mut n: usize = 0;
    while n < word.len()
        invariant
            n <= word@.len(),
            i + word@.len() <= b@.len(),
            b@.len() == b.len(),
            forall|m: int| 0 <= m < n ==> b@[i + m] == word@[m],
        decreases word@.len() - n,
    {
        if b[i + n] != word[n] {
            assert(b@.subrange(i as int, i + word@.len())[n as int] != word@[n as int]);
            return Err((i, JsonErr::BadLiteral));
        }
        n += 1;
    }
    assert(b@.subrange(i as int, i + word@.len()) =~= word@);
    Ok((v, i + word.len()))
}

proof fn lemma_bytes_lt_skip(a: Seq<u8>, b: Seq<u8>, i: int)
    requires
        0 <= i < a.len(),
        i < b.len(),
        a[i] == b[i],
    ensures
        bytes_lt(a.skip(i), b.skip(i)) == bytes_lt(a.skip(i + 1), b.skip(i + 1)),
{
    assert(a.skip(i).drop_first() =~= a.skip(i + 1));
    assert(b.skip(i).drop_first() =~= b.skip(i + 1));
}

/// Whether `a` comes before `b` byte-wise.
fn bytes_less(a: &[u8], b: &[u8]) -> (r: bool)
    ensures
        r == bytes_lt(a@, b@),
{
    let mut i: usize = 0;
    assert(a@.skip(0) =~= a@);
    assert(b@.skip(0) =~= b@);
    loop
        invariant
            i <= a@.len(),
            i <= b@.len(),
            bytes_lt(a@, b@) == bytes_lt(a@.skip(i as int), b@.skip(i as int)),
        decreases a@.len() - i,
    {
        if i == a.len() {
            return i < b.len();
        }
        if i == b.len() {
            return false;
        }
        if a[i] != b[i] {
            return a[i] < b[i];
        }
        proof {
            lemma_bytes_lt_skip(a@, b@, i as int);
        }
        i += 1;
    }
}

/// Whether key `a` comes before key `b`.
fn key_less(a: &str, b: &str) -> (r: bool)
    ensures
        r == key_lt(a@, b@),
{
    bytes_less(a.as_bytes(), b.as_bytes())
}

proof fn lemma_insert_pos(m: Seq<(Seq<char>, JsonV)>, k: Seq<char>, p: int)
    requires
        0 <= p <= m.len(),
        forall|q: int| 0 <= q < p ==> key_lt(#[trigger] m[q].0, k),
        p == m.len() || !key_lt(m[p].0, k),
    ensures
        insert_pos(m, k) == p,
    decreases p,
{
    if p > 0 {
        let rest = m.drop_first();
        assert forall|q: int| 0 <= q < p - 1 implies key_lt(#[trigger] rest[q].0, k) by {
            assert(rest[q] == m[q + 1]);
        }
        if p < m.len() {
            assert(rest[p - 1] == m[p]);
        }
        lemma_insert_pos(rest, k, p - 1);
    }
}

/// Sets `key` to `value` in object members kept in key order.
fn insert_member(members: &mut Vec<(String, Json)>, key: String, value: Json)
    ensures
        members_view(final(members)@) == obj_insert(members_view(old(members)@), key@, value@),
{
    let ghost before = members_view(members@);
    proof {
        lemma_members_view(members@);
    }
    let mut p: usize = 0;
    while p < members.len() && key_less(members[p].0.as_str(), key.as_str())
        invariant
            p <= members@.len(),
            before == members_view(members@),
            before.len() == members@.len(),
            forall|i: int| 0 <= i < members@.len() ==> #[trigger] before[i] == (members@[i].0@, members@[i].1@),
            forall|q: int| 0 <= q < p ==> key_lt(#[trigger] before[q].0, key@),
        decreases members@.len() - p,
    {
        p += 1;
    }
    proof {
        lemma_insert_pos(before, key@, p as int);
    }
    if p < members.len() && str_eq(members[p].0.as_str(), key.as_str()) {
        members.set(p, (key, value));
    } else {
        members.insert(p, (key, value));
    }
    proof {
        lemma_members_view(members@);
        assert(members_view(members@) =~= obj_insert(before, key@, value@));
    }
}

fn value(b: &[u8], i: usize) -> (r: Result<(Json, usize), (usize, JsonErr)>)
    requires
        i <= b@.len(),
    ensures
        same_json(r, read_value(b@, i as int)),
        r matches Ok((v, k)) ==> i < k <= b@.len(),
    decreases b@.len() - i, 1int,
{
    if i >= b.len() {
        return Err((i, JsonErr::ExpectedValue));
    }
    let c = b[i];
    if c == 0x7b {
        object(b, i)
    } else if c == 0x5b {
        array(b, i)
    } else if c == 0x22 {
        match string(b, i) {
            Ok((t, k)) => Ok((Json::Str(t), k)),
            Err(e) => Err(e),
        }
    } else if c == 0x74 {
        let word: &[u8] = &[0x74u8, 0x72u8, 0x75u8, 0x65u8];
        assert(word@ == word_true());
        literal(b, i, word, Json::Bool(true))
    } else if c == 0x66 {
        let word: &[u8] = &[0x66u8, 0x61u8, 0x6cu8, 0x73u8, 0x65u8];
        assert(word@ == word_false());
        literal(b, i, word, Json::Bool(false))
    } else if c == 0x6e {
        let word: &[u8] = &[0x6eu8, 0x75u8, 0x6cu8, 0x6cu8];
        assert(word@ == word_null());
        literal(b, i, word, Json::Null)
    } else if c == 0x2d || (0x30 <= c && c <= 0x39) {
        match number(b, i) {
            Ok((t, k)) => Ok((Json::Num(t), k)),
            Err(e) => Err(e),
        }
    } else {
        Err((i, JsonErr::ExpectedValue))
    }
}

fn object(b: &[u8], i: usize) -> (r: Result<(Json, usize), (usize, JsonErr)>)
    requires
        i <= b@.len(),
    ensures
        same_json(r, read_object(b@, i as int)),
        r matches Ok((v, k)) ==> i < k <= b@.len(),
    decreases b@.len() - i, 0int,
{
    if !(i < b.len() && b[i] == 0x7b) {
        return Err((i, JsonErr::ExpectedOpenBrace));
    }
    let mut members: Vec<(String, Json)> = Vec::new();
    let mut j = skip_whitespace(b, i + 1);
    if j < b.len() && b[j] == 0x7d {
        proof {
            assert(members_view(members@) =~= Seq::empty());
        }
        return Ok((Json::Obj(members), j + 1));
    }
    proof {
        assert(members_view(members@) =~= Seq::empty());
    }
    loop
        invariant
            i < j <= b@.len(),
            read_object(b@, i as int) == read_members(b@, j as int, members_view(members@)),
        decreases b@.len() - j,
    {
        let k0 = skip_whitespace(b, j);
        let (key, k1) = match string(b, k0) {
            Err(e) => return Err(e),
            Ok(x) => x,
        };
        let k2 = skip_whitespace(b, k1);
        if !(k2 < b.len() && b[k2] == 0x3a) {
            return Err((k2, JsonErr::ExpectedColon));
        }
        let k3 = skip_whitespace(b, k2 + 1);
        let (v, k4) = match value(b, k3) {
            Err(e) => return Err(e),
            Ok(x) => x,
        };
        insert_member(&mut members, key, v);
        let k5 = skip_whitespace(b, k4);
        if k5 < b.len() && b[k5] == 0x2c {
            j = k5 + 1;
        } else if k5 < b.len() && b[k5] == 0x7d {
            return Ok((Json::Obj(members), k5 + 1));
        } else {
            return Err((k5, JsonErr::ObjectSeparator));
        }
    }
}

fn array(b: &[u8], i: usize) -> (r: Result<(Json, usize), (usize, JsonErr)>)
    requires
        i <= b@.len(),
    ensures
        same_json(r, read_array(b@, i as int)),
        r matches Ok((v, k)) ==> i < k <= b@.len(),
    decreases b@.len() - i, 0int,
{
    if !(i < b.len() && b[i] == 0x5b) {
        return Err((i, JsonErr::ExpectedOpenBracket));
    }
    let mut items: Vec<Json> = Vec::new();
    let mut j = skip_whitespace(b, i + 1);
    if j < b.len() && b[j] == 0x5d {
        proof {
            assert(items_view(items@) =~= Seq::empty());
        }
        return Ok((Json::Arr(items), j + 1));
    }
    proof {
        assert(items_view(items@) =~= Seq::empty());
    }
    loop
        invariant
            i < j <= b@.len(),
            read_array(b@, i as int) == read_items(b@, j as int, items_view(items@)),
        decreases b@.len() - j,
    {
        let k0 = skip_whitespace(b, j);
        let (v, k1) = match value(b, k0) {
            Err(e) => return Err(e),
            Ok(x) => x,
        };
        let ghost before = items@;
        items.push(v);
        proof {
            assert(items@.drop_last() =~= before);
        }
        let k2 = skip_whitespace(b, k1);
        if k2 < b.len() && b[k2] == 0x2c {
            j = k2 + 1;
        } else if k2 < b.len() && b[k2] == 0x5d {
            return Ok((Json::Arr(items), k2 + 1));
        } else {
            return Err((k2, JsonErr::ArraySeparator));
        }
    }
}


// ---------------------------------------------------------------------------
// Reading a parsed value
// ---------------------------------------------------------------------------

pub open spec fn field_str(v: JsonV, key: Seq<char>) -> Option<Seq<char>> {
    match field(v, key) {
        Some(x) => str_of(x),
        Option::None => Option::None,
    }
}

pub open spec fn field_arr(v: JsonV, key: Seq<char>) -> Option<Seq<JsonV>> {
    match field(v, key) {
        Some(x) => arr_of(x),
        Option::None => Option::None,
    }
}

pub open spec fn field_obj(v: JsonV, key: Seq<char>) -> Option<Seq<(Seq<char>, JsonV)>> {
    match field(v, key) {
        Some(x) => obj_of(x),
        Option::None => Option::None,
    }
}

impl Json {
    /// The field `key` of an object. A missing field and a field holding `null` both
    /// read as `None`; so does any key of a value that is not an object.
    pub fn get(&self, key: &str) -> (r: Option<&Json>)
        ensures
            match r {
                Some(v) => field(self@, key@) == Some(v@),
                Option::None => field(self@, key@) is None,
            },
    {
        match self {
            Json::Obj(members) => {
                let ghost m = members_view(members@);
                proof {
                    lemma_members_view(members@);
                    assert(m.skip(0) =~= m);
                    assert(self@ == JsonV::Obj(m));
                }
                let mut i: usize = 0;
                while i < members.len()
                    invariant
                        i <= members@.len(),
                        m == members_view(members@),
                        m.len() == members@.len(),
                        forall|q: int|
                            0 <= q < members@.len() ==> #[trigger] m[q] == (
                                members@[q].0@,
                                members@[q].1@,
                            ),
                        lookup(m, key@) == lookup(m.skip(i as int), key@),
                        self@ == JsonV::Obj(m),
                    decreases members@.len() - i,
                {
                    if str_eq(members[i].0.as_str(), key) {
                        let v = &members[i].1;
                        proof {
                            assert(m.skip(i as int)[0] == m[i as int]);
                            assert(lookup(m, key@) == Some(v@));
                        }
                        return match v {
                            Json::Null => Option::None,
                            _ => {
                                assert(v@ != JsonV::Null);
                                Some(v)
                            },
                        };
                    }
                    proof {
                        assert(m.skip(i as int).drop_first() =~= m.skip(i + 1));
                    }
                    i += 1;
                }
                Option::None
            },
            _ => Option::None,
        }
    }

    /// The string field `key`.
    pub fn str(&self, key: &str) -> (r: Option<&str>)
        ensures
            match r {
                Some(t) => field_str(self@, key@) == Some(t@),
                Option::None => field_str(self@, key@) is None,
            },
    {
        match self.get(key) {
            Some(v) => v.as_str(),
            Option::None => Option::None,
        }
    }

    /// The array field `key`.
    pub fn arr(&self, key: &str) -> (r: Option<&[Json]>)
        ensures
            match r {
                Some(items) => field_arr(self@, key@) == Some(items_view(items@)),
                Option::None => field_arr(self@, key@) is None,
            },
    {
        match self.get(key) {
            Some(v) => v.as_arr(),
            Option::None => Option::None,
        }
    }

    /// The object field `key`, as its members in key order.
    pub fn obj(&self, key: &str) -> (r: Option<&[(String, Json)]>)
        ensures
            match r {
                Some(members) => field_obj(self@, key@) == Some(members_view(members@)),
                Option::None => field_obj(self@, key@) is None,
            },
    {
        match self.get(key) {
            Some(v) => v.as_obj(),
            Option::None => Option::None,
        }
    }

    pub fn as_bool(&self) -> (r: Option<bool>)
        ensures
            r == bool_of(self@),
    {
        match self {
            Json::Bool(v) => Some(*v),
            _ => Option::None,
        }
    }

    pub fn as_str(&self) -> (r: Option<&str>)
        ensures
            match r {
                Some(t) => str_of(self@) == Some(t@),
                Option::None => str_of(self@) is None,
            },
    {
        match self {
            Json::Str(t) => Some(t.as_str()),
            _ => Option::None,
        }
    }

    pub fn as_arr(&self) -> (r: Option<&[Json]>)
        ensures
            match r {
                Some(items) => arr_of(self@) == Some(items_view(items@)),
                Option::None => arr_of(self@) is None,
            },
    {
        match self {
            Json::Arr(items) => Some(items.as_slice()),
            _ => Option::None,
        }
    }

    /// The members of an object, in key order.
    pub fn as_obj(&self) -> (r: Option<&[(String, Json)]>)
        ensures
            match r {
                Some(members) => obj_of(self@) == Some(members_view(members@)),
                Option::None => obj_of(self@) is None,
            },
    {
        match self {
            Json::Obj(members) => Some(members.as_slice()),
            _ => Option::None,
        }
    }
}


// ---------------------------------------------------------------------------
// Integers written as text
// ---------------------------------------------------------------------------

/// The value of decimal digits.
pub open spec fn decimal_value(d: Seq<u8>) -> int
    decreases d.len(),
{
    if d.len() == 0 {
        0
    } else {
        decimal_value(d.drop_last()) * 10 + (d.last() - 0x30)
    }
}

/// All bytes of `d` are decimal digits.
pub open spec fn all_digits(d: Seq<u8>) -> bool {
    forall|i: int| 0 <= i < d.len() ==> is_digit(#[trigger] d[i])
}

/// `s` starts with a `+` or `-`.
pub open spec fn signed_text(s: Seq<u8>) -> bool {
    s.len() > 0 && (s[0] == 0x2b || s[0] == 0x2d)
}

/// The digits of `s` after its sign, if it has one.
pub open spec fn unsigned_part(s: Seq<u8>) -> Seq<u8> {
    if signed_text(s) { s.drop_first() } else { s }
}

/// The `i64` that `str::parse::<i64>` reads from `s`: an optional `+` or `-`, then at least
/// one decimal digit and nothing else, with the value inside `i64`.
pub open spec fn i64_text(s: Seq<u8>) -> Option<i64> {
    let digits = unsigned_part(s);
    let v = if signed_text(s) && s[0] == 0x2d { -decimal_value(digits) } else { decimal_value(digits) };
    if digits.len() == 0 || !all_digits(digits) {
        Option::None
    } else if i64::MIN <= v <= i64::MAX {
        Some(v as i64)
    } else {
        Option::None
    }
}

pub open spec fn int_of(v: JsonV) -> Option<i64> {
    match v {
        JsonV::Str(t) => i64_text(encode_utf8(t)),
        JsonV::Bool(b) => Some(if b { 1i64 } else { 0i64 }),
        _ => Option::None,
    }
}

proof fn lemma_decimal_value_grows(d: Seq<u8>, n: int)
    requires
        0 <= n <= d.len(),
        forall|i: int| 0 <= i < d.len() ==> is_digit(#[trigger] d[i]),
    ensures
        decimal_value(d.take(n)) <= decimal_value(d),
        decimal_value(d.take(n)) >= 0,
    decreases d.len(),
{
    if d.len() > 0 {
        if n == d.len() {
            assert(d.take(n) =~= d);
            lemma_decimal_value_grows(d.drop_last(), n - 1);
            assert(d.drop_last().take(n - 1) =~= d.drop_last());
        } else {
            lemma_decimal_value_grows(d.drop_last(), n);
            assert(d.drop_last().take(n) =~= d.take(n));
            assert(d.drop_last() =~= d.drop_last().take(d.len() - 1));
            lemma_decimal_value_grows(d.drop_last(), d.len() - 1);
        }
    } else {
        assert(d.take(n) =~= d);
    }
}

/// Reads an `i64` written in decimal, as `str::parse::<i64>` does.
pub fn parse_i64(text: &str) -> (r: Option<i64>)
    ensures
        r == i64_text(text.spec_bytes()),
{
    let b = text.as_bytes();
    let ghost s = b@;
    let n = b.len();
    if n == 0 {
        return None;
    }
    let signed = b[0] == 0x2b || b[0] == 0x2d;
    let neg = b[0] == 0x2d;
    let start: usize = if signed { 1 } else { 0 };
    let ghost digits = unsigned_part(s);
    assert(digits =~= s.subrange(start as int, n as int));
    if start == n {
        return None;
    }
    let mut acc: i128 = 0;
    let mut i: usize = start;
    while i < n
        invariant
            s == b@,
            s == text.spec_bytes(),
            n == s.len(),
            n > 0,
            signed == (s[0] == 0x2b || s[0] == 0x2d),
            neg == (s[0] == 0x2d),
            start <= i <= n,
            start == (if signed { 1int } else { 0int }),
            digits == s.subrange(start as int, n as int),
            forall|j: int| 0 <= j < i - start ==> is_digit(#[trigger] digits[j]),
            acc == decimal_value(digits.take(i - start)),
            0 <= acc <= 0x8000_0000_0000_0000,
        decreases n - i,
    {
        let c = b[i];
        if !(0x30 <= c && c <= 0x39) {
            assert(!is_digit(digits[i - start]));
            assert(!all_digits(digits));
            return None;
        }
        proof {
            assert(digits.take(i - start + 1).drop_last() =~= digits.take(i - start));
        }
        acc = acc * 10 + (c - 0x30) as i128;
        i = i + 1;
        if acc > 0x8000_0000_0000_0000 {
            // every longer run of digits is larger still
            proof {
                assert(acc == decimal_value(digits.take(i - start)));
                if all_digits(digits) {
                    lemma_decimal_value_grows(digits, i - start);
                    assert(decimal_value(digits) > 0x8000_0000_0000_0000);
                    assert(unsigned_part(s) == digits);
                    let v = if signed_text(s) && s[0] == 0x2d { -decimal_value(digits) } else { decimal_value(digits) };
                    assert(!(i64::MIN <= v <= i64::MAX));
                    assert(i64_text(s) is None);
                } else {
                    assert(i64_text(s) is None);
                }
            }
            return None;
        }
    }
    assert(digits.take(n - start) =~= digits);
    let v: i128 = if neg { -acc } else { acc };
    if v < i64::MIN as i128 || v > i64::MAX as i128 {
        return None;
    }
    Some(v as i64)
}

impl Json {
    /// The integer a string or a boolean stands for: a string through `parse_i64`, a boolean
    /// as 0 or 1; numbers (whose integer reading goes through a float) and other values give
    /// `None`.
    pub fn as_int_text_or_bool(&self) -> (r: Option<i64>)
        ensures
            r == int_of(self@),
    {
        match self {
            Json::Str(t) => parse_i64(t.as_str()),
            Json::Bool(v) => Some(if *v { 1 } else { 0 }),
            _ => Option::None,
        }
    }
}

// ---------------------------------------------------------------------------
// Documents
// ---------------------------------------------------------------------------

impl JsonErr {
    /// What the reader says for each reason.
    pub open spec fn text(self) -> &'static str {
        match self {
            JsonErr::TrailingContent => "文档结尾之后还有内容",
            JsonErr::ExpectedOpenBrace => "期望 '{'",
            JsonErr::ExpectedOpenBracket => "期望 '['",
            JsonErr::ExpectedQuote => "期望 '\"'",
            JsonErr::ExpectedColon => "期望 ':'",
            JsonErr::BadLiteral => "无法识别的字面量",
            JsonErr::ExpectedValue => "期望一个值",
            JsonErr::ObjectSeparator => "对象里期望 ',' 或 '}'",
            JsonErr::ArraySeparator => "数组里期望 ',' 或 ']'",
            JsonErr::UnterminatedString => "字符串没有闭合",
            JsonErr::TruncatedEscape => "转义序列被截断",
            JsonErr::UnknownEscape => "未知转义",
            JsonErr::TruncatedUtf8 => "UTF-8 序列被截断",
            JsonErr::InvalidUtf8 => "非法 UTF-8",
            JsonErr::TruncatedUnicodeEscape => "\\u 转义被截断",
            JsonErr::UnicodeEscapeNotAscii => "\\u 转义不是 ASCII",
            JsonErr::UnicodeEscapeNotHex => "\\u 转义不是十六进制",
            JsonErr::InvalidCodePoint => "非法码点",
            JsonErr::LoneSurrogate => "孤立的高位代理",
            JsonErr::NumberNotAscii => "数字不是 ASCII",
            JsonErr::BadNumber => "数字格式非法",
        }
    }

    pub fn message(&self) -> (r: String)
        ensures
            r@ == self.text()@,
    {
        match self {
            JsonErr::TrailingContent => "文档结尾之后还有内容".to_owned(),
            JsonErr::ExpectedOpenBrace => "期望 '{'".to_owned(),
            JsonErr::ExpectedOpenBracket => "期望 '['".to_owned(),
            JsonErr::ExpectedQuote => "期望 '\"'".to_owned(),
            JsonErr::ExpectedColon => "期望 ':'".to_owned(),
            JsonErr::BadLiteral => "无法识别的字面量".to_owned(),
            JsonErr::ExpectedValue => "期望一个值".to_owned(),
            JsonErr::ObjectSeparator => "对象里期望 ',' 或 '}'".to_owned(),
            JsonErr::ArraySeparator => "数组里期望 ',' 或 ']'".to_owned(),
            JsonErr::UnterminatedString => "字符串没有闭合".to_owned(),
            JsonErr::TruncatedEscape => "转义序列被截断".to_owned(),
            JsonErr::UnknownEscape => "未知转义".to_owned(),
            JsonErr::TruncatedUtf8 => "UTF-8 序列被截断".to_owned(),
            JsonErr::InvalidUtf8 => "非法 UTF-8".to_owned(),
            JsonErr::TruncatedUnicodeEscape => "\\u 转义被截断".to_owned(),
            JsonErr::UnicodeEscapeNotAscii => "\\u 转义不是 ASCII".to_owned(),
            JsonErr::UnicodeEscapeNotHex => "\\u 转义不是十六进制".to_owned(),
            JsonErr::InvalidCodePoint => "非法码点".to_owned(),
            JsonErr::LoneSurrogate => "孤立的高位代理".to_owned(),
            JsonErr::NumberNotAscii => "数字不是 ASCII".to_owned(),
            JsonErr::BadNumber => "数字格式非法".to_owned(),
        }
    }
}

/// A rejected document: the byte offset where reading stopped, why, and the message.
#[derive(Debug)]
pub struct ParseError {
    pub offset: usize,
    pub kind: JsonErr,
    pub msg: String,
}

impl ParseError {
    pub fn new(offset: usize, kind: JsonErr) -> (r: ParseError)
        ensures
            r.offset == offset,
            r.kind == kind,
            r.msg@ == kind.text()@,
    {
        ParseError { offset, kind, msg: kind.message() }
    }
}

/// Reads a whole document: whitespace, one value, whitespace, and the end of the text.
pub fn parse(src: &str) -> (r: Result<Json, ParseError>)
    ensures
        match r {
            Ok(v) => parse_document(src.spec_bytes()) == Result::<JsonV, (int, JsonErr)>::Ok(v@),
            Err(e) => {
                &&& parse_document(src.spec_bytes()) == Result::<JsonV, (int, JsonErr)>::Err(
                    (e.offset as int, e.kind),
                )
                &&& e.msg@ == e.kind.text()@
            },
        },
{
    let b = src.as_bytes();
    let i = skip_whitespace(b, 0);
    match value(b, i) {
        Err((p, e)) => Err(ParseError::new(p, e)),
        Ok((v, j)) => {
            let k = skip_whitespace(b, j);
            if k != b.len() {
                Err(ParseError::new(k, JsonErr::TrailingContent))
            } else {
                Ok(v)
            }
        },
    }
}



proof fn lemma_raw_lead_byte(rest: Seq<char>)
    requires
        rest.len() > 0,
        rest[0] != '"',
        rest[0] != '\\',
    ensures
        encode_utf8(rest).len() > 0,
        encode_utf8(rest)[0] != 0x22,
        encode_utf8(rest)[0] != 0x5c,
        utf8_width(encode_utf8(rest)[0]) == vstd::utf8::encode_scalar(rest[0] as u32).len(),
        encode_utf8(rest) == vstd::utf8::encode_scalar(rest[0] as u32) + encode_utf8(rest.drop_first()),
{
    let e = encode_utf8(rest);
    vstd::utf8::encode_utf8_first_scalar(rest);
    let lead = e[0];
    if vstd::utf8::is_leading_byte_width_1(lead) {
        assert(lead & 0x7f == lead) by (bit_vector)
            requires
                lead <= 0x7f,
        ;
        assert(vstd::utf8::decode_first_scalar(e) == lead as u32);
        assert(rest[0] as u32 == lead as u32);
        if lead == 0x22 {
            char_u32_cast(rest[0], 0x22u32);
            assert(0x22u32 as char == '"');
        }
        if lead == 0x5c {
            char_u32_cast(rest[0], 0x5cu32);
            assert(0x5cu32 as char == '\\');
        }
    }
}

proof fn lemma_raw_string_body(b: Seq<u8>, j: int, out: Seq<char>, rest: Seq<char>)
    requires
        0 <= j,
        j + encode_utf8(rest).len() < b.len(),
        b.subrange(j, j + encode_utf8(rest).len()) == encode_utf8(rest),
        b[j + encode_utf8(rest).len()] == 0x22,
        forall|i: int| 0 <= i < rest.len() ==> #[trigger] rest[i] != '"' && rest[i] != '\\',
    ensures
        read_string_body(b, j, out) == Read::<Seq<char>>::Ok((out + rest, j + encode_utf8(rest).len() + 1)),
    decreases rest.len(),
{
    let e = encode_utf8(rest);
    if rest.len() == 0 {
        assert(out + rest =~= out);
    } else {
        let first = rest[0];
        let tail = rest.drop_first();
        lemma_raw_lead_byte(rest);
        let chunk = vstd::utf8::encode_scalar(first as u32);
        let w = chunk.len() as int;
        assert(b[j] == b.subrange(j, j + e.len())[0]);
        assert(b.subrange(j, j + w) =~= chunk) by {
            assert forall|k: int| 0 <= k < w implies b.subrange(j, j + w)[k] == chunk[k] by {
                assert(b.subrange(j, j + e.len())[k] == e[k]);
            }
        }
        assert(encode_utf8(seq![first]) =~= chunk) by {
            let one = seq![first];
            assert(one.drop_first() =~= Seq::<char>::empty());
            assert(one[0] == first);
            assert(encode_utf8(one.drop_first()) =~= Seq::<u8>::empty());
            assert(encode_utf8(one) == vstd::utf8::encode_scalar(one[0] as u32) + encode_utf8(one.drop_first()));
        }
        vstd::utf8::encode_utf8_valid_utf8(seq![first]);
        encode_utf8_decode_utf8(seq![first]);
        assert(b.subrange(j + w, j + w + encode_utf8(tail).len()) =~= encode_utf8(tail)) by {
            assert forall|k: int| 0 <= k < encode_utf8(tail).len() implies b.subrange(
                j + w,
                j + w + encode_utf8(tail).len(),
            )[k] == encode_utf8(tail)[k] by {
                assert(b.subrange(j, j + e.len())[w + k] == e[w + k]);
            }
        }
        assert forall|i: int| 0 <= i < tail.len() implies #[trigger] tail[i] != '"' && tail[i] != '\\' by {
            assert(tail[i] == rest[i + 1]);
        }
        lemma_raw_string_body(b, j + w, out + seq![first], tail);
        assert(out + seq![first] + tail =~= out + rest);
    }
}

/// Raw text round-trips: for any characters `c` other than `"` and `\`, the document made of
/// a quote, the UTF-8 bytes of `c` and a quote reads as the string `c` (a character of any
/// UTF-8 width is taken whole).
pub proof fn lemma_raw_text_reads_back(c: Seq<char>)
    requires
        forall|i: int| 0 <= i < c.len() ==> #[trigger] c[i] != '"' && c[i] != '\\',
    ensures
        parse_document(seq![0x22u8] + encode_utf8(c) + seq![0x22u8]) == Result::<JsonV, (int, JsonErr)>::Ok(
            JsonV::Str(c),
        ),
{
    let e = encode_utf8(c);
    let b = seq![0x22u8] + e + seq![0x22u8];
    assert(b.subrange(1, 1 + e.len() as int) =~= e);
    assert(b[1 + e.len() as int] == 0x22);
    lemma_raw_string_body(b, 1, Seq::empty(), c);
    assert(Seq::<char>::empty() + c =~= c);
    assert(skip_ws(b, 0) == 0);
    assert(read_value(b, 0) == Read::<JsonV>::Ok((JsonV::Str(c), b.len() as int)));
    assert(skip_ws(b, b.len() as int) == b.len());
}

// ---------------------------------------------------------------------------
// Laws
// ---------------------------------------------------------------------------

proof fn lemma_bytes_lt_irreflexive(a: Seq<u8>)
    ensures
        !bytes_lt(a, a),
    decreases a.len(),
{
    if a.len() > 0 {
        lemma_bytes_lt_irreflexive(a.drop_first());
    }
}

proof fn lemma_bytes_lt_transitive(a: Seq<u8>, b: Seq<u8>, c: Seq<u8>)
    requires
        bytes_lt(a, b),
        bytes_lt(b, c),
    ensures
        bytes_lt(a, c),
    decreases a.len(),
{
    if a.len() > 0 && b.len() > 0 && c.len() > 0 && a[0] == b[0] && b[0] == c[0] {
        lemma_bytes_lt_transitive(a.drop_first(), b.drop_first(), c.drop_first());
    }
}

proof fn lemma_bytes_lt_total(a: Seq<u8>, b: Seq<u8>)
    requires
        a != b,
    ensures
        bytes_lt(a, b) || bytes_lt(b, a),
    decreases a.len(),
{
    if a.len() > 0 && b.len() > 0 && a[0] == b[0] {
        if a.drop_first() == b.drop_first() {
            assert(a =~= seq![a[0]] + a.drop_first());
            assert(b =~= seq![b[0]] + b.drop_first());
        }
        lemma_bytes_lt_total(a.drop_first(), b.drop_first());
    } else if a.len() == 0 && b.len() == 0 {
        assert(a =~= b);
    }
}

/// Key order is a strict total order.
pub proof fn lemma_key_order(a: Seq<char>, b: Seq<char>, c: Seq<char>)
    ensures
        !key_lt(a, a),
        key_lt(a, b) && key_lt(b, c) ==> key_lt(a, c),
        a != b ==> key_lt(a, b) || key_lt(b, a),
        key_lt(a, b) ==> !key_lt(b, a),
{
    lemma_bytes_lt_irreflexive(encode_utf8(a));
    if key_lt(a, b) && key_lt(b, c) {
        lemma_bytes_lt_transitive(encode_utf8(a), encode_utf8(b), encode_utf8(c));
    }
    if key_lt(a, b) && key_lt(b, a) {
        lemma_bytes_lt_transitive(encode_utf8(a), encode_utf8(b), encode_utf8(a));
    }
    if a != b {
        encode_utf8_decode_utf8(a);
        encode_utf8_decode_utf8(b);
        lemma_bytes_lt_total(encode_utf8(a), encode_utf8(b));
    }
}

proof fn lemma_insert_pos_bounds(m: Seq<(Seq<char>, JsonV)>, k: Seq<char>)
    ensures
        0 <= insert_pos(m, k) <= m.len(),
        forall|q: int| 0 <= q < insert_pos(m, k) ==> key_lt(#[trigger] m[q].0, k),
        insert_pos(m, k) < m.len() ==> !key_lt(m[insert_pos(m, k)].0, k),
    decreases m.len(),
{
    if m.len() > 0 && key_lt(m[0].0, k) {
        let rest = m.drop_first();
        lemma_insert_pos_bounds(rest, k);
        assert forall|q: int| 0 <= q < insert_pos(m, k) implies key_lt(#[trigger] m[q].0, k) by {
            if q > 0 {
                assert(m[q] == rest[q - 1]);
            }
        }
    }
}

/// Setting a key in members kept in key order keeps them in key order.
pub proof fn lemma_obj_insert_sorted(m: Seq<(Seq<char>, JsonV)>, k: Seq<char>, v: JsonV)
    requires
        keys_sorted(m),
    ensures
        keys_sorted(obj_insert(m, k, v)),
{
    lemma_insert_pos_bounds(m, k);
    let p = insert_pos(m, k);
    let r = obj_insert(m, k, v);
    if p < m.len() && m[p].0 == k {
        assert forall|i: int, j: int| 0 <= i < j < r.len() implies key_lt(#[trigger] r[i].0, #[trigger] r[j].0) by {
            assert(r[i].0 == m[i].0);
            assert(r[j].0 == m[j].0);
        }
    } else {
        if p < m.len() {
            lemma_key_order(k, m[p].0, k);
        }
        assert forall|i: int, j: int| 0 <= i < j < r.len() implies key_lt(#[trigger] r[i].0, #[trigger] r[j].0) by {
            if j < p {
                assert(r[i] == m[i] && r[j] == m[j]);
            } else if j == p {
                assert(r[i] == m[i]);
            } else if i < p {
                assert(r[i] == m[i] && r[j] == m[j - 1]);
                lemma_key_order(m[i].0, k, m[j - 1].0);
                if j - 1 > p {
                    lemma_key_order(k, m[p].0, m[j - 1].0);
                }
            } else if i == p {
                assert(r[j] == m[j - 1]);
                if j - 1 > p {
                    lemma_key_order(k, m[p].0, m[j - 1].0);
                }
            } else {
                assert(r[i] == m[i - 1] && r[j] == m[j - 1]);
            }
        }
    }
}

proof fn lemma_lookup_at(m: Seq<(Seq<char>, JsonV)>, k: Seq<char>, idx: int)
    requires
        0 <= idx < m.len(),
        m[idx].0 == k,
        forall|q: int| 0 <= q < idx ==> #[trigger] m[q].0 != k,
    ensures
        lookup(m, k) == Some(m[idx].1),
    decreases idx,
{
    if idx > 0 {
        let rest = m.drop_first();
        assert forall|q: int| 0 <= q < idx - 1 implies #[trigger] rest[q].0 != k by {
            assert(rest[q] == m[q + 1]);
        }
        lemma_lookup_at(rest, k, idx - 1);
    }
}

proof fn lemma_lookup_absent(m: Seq<(Seq<char>, JsonV)>, k: Seq<char>)
    requires
        forall|q: int| 0 <= q < m.len() ==> #[trigger] m[q].0 != k,
    ensures
        lookup(m, k) is None,
    decreases m.len(),
{
    if m.len() > 0 {
        let rest = m.drop_first();
        assert forall|q: int| 0 <= q < rest.len() implies #[trigger] rest[q].0 != k by {
            assert(rest[q] == m[q + 1]);
        }
        lemma_lookup_absent(rest, k);
    }
}

/// In members kept in key order, a key is found at the one place it stands.
proof fn lemma_lookup_sorted(m: Seq<(Seq<char>, JsonV)>, k: Seq<char>)
    requires
        keys_sorted(m),
    ensures
        (exists|idx: int| 0 <= idx < m.len() && m[idx].0 == k) ==> lookup(m, k) == Some(
            m[choose|idx: int| 0 <= idx < m.len() && m[idx].0 == k].1,
        ),
        (forall|q: int| 0 <= q < m.len() ==> #[trigger] m[q].0 != k) ==> lookup(m, k) is None,
{
    if exists|idx: int| 0 <= idx < m.len() && m[idx].0 == k {
        let idx = choose|idx: int| 0 <= idx < m.len() && m[idx].0 == k;
        assert forall|q: int| 0 <= q < idx implies #[trigger] m[q].0 != k by {
            lemma_key_order(m[q].0, k, k);
        }
        lemma_lookup_at(m, k, idx);
    } else {
        lemma_lookup_absent(m, k);
    }
}

/// Setting `k` to `v` in members kept in key order: `k` then reads `v`, and every other
/// key reads what it read before (a repeated key keeps its last value).
pub proof fn lemma_obj_insert_lookup(m: Seq<(Seq<char>, JsonV)>, k: Seq<char>, v: JsonV, other: Seq<char>)
    requires
        keys_sorted(m),
    ensures
        lookup(obj_insert(m, k, v), k) == Some(v),
        other != k ==> lookup(obj_insert(m, k, v), other) == lookup(m, other),
{
    lemma_insert_pos_bounds(m, k);
    lemma_obj_insert_sorted(m, k, v);
    let p = insert_pos(m, k);
    let r = obj_insert(m, k, v);
    assert(r[p] == (k, v));
    lemma_lookup_sorted(r, k);
    lemma_lookup_sorted(r, other);
    lemma_lookup_sorted(m, other);
    assert(r[p].0 == k);
    lemma_lookup_sorted(r, k);
    assert forall|q: int| 0 <= q < p implies #[trigger] r[q].0 != k by {
        assert(r[q] == m[q]);
        lemma_key_order(m[q].0, k, k);
    }
    lemma_lookup_at(r, k, p);
    if other != k {
        if exists|idx: int| 0 <= idx < m.len() && m[idx].0 == other {
            let idx = choose|idx: int| 0 <= idx < m.len() && m[idx].0 == other;
            let ridx = if p < m.len() && m[p].0 == k {
                idx
            } else if idx < p {
                idx
            } else {
                idx + 1
            };
            assert(r[ridx] == m[idx]);
            assert forall|q: int| 0 <= q < ridx implies #[trigger] r[q].0 != other by {
                lemma_key_order(r[q].0, other, other);
            }
            lemma_lookup_at(r, other, ridx);
            assert forall|q: int| 0 <= q < idx implies #[trigger] m[q].0 != other by {
                lemma_key_order(m[q].0, other, other);
            }
            lemma_lookup_at(m, other, idx);
        } else {
            assert forall|q: int| 0 <= q < r.len() implies #[trigger] r[q].0 != other by {
                if !(p < m.len() && m[p].0 == k) {
                    if q < p {
                        assert(r[q] == m[q]);
                    } else if q > p {
                        assert(r[q] == m[q - 1]);
                    }
                } else {
                    if q != p {
                        assert(r[q] == m[q]);
                    }
                }
            }
            lemma_lookup_absent(r, other);
            lemma_lookup_absent(m, other);
        }
    }
}

/// Every object inside `v` has its members in strictly increasing key order.
pub open spec fn objects_sorted(v: JsonV) -> bool
    decreases v,
{
    match v {
        JsonV::Arr(items) => forall|i: int| 0 <= i < items.len() ==> objects_sorted(#[trigger] items[i]),
        JsonV::Obj(m) => keys_sorted(m) && forall|i: int|
            0 <= i < m.len() ==> objects_sorted(#[trigger] m[i].1),
        _ => true,
    }
}

proof fn lemma_value_sorted(b: Seq<u8>, i: int)
    ensures
        read_value(b, i) matches Ok((v, k)) ==> objects_sorted(v),
    decreases b.len() - i, 1int,
{
    if 0 <= i < b.len() {
        if b[i] == 0x7b {
            lemma_object_sorted(b, i);
        } else if b[i] == 0x5b {
            lemma_array_sorted(b, i);
        }
    }
}

proof fn lemma_object_sorted(b: Seq<u8>, i: int)
    ensures
        read_object(b, i) matches Ok((v, k)) ==> objects_sorted(v),
    decreases b.len() - i, 0int,
{
    if at(b, i, 0x7b) {
        let j = skip_ws(b, i + 1);
        if !at(b, j, 0x7d) {
            lemma_skip_ws(b, i + 1);
            lemma_members_sorted(b, j, Seq::empty());
        }
    }
}

proof fn lemma_members_sorted(b: Seq<u8>, j: int, acc: Seq<(Seq<char>, JsonV)>)
    requires
        keys_sorted(acc),
        forall|i: int| 0 <= i < acc.len() ==> objects_sorted(#[trigger] acc[i].1),
    ensures
        read_members(b, j, acc) matches Ok((v, k)) ==> objects_sorted(v),
    decreases b.len() - j, 2int,
{
    if 0 <= j <= b.len() {
        let k0 = skip_ws(b, j);
        if let Ok((key, k1)) = read_string(b, k0) {
            let k2 = skip_ws(b, k1);
            if at(b, k2, 0x3a) {
                let k3 = skip_ws(b, k2 + 1);
                lemma_skip_ws(b, j);
                lemma_read_string_body(b, k0 + 1, Seq::empty());
                lemma_skip_ws(b, k1);
                lemma_skip_ws(b, k2 + 1);
                lemma_value_sorted(b, k3);
                if let Ok((v, k4)) = read_value(b, k3) {
                    if k4 > k3 {
                        let acc2 = obj_insert(acc, key, v);
                        lemma_obj_insert_sorted(acc, key, v);
                        lemma_insert_pos_bounds(acc, key);
                        let p = insert_pos(acc, key);
                        assert forall|i: int| 0 <= i < acc2.len() implies objects_sorted(#[trigger] acc2[i].1) by {
                            if p < acc.len() && acc[p].0 == key {
                                if i != p {
                                    assert(acc2[i] == acc[i]);
                                }
                            } else if i < p {
                                assert(acc2[i] == acc[i]);
                            } else if i > p {
                                assert(acc2[i] == acc[i - 1]);
                            }
                        }
                        let k5 = skip_ws(b, k4);
                        lemma_skip_ws(b, k4);
                        if at(b, k5, 0x2c) {
                            lemma_members_sorted(b, k5 + 1, acc2);
                        }
                    }
                }
            }
        }
    }
}

proof fn lemma_array_sorted(b: Seq<u8>, i: int)
    ensures
        read_array(b, i) matches Ok((v, k)) ==> objects_sorted(v),
    decreases b.len() - i, 0int,
{
    if at(b, i, 0x5b) {
        let j = skip_ws(b, i + 1);
        if !at(b, j, 0x5d) {
            lemma_skip_ws(b, i + 1);
            lemma_items_sorted(b, j, Seq::empty());
        }
    }
}

proof fn lemma_items_sorted(b: Seq<u8>, j: int, acc: Seq<JsonV>)
    requires
        forall|i: int| 0 <= i < acc.len() ==> objects_sorted(#[trigger] acc[i]),
    ensures
        read_items(b, j, acc) matches Ok((v, k)) ==> objects_sorted(v),
    decreases b.len() - j, 2int,
{
    if 0 <= j <= b.len() {
        let k0 = skip_ws(b, j);
        lemma_skip_ws(b, j);
        lemma_value_sorted(b, k0);
        if let Ok((v, k1)) = read_value(b, k0) {
            if k1 > k0 {
                let acc2 = acc.push(v);
                assert forall|i: int| 0 <= i < acc2.len() implies objects_sorted(#[trigger] acc2[i]) by {
                    if i < acc.len() {
                        assert(acc2[i] == acc[i]);
                    }
                }
                let k2 = skip_ws(b, k1);
                lemma_skip_ws(b, k1);
                if at(b, k2, 0x2c) {
                    lemma_items_sorted(b, k2 + 1, acc2);
                }
            }
        }
    }
}

/// Every object in a parsed document has its members in strictly increasing key
/// order, each key once.
pub proof fn lemma_parsed_objects_sorted(b: Seq<u8>)
    ensures
        parse_document(b) matches Ok(v) ==> objects_sorted(v),
{
    lemma_value_sorted(b, skip_ws(b, 0));
}

} // verus!

//! Reading identifiers and decimal numbers out of text, and writing numbers
//! back as text.

use vstd::prelude::*;

verus! {

broadcast use vstd::string::group_string_axioms;

/// The text that an optional string holds.
pub open spec fn text_of(s: Option<String>) -> Option<Seq<char>> {
    match s {
        Some(text) => Some(text@),
        None => None,
    }
}

/// The low eight bits of a character's scalar value.
pub open spec fn low_byte(c: char) -> u8 {
    ((c as int) % 256) as u8
}

/// The four-byte identifier that stands for `s`: the low bytes of its first
/// four characters, followed by zero bytes where `s` is shorter.
pub open spec fn id_of(s: Seq<char>) -> Seq<u8> {
    Seq::new(
        4,
        |i: int|
            if i < s.len() {
                low_byte(s[i])
            } else {
                0u8
            },
    )
}

/// The identifier of an absent name: four zero bytes.
pub open spec fn blank_id() -> Seq<u8> {
    id_of(Seq::empty())
}

/// True for the ten ASCII digits.
pub open spec fn is_digit(c: char) -> bool {
    '0' <= c && c <= '9'
}

/// The number a digit stands for.
pub open spec fn digit_value(c: char) -> int {
    c as int - 48
}

/// True when every character of `s` is an ASCII digit.
pub open spec fn all_digits(s: Seq<char>) -> bool {
    forall|i: int| 0 <= i < s.len() ==> is_digit(#[trigger] s[i])
}

/// The number that a run of digits denotes in base ten.
pub open spec fn digits_value(s: Seq<char>) -> int
    decreases s.len(),
{
    if s.len() == 0 {
        0
    } else {
        10 * digits_value(s.drop_last()) + digit_value(s.last())
    }
}

/// The value of one or more digits; nothing else is a numeral.
pub open spec fn unsigned_numeral(s: Seq<char>) -> Option<int> {
    if s.len() > 0 && all_digits(s) {
        Some(digits_value(s))
    } else {
        None
    }
}

/// The value of a decimal numeral: an optional `+`, or for a signed reading
/// an optional `-`, and then one or more digits.
pub open spec fn numeral(s: Seq<char>, signed: bool) -> Option<int> {
    if s.len() > 0 && s[0] == '+' {
        unsigned_numeral(s.skip(1))
    } else if signed && s.len() > 0 && s[0] == '-' {
        match unsigned_numeral(s.skip(1)) {
            Some(v) => Some(-v),
            None => None,
        }
    } else {
        unsigned_numeral(s)
    }
}

/// The value of a numeral that lies between `min` and `max`.
pub open spec fn numeral_in(s: Seq<char>, signed: bool, min: int, max: int) -> Option<int> {
    match numeral(s, signed) {
        Some(v) => if min <= v <= max {
            Some(v)
        } else {
            None
        },
        None => None,
    }
}

/// What `s` denotes as an unsigned 32-bit number.
pub open spec fn u32_numeral(s: Seq<char>) -> Option<u32> {
    match numeral_in(s, false, 0, u32::MAX as int) {
        Some(v) => Some(v as u32),
        None => None,
    }
}

/// What `s` denotes as an unsigned 64-bit number.
pub open spec fn u64_numeral(s: Seq<char>) -> Option<u64> {
    match numeral_in(s, false, 0, u64::MAX as int) {
        Some(v) => Some(v as u64),
        None => None,
    }
}

/// What `s` denotes as a signed 32-bit number.
pub open spec fn i32_numeral(s: Seq<char>) -> Option<i32> {
    match numeral_in(s, true, i32::MIN as int, i32::MAX as int) {
        Some(v) => Some(v as i32),
        None => None,
    }
}

/// What `s` denotes as a signed 8-bit number.
pub open spec fn i8_numeral(s: Seq<char>) -> Option<i8> {
    match numeral_in(s, true, i8::MIN as int, i8::MAX as int) {
        Some(v) => Some(v as i8),
        None => None,
    }
}

/// The digit that stands for `d`, for `d` from 0 to 9.
pub open spec fn digit_char(d: int) -> char {
    (d + 48) as char
}

/// The shortest decimal numeral for `n`.
pub open spec fn decimal_text(n: nat) -> Seq<char>
    decreases n,
{
    if n < 10 {
        seq![digit_char(n as int)]
    } else {
        decimal_text(n / 10).push(digit_char((n % 10) as int))
    }
}

/// Position of the first `c` in `s`, or the length of `s` where there is none.
pub open spec fn first_index(s: Seq<char>, c: char) -> int
    decreases s.len(),
{
    if s.len() == 0 || s[0] == c {
        0
    } else {
        1 + first_index(s.skip(1), c)
    }
}

/// The pieces of `s` between separators. A separator at the very end closes
/// the last piece and opens no empty one; the empty text has no pieces.
pub open spec fn fields(s: Seq<char>, sep: char) -> Seq<Seq<char>>
    decreases s.len(),
{
    if s.len() == 0 {
        Seq::empty()
    } else {
        let i = first_index(s, sep);
        if i < 0 || i >= s.len() {
            seq![s]
        } else {
            seq![s.take(i)] + fields(s.skip(i + 1), sep)
        }
    }
}

/// The views of a vector of character vectors.
pub open spec fn views(v: Seq<Vec<char>>) -> Seq<Seq<char>> {
    v.map_values(|piece: Vec<char>| piece@)
}

/// `first_index` is the one position before which no `c` occurs and at which
/// either `s` ends or `c` stands.
pub proof fn lemma_first_index(s: Seq<char>, c: char, k: int)
    requires
        0 <= k <= s.len(),
        forall|j: int| 0 <= j < k ==> s[j] != c,
        k == s.len() || s[k] == c,
    ensures
        first_index(s, c) == k,
    decreases s.len(),
{
    if s.len() > 0 && s[0] != c {
        lemma_first_index(s.skip(1), c, k - 1);
    }
}

/// A longer run of digits denotes at least as much as any of its prefixes.
pub proof fn lemma_digits_value_grows(s: Seq<char>, k: int)
    requires
        all_digits(s),
        0 <= k <= s.len(),
    ensures
        0 <= digits_value(s.take(k)) <= digits_value(s),
    decreases s.len() - k,
{
    if k == s.len() {
        assert(s.take(k) == s);
        lemma_digits_value_nonnegative(s);
    } else {
        lemma_digits_value_grows(s, k + 1);
        let longer = s.take(k + 1);
        assert(longer.drop_last() == s.take(k));
    }
}

/// A run of digits denotes no negative number.
pub proof fn lemma_digits_value_nonnegative(s: Seq<char>)
    requires
        all_digits(s),
    ensures
        0 <= digits_value(s),
    decreases s.len(),
{
    if s.len() > 0 {
        lemma_digits_value_nonnegative(s.drop_last());
    }
}

/// The characters of `s`, one by one.
pub fn str_chars(s: &str) -> (chars: Vec<char>)
    ensures
        chars@ == s@,
{
    let mut chars: Vec<char> = Vec::new();
    for c in it: s.chars()
        invariant
            it.seq() == s@,
            chars@ == s@.take(it.index() as int),
    {
        chars.push(c);
    }
    chars
}

fn low_byte_of(c: char) -> (b: u8)
    ensures
        b == low_byte(c),
{
    let n: u32 = c as u32;
    (n % 256) as u8
}

/// The four-byte identifier of a name given by its characters.
pub fn chars_to_u8_4(chars: &Vec<char>) -> (id: [u8; 4])
    ensures
        id@ == id_of(chars@),
{
    let mut id: [u8; 4] = [0u8; 4];
    let n: usize = if chars.len() < 4 {
        chars.len()
    } else {
        4
    };
    let mut i: usize = 0;
    while i < n
        invariant
            i <= n <= 4,
            n <= chars.len(),
            forall|j: int| 0 <= j < i ==> id@[j] == low_byte(chars@[j]),
            forall|j: int| i <= j < 4 ==> id@[j] == 0u8,
        decreases n - i,
    {
        id[i] = low_byte_of(chars[i]);
        i += 1;
    }
    id
}

/// The four-byte identifier of a name.
pub fn str_to_u8_4(s: &str) -> (id: [u8; 4])
    ensures
        id@ == id_of(s@),
{
    let chars = str_chars(s);
    chars_to_u8_4(&chars)
}

/// Reads a decimal numeral between `min` and `max`.
fn parse_numeral(chars: &Vec<char>, signed: bool, min: i128, max: i128) -> (r: Option<i128>)
    requires
        -0x1_0000_0000_0000_0000 <= min <= 0 <= max <= 0x1_0000_0000_0000_0000,
    ensures
        match r {
            Some(v) => numeral_in(chars@, signed, min as int, max as int) == Some(v as int),
            None => numeral_in(chars@, signed, min as int, max as int) is None,
        },
{
    let n: usize = chars.len();
    if n == 0 {
        return None;
    }
    let mut start: usize = 0;
    let mut negative: bool = false;
    if chars[0] == '+' {
        start = 1;
    } else if signed && chars[0] == '-' {
        start = 1;
        negative = true;
    }
    let ghost digits = chars@.skip(start as int);
    if start == n {
        return None;
    }
    let limit: i128 = if negative {
        -min
    } else {
        max
    };
    let mut acc: i128 = 0;
    let mut i: usize = start;
    assert(chars@.skip(0) =~= chars@);
    while i < n
        invariant
            start <= i <= n,
            start < n,
            n == chars.len(),
            digits == chars@.skip(start as int),
            numeral(chars@, signed) == if negative {
                match unsigned_numeral(digits) {
                    Some(v) => Some(-v),
                    None => None,
                }
            } else {
                unsigned_numeral(digits)
            },
            limit as int == if negative {
                -min as int
            } else {
                max as int
            },
            min <= 0 <= max,
            all_digits(digits.take(i - start)),
            acc == digits_value(digits.take(i - start)),
            0 <= acc <= limit <= 0x1_0000_0000_0000_0000,
        decreases n - i,
    {
        let c: char = chars[i];
        assert(digits[i - start] == c);
        if !(c >= '0' && c <= '9') {
            return None;
        }
        let d: i128 = (c as u32 - 48) as i128;
        proof {
            let longer = digits.take(i - start + 1);
            assert(longer.drop_last() == digits.take(i - start));
        }
        acc = acc * 10 + d;
        if acc > limit {
            proof {
                if all_digits(digits) {
                    lemma_digits_value_grows(digits, i - start + 1);
                }
            }
            return None;
        }
        i += 1;
    }
    assert(digits.take(n - start) == digits);
    Some(
        if negative {
            -acc
        } else {
            acc
        },
    )
}

/// Reads an unsigned 32-bit number: an optional `+`, then digits only.
pub fn parse_u32(s: &str) -> (r: Option<u32>)
    ensures
        r == u32_numeral(s@),
{
    let chars = str_chars(s);
    match parse_numeral(&chars, false, 0, 0xffff_ffff) {
        Some(v) => Some(v as u32),
        None => None,
    }
}

/// Reads an unsigned 64-bit number: an optional `+`, then digits only.
pub fn parse_u64(s: &str) -> (r: Option<u64>)
    ensures
        r == u64_numeral(s@),
{
    let chars = str_chars(s);
    match parse_numeral(&chars, false, 0, 0xffff_ffff_ffff_ffff) {
        Some(v) => Some(v as u64),
        None => None,
    }
}

/// Reads a signed 32-bit number: an optional sign, then digits only.
pub fn parse_i32(s: &str) -> (r: Option<i32>)
    ensures
        r == i32_numeral(s@),
{
    let chars = str_chars(s);
    match parse_numeral(&chars, true, -0x8000_0000, 0x7fff_ffff) {
        Some(v) => Some(v as i32),
        None => None,
    }
}

/// Reads a signed 8-bit number from characters: an optional sign, then
/// digits only.
pub fn parse_i8_chars(chars: &Vec<char>) -> (r: Option<i8>)
    ensures
        r == i8_numeral(chars@),
{
    match parse_numeral(chars, true, -128, 127) {
        Some(v) => Some(v as i8),
        None => None,
    }
}

/// Reads a signed 8-bit number: an optional sign, then digits only.
pub fn parse_i8(s: &str) -> (r: Option<i8>)
    ensures
        r == i8_numeral(s@),
{
    let chars = str_chars(s);
    parse_i8_chars(&chars)
}

/// True when `c` occurs among `chars`.
pub fn chars_contain(chars: &Vec<char>, c: char) -> (found: bool)
    ensures
        found == chars@.contains(c),
{
    let mut i: usize = 0;
    while i < chars.len()
        invariant
            i <= chars.len(),
            forall|j: int| 0 <= j < i ==> chars@[j] != c,
        decreases chars.len() - i,
    {
        if chars[i] == c {
            return true;
        }
        i += 1;
    }
    false
}

/// Cuts `chars` at every `sep`.
pub fn split_fields(chars: &Vec<char>, sep: char) -> (pieces: Vec<Vec<char>>)
    ensures
        views(pieces@) == fields(chars@, sep),
{
    let mut pieces: Vec<Vec<char>> = Vec::new();
    let mut piece: Vec<char> = Vec::new();
    let mut begin: usize = 0;
    let mut i: usize = 0;
    assert(chars@.skip(0) == chars@);
    while i < chars.len()
        invariant
            begin <= i <= chars.len(),
            piece@ == chars@.subrange(begin as int, i as int),
            forall|j: int| begin <= j < i ==> chars@[j] != sep,
            fields(chars@, sep) == views(pieces@) + fields(chars@.skip(begin as int), sep),
        decreases chars.len() - i,
    {
        let c: char = chars[i];
        if c == sep {
            proof {
                let rest = chars@.skip(begin as int);
                lemma_first_index(rest, sep, i - begin);
                assert(rest.take(i - begin) == piece@);
                assert(rest.skip(i - begin + 1) == chars@.skip(i + 1));
            }
            pieces.push(piece);
            piece = Vec::new();
            begin = i + 1;
        } else {
            piece.push(c);
        }
        i += 1;
    }
    if begin < chars.len() {
        proof {
            let rest = chars@.skip(begin as int);
            lemma_first_index(rest, sep, rest.len() as int);
        }
        pieces.push(piece);
    }
    pieces
}

/// True when two texts have the same characters.
pub fn same_text(a: &str, b: &str) -> (same: bool)
    ensures
        same == (a@ == b@),
{
    let left = str_chars(a);
    let right = str_chars(b);
    if left.len() != right.len() {
        return false;
    }
    let mut i: usize = 0;
    while i < left.len()
        invariant
            i <= left.len(),
            left.len() == right.len(),
            left@ == a@,
            right@ == b@,
            forall|j: int| 0 <= j < i ==> left@[j] == right@[j],
        decreases left.len() - i,
    {
        if left[i] != right[i] {
            return false;
        }
        i += 1;
    }
    assert(left@ =~= right@);
    true
}

/// The text of one decimal digit.
fn digit_text(d: u32) -> (text: &'static str)
    requires
        d < 10,
    ensures
        text@ == seq![digit_char(d as int)],
{
    proof {
        reveal_strlit("0");
        reveal_strlit("1");
        reveal_strlit("2");
        reveal_strlit("3");
        reveal_strlit("4");
        reveal_strlit("5");
        reveal_strlit("6");
        reveal_strlit("7");
        reveal_strlit("8");
        reveal_strlit("9");
    }
    let text: &'static str = match d {
        0 => "0",
        1 => "1",
        2 => "2",
        3 => "3",
        4 => "4",
        5 => "5",
        6 => "6",
        7 => "7",
        8 => "8",
        _ => "9",
    };
    text
}

/// Writes `n` in base ten, without sign or leading zeros.
pub fn u32_to_decimal(n: u32) -> (text: String)
    ensures
        text@ == decimal_text(n as nat),
    decreases n,
{
    if n < 10 {
        digit_text(n).to_owned()
    } else {
        let mut text = u32_to_decimal(n / 10);
        text.append(digit_text(n % 10));
        text
    }
}

/// The digits of a numeral written by `decimal_text` are digits, and they
/// denote the number written.
pub proof fn lemma_decimal_text_digits(n: nat)
    ensures
        decimal_text(n).len() > 0,
        all_digits(decimal_text(n)),
        digits_value(decimal_text(n)) == n,
    decreases n,
{
    if n < 10 {
        let s = decimal_text(n);
        assert(digits_value(s.drop_last()) == 0);
    } else {
        lemma_decimal_text_digits(n / 10);
        let head = decimal_text(n / 10);
        let s = decimal_text(n);
        assert(s.drop_last() =~= head);
    }
}

/// Reading back what `u32_to_decimal` writes gives the number written.
pub proof fn lemma_decimal_round_trip(n: u32)
    ensures
        u32_numeral(decimal_text(n as nat)) == Some(n),
{
    lemma_decimal_text_digits(n as nat);
}

} // verus!

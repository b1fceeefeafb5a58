//! String and number helpers on which the request and configuration logic rests.

use vstd::prelude::*;
use vstd::utf8::{decode_utf8, encode_utf8};

verus! {

broadcast use vstd::utf8::encode_utf8_decode_utf8;

/// Byte-wise equality of two byte slices.
pub fn bytes_equal(a: &[u8], b: &[u8]) -> (r: bool)
    ensures
        r == (a@ == b@),
{
    if a.len() != b.len() {
        return false;
    }
    let n = a.len();
    let mut i: usize = 0;
    while i < n
        invariant
            n == a@.len(),
            n == b@.len(),
            i <= n,
            forall|j: int| 0 <= j < i ==> a@[j] == b@[j],
        decreases n - i,
    {
        if a[i] != b[i] {
            return false;
        }
        i = i + 1;
    }
    assert(a@ =~= b@);
    true
}

/// Equality of two strings, character by character.
pub fn str_equal(a: &str, b: &str) -> (r: bool)
    ensures
        r == (a@ == b@),
{
    let x = a.as_bytes();
    let y = b.as_bytes();
    let r = bytes_equal(x, y);
    proof {
        if r {
            assert(decode_utf8(encode_utf8(a@)) == a@);
            assert(decode_utf8(encode_utf8(b@)) == b@);
        }
    }
    r
}

/// The ASCII lower-case form of a byte; other bytes are unchanged.
pub open spec fn ascii_lower(b: u8) -> u8 {
    if 65 <= b <= 90 {
        (b + 32) as u8
    } else {
        b
    }
}

/// Two byte strings that are equal once their ASCII letters are folded to lower case.
pub open spec fn eq_ignore_ascii_case_bytes(a: Seq<u8>, b: Seq<u8>) -> bool {
    &&& a.len() == b.len()
    &&& forall|i: int| 0 <= i < a.len() ==> ascii_lower(#[trigger] a[i]) == ascii_lower(b[i])
}

/// Two strings that are equal but for the case of ASCII letters.
pub open spec fn eq_ignore_ascii_case(a: Seq<char>, b: Seq<char>) -> bool {
    eq_ignore_ascii_case_bytes(encode_utf8(a), encode_utf8(b))
}

/// Two bytes that are equal, or the upper- and lower-case forms of one ASCII letter.
pub open spec fn same_letter_any_case(b: u8, c: u8) -> bool {
    b == c || (65 <= b <= 90 && c == b + 32) || (65 <= c <= 90 && b == c + 32)
}

/// Folding identifies exactly the two cases of each ASCII letter A-Z and nothing else.
pub proof fn lemma_case_folding(b: u8, c: u8)
    ensures
        ascii_lower(b) == ascii_lower(c) <==> same_letter_any_case(b, c),
{
}

/// Byte strings are equal ignoring ASCII case exactly when they have one length and agree
/// byte by byte up to the case of ASCII letters.
pub proof fn lemma_eq_ignore_case_bytes(a: Seq<u8>, b: Seq<u8>)
    ensures
        eq_ignore_ascii_case_bytes(a, b) <==> (a.len() == b.len()
            && forall|i: int| 0 <= i < a.len() ==> same_letter_any_case(#[trigger] a[i], b[i])),
{
    if a.len() == b.len() {
        assert forall|i: int| 0 <= i < a.len() implies
            (ascii_lower(#[trigger] a[i]) == ascii_lower(b[i]) <==> same_letter_any_case(a[i], b[i])) by {
            lemma_case_folding(a[i], b[i]);
        }
    }
}

fn lower_byte(b: u8) -> (r: u8)
    ensures
        r == ascii_lower(b),
{
    if 65 <= b && b <= 90 {
        b + 32
    } else {
        b
    }
}

/// Compares two strings, ignoring the case of ASCII letters only.
pub fn str_eq_ignore_ascii_case(a: &str, b: &str) -> (r: bool)
    ensures
        r == eq_ignore_ascii_case(a@, b@),
{
    let x = a.as_bytes();
    let y = b.as_bytes();
    if x.len() != y.len() {
        return false;
    }
    let n = x.len();
    let mut i: usize = 0;
    while i < n
        invariant
            n == x@.len(),
            n == y@.len(),
            x@ == encode_utf8(a@),
            y@ == encode_utf8(b@),
            i <= n,
            forall|j: int| 0 <= j < i ==> ascii_lower(#[trigger] x@[j]) == ascii_lower(y@[j]),
        decreases n - i,
    {
        if lower_byte(x[i]) != lower_byte(y[i]) {
            return false;
        }
        i = i + 1;
    }
    true
}

/// The character of a decimal digit.
pub open spec fn digit_char(d: nat) -> char {
    if d == 0 {
        '0'
    } else if d == 1 {
        '1'
    } else if d == 2 {
        '2'
    } else if d == 3 {
        '3'
    } else if d == 4 {
        '4'
    } else if d == 5 {
        '5'
    } else if d == 6 {
        '6'
    } else if d == 7 {
        '7'
    } else if d == 8 {
        '8'
    } else {
        '9'
    }
}

/// The decimal digits of a natural number, most significant first, without leading zeros.
pub open spec fn decimal_digits(n: nat) -> Seq<char>
    decreases n,
{
    if n < 10 {
        seq![digit_char(n)]
    } else {
        decimal_digits(n / 10).push(digit_char(n % 10))
    }
}

/// The decimal form of an integer: a minus sign before the digits of a negative one.
pub open spec fn decimal(n: int) -> Seq<char> {
    if n < 0 {
        seq!['-'] + decimal_digits((-n) as nat)
    } else {
        decimal_digits(n as nat)
    }
}

fn digit_str(d: u64) -> (s: &'static str)
    requires
        d < 10,
    ensures
        s@ == seq![digit_char(d as nat)],
{
    if d == 0 {
        proof { reveal_strlit("0"); }
        "0"
    } else if d == 1 {
        proof { reveal_strlit("1"); }
        "1"
    } else if d == 2 {
        proof { reveal_strlit("2"); }
        "2"
    } else if d == 3 {
        proof { reveal_strlit("3"); }
        "3"
    } else if d == 4 {
        proof { reveal_strlit("4"); }
        "4"
    } else if d == 5 {
        proof { reveal_strlit("5"); }
        "5"
    } else if d == 6 {
        proof { reveal_strlit("6"); }
        "6"
    } else if d == 7 {
        proof { reveal_strlit("7"); }
        "7"
    } else if d == 8 {
        proof { reveal_strlit("8"); }
        "8"
    } else {
        proof { reveal_strlit("9"); }
        "9"
    }
}

fn append_digits(s: &mut String, n: u64)
    ensures
        final(s)@ == old(s)@ + decimal_digits(n as nat),
    decreases n,
{
    if n >= 10 {
        append_digits(s, n / 10);
    }
    s.append(digit_str(n % 10));
}

/// The decimal form of an `i32`, as `to_string` writes it.
pub fn i32_to_decimal(n: i32) -> (s: String)
    ensures
        s@ == decimal(n as int),
{
    let mut s = String::new();
    if n < 0 {
        proof { reveal_strlit("-"); }
        s.append("-");
        let m: i64 = n as i64;
        append_digits(&mut s, (-m) as u64);
    } else {
        append_digits(&mut s, n as u64);
    }
    s
}

/// `true` for the bytes of the ASCII digits `0` to `9`.
pub open spec fn is_digit_byte(b: u8) -> bool {
    48 <= b <= 57
}

/// The value of a sequence of ASCII digits, most significant first.
pub open spec fn digits_value(s: Seq<u8>) -> nat
    decreases s.len(),
{
    if s.len() == 0 {
        0
    } else {
        digits_value(s.drop_last()) * 10 + (s.last() - 48) as nat
    }
}

/// The digits of an unsigned decimal number: its text without one leading `+`.
pub open spec fn unsigned_digits(s: Seq<u8>) -> Seq<u8> {
    if s.len() > 0 && s[0] == 43 {
        s.drop_first()
    } else {
        s
    }
}

/// The value of the text of an unsigned decimal number as `str::parse` reads one into an
/// integer type whose largest value is `max`: an optional `+`, then one or more ASCII digits,
/// and a value no greater than `max`. `None` for any other text.
pub open spec fn parse_unsigned(s: Seq<u8>, max: nat) -> Option<nat> {
    let d = unsigned_digits(s);
    if d.len() > 0 && (forall|i: int| 0 <= i < d.len() ==> is_digit_byte(#[trigger] d[i]))
        && digits_value(d) <= max {
        Some(digits_value(d))
    } else {
        None
    }
}

proof fn lemma_digits_value_prefix(s: Seq<u8>, i: int)
    requires
        0 <= i <= s.len(),
        forall|j: int| 0 <= j < s.len() ==> is_digit_byte(#[trigger] s[j]),
    ensures
        digits_value(s.take(i)) <= digits_value(s),
    decreases s.len() - i,
{
    if i < s.len() {
        lemma_digits_value_prefix(s, i + 1);
        assert(s.take(i + 1).drop_last() =~= s.take(i));
    } else {
        assert(s.take(i) =~= s);
    }
}

proof fn lemma_digit_char_byte(d: nat)
    requires
        d < 10,
    ensures
        digit_char(d) as u8 == 48 + d,
        '\0' <= digit_char(d) <= '\u{7f}',
{
}

proof fn lemma_decimal_digits_ascii(n: nat)
    ensures
        vstd::utf8::is_ascii_chars(decimal_digits(n)),
        decimal_digits(n).len() > 0,
        forall|i: int| 0 <= i < decimal_digits(n).len()
            ==> '0' <= #[trigger] decimal_digits(n)[i] <= '9',
    decreases n,
{
    if n >= 10 {
        lemma_decimal_digits_ascii(n / 10);
    }
    lemma_digit_char_byte(n % 10);
}

/// The bytes of the decimal digits of `n`.
proof fn lemma_decimal_bytes(n: nat)
    ensures
        encode_utf8(decimal_digits(n)).len() == decimal_digits(n).len(),
        forall|i: int| 0 <= i < decimal_digits(n).len()
            ==> is_digit_byte(#[trigger] encode_utf8(decimal_digits(n))[i]),
        encode_utf8(decimal_digits(n))[0] != 43,
        digits_value(encode_utf8(decimal_digits(n))) == n,
    decreases n,
{
    lemma_decimal_digits_ascii(n);
    vstd::utf8::is_ascii_chars_encode_utf8(decimal_digits(n));
    let b = encode_utf8(decimal_digits(n));
    assert forall|i: int| 0 <= i < decimal_digits(n).len() implies is_digit_byte(#[trigger] b[i]) by {
        assert('0' <= decimal_digits(n)[i] <= '9');
        assert(b[i] == decimal_digits(n)[i] as u8);
    }
    lemma_digit_char_byte(n % 10);
    if n >= 10 {
        lemma_decimal_bytes(n / 10);
        lemma_decimal_digits_ascii(n / 10);
        vstd::utf8::is_ascii_chars_encode_utf8(decimal_digits(n / 10));
        let front = encode_utf8(decimal_digits(n / 10));
        assert(b.drop_last() =~= front) by {
            assert forall|i: int| 0 <= i < front.len() implies b.drop_last()[i] == front[i] by {
                assert(decimal_digits(n)[i] == decimal_digits(n / 10)[i]);
            }
        }
        assert(b.last() == 48 + n % 10);
        assert(b[0] == front[0]);
        assert(digits_value(b) == digits_value(front) * 10 + (b.last() - 48) as nat);
        assert((n / 10) * 10 + n % 10 == n);
    } else {
        assert(b.last() == 48 + n);
        assert(b.drop_last() =~= Seq::<u8>::empty());
        assert(digits_value(b) == digits_value(b.drop_last()) * 10 + (b.last() - 48) as nat);
    }
}

/// Reading the decimal form of a number gives the number back when it fits, and nothing
/// when it does not; a leading `+` changes nothing.
pub proof fn lemma_decimal_round_trip(n: nat, max: nat)
    ensures
        n <= max ==> parse_unsigned(encode_utf8(decimal_digits(n)), max) == Some(n),
        n > max ==> parse_unsigned(encode_utf8(decimal_digits(n)), max) is None,
        parse_unsigned(seq![43u8] + encode_utf8(decimal_digits(n)), max)
            == parse_unsigned(encode_utf8(decimal_digits(n)), max),
{
    lemma_decimal_bytes(n);
    let b = encode_utf8(decimal_digits(n));
    assert(unsigned_digits(b) == b);
    assert((seq![43u8] + b).drop_first() =~= b);
}

/// Reads an unsigned decimal number into a `u64` as `str::parse::<u64>` does.
pub fn parse_u64(text: &str) -> (r: Option<u64>)
    ensures
        match parse_unsigned(encode_utf8(text@), u64::MAX as nat) {
            Some(v) => r == Some(v as u64),
            None => r is None,
        },
{
    let bytes = text.as_bytes();
    let n = bytes.len();
    let mut start: usize = 0;
    if n > 0 && bytes[0] == 43 {
        start = 1;
    }
    let ghost d = unsigned_digits(bytes@);
    assert(d =~= bytes@.skip(start as int));
    if start == n {
        return None;
    }
    let mut value: u64 = 0;
    let mut i: usize = start;
    while i < n
        invariant
            n == bytes@.len(),
            bytes@ == encode_utf8(text@),
            d == unsigned_digits(bytes@),
            d =~= bytes@.skip(start as int),
            start <= i <= n,
            forall|j: int| 0 <= j < i - start ==> is_digit_byte(#[trigger] d[j]),
            value as nat == digits_value(d.take(i - start)),
        decreases n - i,
    {
        let b = bytes[i];
        assert(b == d[i - start]);
        if b < 48 || b > 57 {
            return None;
        }
        let digit = (b - 48) as u64;
        assert(d.take(i + 1 - start).drop_last() =~= d.take(i - start));
        if value > (u64::MAX - digit) / 10 {
            proof {
                assert(digits_value(d.take(i + 1 - start)) > u64::MAX) by (nonlinear_arith)
                    requires
                        value > (u64::MAX - digit) / 10,
                        digits_value(d.take(i + 1 - start)) == value * 10 + digit,
                        digit <= 9,
                ;
                if forall|j: int| 0 <= j < d.len() ==> is_digit_byte(#[trigger] d[j]) {
                    lemma_digits_value_prefix(d, i + 1 - start);
                }
            }
            return None;
        }
        value = value * 10 + digit;
        i = i + 1;
    }
    assert(d.take(n - start) =~= d);
    Some(value)
}

/// The lower-case hexadecimal digit of a value below 16.
pub open spec fn hex_digit(d: nat) -> char {
    if d < 10 {
        digit_char(d)
    } else if d == 10 {
        'a'
    } else if d == 11 {
        'b'
    } else if d == 12 {
        'c'
    } else if d == 13 {
        'd'
    } else if d == 14 {
        'e'
    } else {
        'f'
    }
}

/// Bytes in lower-case hexadecimal, two digits per byte, high digit first.
pub open spec fn lower_hex(bytes: Seq<u8>) -> Seq<char>
    decreases bytes.len(),
{
    if bytes.len() == 0 {
        Seq::empty()
    } else {
        lower_hex(bytes.drop_last()) + seq![hex_digit((bytes.last() / 16) as nat), hex_digit((bytes.last() % 16) as nat)]
    }
}

fn hex_digit_str(d: u8) -> (s: &'static str)
    requires
        d < 16,
    ensures
        s@ == seq![hex_digit(d as nat)],
{
    if d < 10 {
        digit_str(d as u64)
    } else if d == 10 {
        proof { reveal_strlit("a"); }
        "a"
    } else if d == 11 {
        proof { reveal_strlit("b"); }
        "b"
    } else if d == 12 {
        proof { reveal_strlit("c"); }
        "c"
    } else if d == 13 {
        proof { reveal_strlit("d"); }
        "d"
    } else if d == 14 {
        proof { reveal_strlit("e"); }
        "e"
    } else {
        proof { reveal_strlit("f"); }
        "f"
    }
}

/// Writes bytes in lower-case hexadecimal, as `hex::encode` does.
pub fn to_lower_hex(bytes: &[u8]) -> (s: String)
    ensures
        s@ == lower_hex(bytes@),
{
    let mut s = String::new();
    let n = bytes.len();
    let mut i: usize = 0;
    while i < n
        invariant
            n == bytes@.len(),
            i <= n,
            s@ == lower_hex(bytes@.take(i as int)),
        decreases n - i,
    {
        let b = bytes[i];
        assert(bytes@.take(i + 1).drop_last() =~= bytes@.take(i as int));
        s.append(hex_digit_str(b / 16));
        s.append(hex_digit_str(b % 16));
        i = i + 1;
    }
    assert(bytes@.take(n as int) =~= bytes@);
    s
}

} // verus!

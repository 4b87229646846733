//! Small verified text helpers: decimal rendering of integers.
use vstd::prelude::*;
use vstd::string::*;

verus! {

/// The ASCII digit character for a value below ten.
pub open spec fn digit_char(d: nat) -> char {
    if d == 0 { '0' } else if d == 1 { '1' } else if d == 2 { '2' } else if d == 3 { '3' }
    else if d == 4 { '4' } else if d == 5 { '5' } else if d == 6 { '6' } else if d == 7 { '7' }
    else if d == 8 { '8' } else { '9' }
}

/// Base-ten rendering of a natural number, without leading zeros.
pub open spec fn decimal_chars(n: nat) -> Seq<char>
    decreases n,
{
    if n < 10 {
        seq![digit_char(n)]
    } else {
        decimal_chars(n / 10).push(digit_char(n % 10))
    }
}

fn digit_str(d: u64) -> (s: &'static str)
    requires
        d < 10,
    ensures
        s@ == seq![digit_char(d as nat)],
{
    proof {
        reveal_strlit("0");
        reveal_strlit("1");
        reveal_strlit("2");
        reveal_strlit("3");
        reveal_strlit("4");
        reveal_strlit("5");
        reveal_strlit("6");
        reveal_strlit("7");
        reveal_strlit("8");
        reveal_strlit("9");
    }
    if d == 0 { "0" } else if d == 1 { "1" } else if d == 2 { "2" } else if d == 3 { "3" }
    else if d == 4 { "4" } else if d == 5 { "5" } else if d == 6 { "6" } else if d == 7 { "7" }
    else if d == 8 { "8" } else { "9" }
}

/// Appends the decimal rendering of `n` to `out`.
pub fn push_decimal(out: &mut String, n: u64)
    ensures
        final(out)@ == old(out)@ + decimal_chars(n as nat),
    decreases n,
{
    if n >= 10 {
        push_decimal(out, n / 10);
    }
    out.append(digit_str(n % 10));
    assert(decimal_chars(n as nat) =~= if n < 10 { seq![digit_char(n as nat)] } else {
        decimal_chars((n / 10) as nat).push(digit_char((n % 10) as nat))
    });
}

} // verus!

verus! {

/// The lowercase hexadecimal digit for a value below sixteen.
pub open spec fn hex_char(d: nat) -> char {
    if d < 10 { digit_char(d) }
    else if d == 10 { 'a' } else if d == 11 { 'b' } else if d == 12 { 'c' }
    else if d == 13 { 'd' } else if d == 14 { 'e' } else { 'f' }
}

/// Two lowercase hexadecimal digits per byte, high nibble first.
pub open spec fn hex_of_bytes(b: Seq<u8>) -> Seq<char>
    decreases b.len(),
{
    if b.len() == 0 {
        Seq::empty()
    } else {
        hex_of_bytes(b.drop_last()) + seq![hex_char((b.last() / 16) as nat), hex_char((b.last() % 16) as nat)]
    }
}

fn hex_str(d: u8) -> (s: &'static str)
    requires
        d < 16,
    ensures
        s@ == seq![hex_char(d as nat)],
{
    proof {
        reveal_strlit("a");
        reveal_strlit("b");
        reveal_strlit("c");
        reveal_strlit("d");
        reveal_strlit("e");
        reveal_strlit("f");
    }
    if d < 10 { digit_str(d as u64) }
    else if d == 10 { "a" } else if d == 11 { "b" } else if d == 12 { "c" }
    else if d == 13 { "d" } else if d == 14 { "e" } else { "f" }
}

/// Appends the two lowercase hexadecimal digits of `byte`.
pub fn push_hex_byte(out: &mut String, byte: u8)
    ensures
        final(out)@ == old(out)@ + seq![hex_char((byte / 16) as nat), hex_char((byte % 16) as nat)],
{
    out.append(hex_str(byte / 16));
    out.append(hex_str(byte % 16));
}

/// Lowercase hexadecimal rendering of the first `n` bytes of `b`.
pub fn hex_prefix(b: &[u8], n: usize) -> (s: String)
    requires
        n <= b@.len(),
    ensures
        s@ == hex_of_bytes(b@.take(n as int)),
{
    let mut s = "".to_owned();
    proof {
        reveal_strlit("");
    }
    let mut i: usize = 0;
    while i < n
        invariant
            i <= n <= b@.len(),
            s@ == hex_of_bytes(b@.take(i as int)),
        decreases n - i,
    {
        push_hex_byte(&mut s, b[i]);
        assert(b@.take((i + 1) as int).drop_last() =~= b@.take(i as int));
        i = i + 1;
    }
    s
}

/// Lowercase hexadecimal rendering of all of `b`.
pub fn hex_string(b: &[u8]) -> (s: String)
    ensures
        s@ == hex_of_bytes(b@),
{
    let s = hex_prefix(b, b.len());
    assert(b@.take(b@.len() as int) =~= b@);
    s
}

} // verus!

verus! {

/// Compares two byte strings.
pub fn bytes_eq(a: &[u8], b: &[u8]) -> (r: bool)
    ensures
        r == (a@ == b@),
{
    if a.len() != b.len() {
        return false;
    }
    let n = a.len();
    let mut i: usize = 0;
    while i < n
        invariant
            n == a@.len(),
            n == b@.len(),
            forall|j: int| 0 <= j < i ==> a@[j] == b@[j],
        decreases n - i,
    {
        if a[i] != b[i] {
            return false;
        }
        i = i + 1;
    }
    assert(a@ =~= b@);
    true
}

/// Compares two strings character by character.
pub fn str_eq(a: &str, b: &str) -> (r: bool)
    ensures
        r == (a@ == b@),
{
    let r = bytes_eq(a.as_bytes(), b.as_bytes());
    proof {
        vstd::utf8::encode_utf8_decode_utf8(a@);
        vstd::utf8::encode_utf8_decode_utf8(b@);
    }
    r
}

pub open spec fn is_digit_byte(c: u8) -> bool {
    48 <= c <= 57
}

/// The value of a string of decimal digits.
pub open spec fn digits_value(b: Seq<u8>) -> nat
    decreases b.len(),
{
    if b.len() == 0 { 0 } else { digits_value(b.drop_last()) * 10 + (b.last() - 48) as nat }
}

/// The digits that follow an optional leading `+`.
pub open spec fn unsigned_digits(b: Seq<u8>) -> Seq<u8> {
    if b.len() > 0 && b[0] == 43 { b.skip(1) } else { b }
}

/// The number that the decimal text `b` denotes when it is an optional `+`
/// followed by one or more ASCII digits whose value is at most `max`, as
/// `str::parse` reads unsigned integers.
pub open spec fn unsigned_text(b: Seq<u8>, max: nat) -> Option<nat> {
    let d = unsigned_digits(b);
    if d.len() >= 1 && (forall|i: int| 0 <= i < d.len() ==> is_digit_byte(#[trigger] d[i])) && digits_value(d) <= max {
        Some(digits_value(d))
    } else {
        None
    }
}

/// The `u16` that the decimal text `b` denotes.
pub open spec fn u16_text(b: Seq<u8>) -> Option<u16> {
    match unsigned_text(b, 65535) {
        Some(v) => Some(v as u16),
        None => None,
    }
}

/// The `u32` that the decimal text `b` denotes.
pub open spec fn u32_text(b: Seq<u8>) -> Option<u32> {
    match unsigned_text(b, 0xffff_ffff) {
        Some(v) => Some(v as u32),
        None => None,
    }
}

/// The `u64` that the decimal text `b` denotes.
pub open spec fn u64_text(b: Seq<u8>) -> Option<u64> {
    match unsigned_text(b, 0xffff_ffff_ffff_ffff) {
        Some(v) => Some(v as u64),
        None => None,
    }
}

proof fn lemma_digits_value_grows(b: Seq<u8>, k: int)
    requires
        0 <= k <= b.len(),
        forall|i: int| 0 <= i < b.len() ==> is_digit_byte(#[trigger] b[i]),
    ensures
        digits_value(b.take(k)) <= digits_value(b),
    decreases b.len() - k,
{
    if k < b.len() {
        lemma_digits_value_grows(b, k + 1);
        assert(b.take(k + 1).drop_last() =~= b.take(k));
    } else {
        assert(b.take(k) =~= b);
    }
}

/// Parses an unsigned number written in decimal that must not exceed `max`.
pub fn parse_unsigned(s: &str, max: u64) -> (r: Option<u64>)
    ensures
        match unsigned_text(s.spec_bytes(), max as nat) {
            Some(v) => r == Some(v as u64),
            None => r is None,
        },
{
    let b = s.as_bytes();
    let n = b.len();
    let start: usize = if n > 0 && b[0] == 43 { 1 } else { 0 };
    let ghost d = unsigned_digits(b@);
    assert(d =~= b@.skip(start as int));
    if start >= n {
        return None;
    }
    let mut value: u64 = 0;
    let mut i = start;
    while i < n
        invariant
            start <= i <= n,
            n == b@.len(),
            d =~= b@.skip(start as int),
            d == unsigned_digits(b@),
            b@ == s.spec_bytes(),
            forall|j: int| 0 <= j < i - start ==> is_digit_byte(#[trigger] d[j]),
            value as nat == digits_value(d.take(i - start)),
            value <= max,
        decreases n - i,
    {
        let c = b[i];
        let ghost k = i - start;
        assert(d[k] == b@[i as int]);
        if c < 48 || c > 57 {
            assert(!is_digit_byte(d[k]));
            assert(0 <= k < d.len());
            return None;
        }
        assert(d.take(k + 1).drop_last() =~= d.take(k));
        assert(d.take(k + 1).last() == c);
        assert(digits_value(d.take(k + 1)) == digits_value(d.take(k)) * 10 + (c - 48) as nat);
        let next: u128 = value as u128 * 10 + (c - 48) as u128;
        if next > max as u128 {
            proof {
                if forall|j: int| 0 <= j < d.len() ==> is_digit_byte(#[trigger] d[j]) {
                    lemma_digits_value_grows(d, k + 1);
                }
            }
            return None;
        }
        value = next as u64;
        i = i + 1;
    }
    assert(d.take(n - start) =~= d);
    Some(value)
}

/// Parses a `u16` written in decimal, as `str::parse::<u16>` does.
pub fn parse_u16(s: &str) -> (r: Option<u16>)
    ensures
        r == u16_text(s.spec_bytes()),
{
    match parse_unsigned(s, 65535) {
        Some(v) => Some(v as u16),
        None => None,
    }
}

/// Parses a `u32` written in decimal, as `str::parse::<u32>` does.
pub fn parse_u32(s: &str) -> (r: Option<u32>)
    ensures
        r == u32_text(s.spec_bytes()),
{
    match parse_unsigned(s, 0xffff_ffff) {
        Some(v) => Some(v as u32),
        None => None,
    }
}

/// Parses a `u64` written in decimal, as `str::parse::<u64>` does.
pub fn parse_u64(s: &str) -> (r: Option<u64>)
    ensures
        r == u64_text(s.spec_bytes()),
{
    parse_unsigned(s, 0xffff_ffff_ffff_ffff)
}

} // verus!

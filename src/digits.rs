use vstd::prelude::*;

verus! {

/// An ASCII decimal digit.
pub open spec fn is_digit(b: u8) -> bool {
    0x30 <= b <= 0x39
}

/// Every byte of `s` in `lo..hi` is a decimal digit.
pub open spec fn all_digits(s: Seq<u8>, lo: int, hi: int) -> bool {
    forall|i: int| lo <= i < hi ==> is_digit(#[trigger] s[i])
}

pub open spec fn digit_value(b: u8) -> int {
    b as int - 0x30
}

/// The number written by the two digits of `s` at `i` and `i + 1`.
pub open spec fn two_digits(s: Seq<u8>, i: int) -> int {
    10 * digit_value(s[i]) + digit_value(s[i + 1])
}

/// The number written by the four digits of `s` from `i`.
pub open spec fn four_digits(s: Seq<u8>, i: int) -> int {
    100 * two_digits(s, i) + two_digits(s, i + 2)
}

pub open spec fn digit_byte(n: int) -> u8 {
    (0x30 + n) as u8
}

/// `n` in two decimal digits, zero-padded.
pub open spec fn two_digit_bytes(n: int) -> Seq<u8> {
    seq![digit_byte(n / 10), digit_byte(n % 10)]
}

/// `n` in four decimal digits, zero-padded.
pub open spec fn four_digit_bytes(n: int) -> Seq<u8> {
    two_digit_bytes(n / 100) + two_digit_bytes(n % 100)
}

/// Whether the bytes of `s` in `lo..hi` are all decimal digits.
pub fn all_digits_in(s: &[u8], lo: usize, hi: usize) -> (r: bool)
    requires
        lo <= hi <= s@.len(),
    ensures
        r == all_digits(s@, lo as int, hi as int),
{
    let mut i: usize = lo;
    while i < hi
        invariant
            lo <= i <= hi <= s@.len(),
            all_digits(s@, lo as int, i as int),
        decreases hi - i,
    {
        if s[i] < 0x30 || s[i] > 0x39 {
            return false;
        }
        i = i + 1;
    }
    true
}

/// The value of the two digits at `i`.
pub fn two_digit_value(s: &[u8], i: usize) -> (r: u32)
    requires
        i + 2 <= s@.len(),
        all_digits(s@, i as int, i + 2),
    ensures
        r == two_digits(s@, i as int),
        r < 100,
{
    assert(is_digit(s@[i as int]) && is_digit(s@[i + 1]));
    10 * ((s[i] - 0x30) as u32) + ((s[i + 1] - 0x30) as u32)
}

/// The value of the four digits from `i`.
pub fn four_digit_value(s: &[u8], i: usize) -> (r: u32)
    requires
        i + 4 <= s@.len(),
        all_digits(s@, i as int, i + 4),
    ensures
        r == four_digits(s@, i as int),
        r < 10000,
{
    let len: usize = s.len();
    assert(i + 2 < len);
    100 * two_digit_value(s, i) + two_digit_value(s, i + 2)
}

/// Appends `n` in two digits.
pub fn push_two_digits(out: &mut Vec<u8>, n: u32)
    requires
        n < 100,
    ensures
        final(out)@ == old(out)@ + two_digit_bytes(n as int),
        is_ascii_bytes(old(out)@) ==> is_ascii_bytes(final(out)@),
{
    out.push((0x30 + n / 10) as u8);
    out.push((0x30 + n % 10) as u8);
    assert(final(out)@ =~= old(out)@ + two_digit_bytes(n as int));
}

/// Appends `n` in four digits.
pub fn push_four_digits(out: &mut Vec<u8>, n: u32)
    requires
        n < 10000,
    ensures
        final(out)@ == old(out)@ + four_digit_bytes(n as int),
        is_ascii_bytes(old(out)@) ==> is_ascii_bytes(final(out)@),
{
    push_two_digits(out, n / 100);
    push_two_digits(out, n % 100);
    assert(final(out)@ =~= old(out)@ + four_digit_bytes(n as int));
}

/// Two digits read back give the bytes they were read from.
pub proof fn lemma_two_digits_round_trip(s: Seq<u8>, i: int)
    requires
        0 <= i,
        i + 2 <= s.len(),
        all_digits(s, i, i + 2),
    ensures
        two_digit_bytes(two_digits(s, i)) == s.subrange(i, i + 2),
{
    assert(is_digit(s[i]) && is_digit(s[i + 1]));
    assert(two_digit_bytes(two_digits(s, i)) =~= s.subrange(i, i + 2));
}

/// Four digits read back give the bytes they were read from.
pub proof fn lemma_four_digits_round_trip(s: Seq<u8>, i: int)
    requires
        0 <= i,
        i + 4 <= s.len(),
        all_digits(s, i, i + 4),
    ensures
        four_digit_bytes(four_digits(s, i)) == s.subrange(i, i + 4),
{
    lemma_two_digits_round_trip(s, i);
    lemma_two_digits_round_trip(s, i + 2);
    assert(0 <= two_digits(s, i + 2) < 100);
    assert(four_digit_bytes(four_digits(s, i)) =~= s.subrange(i, i + 4));
}

/// Every byte is ASCII.
pub open spec fn is_ascii_bytes(s: Seq<u8>) -> bool {
    forall|i: int| 0 <= i < s.len() ==> #[trigger] s[i] < 0x80
}

/// ASCII bytes read as characters, one each.
pub open spec fn ascii_chars(s: Seq<u8>) -> Seq<char> {
    s.map_values(|b: u8| b as char)
}

/// Relies on `String::from_utf8`: ASCII bytes are valid UTF-8, and each
/// byte becomes the character of the same code.
#[verifier::external_body]
pub(crate) fn ascii_string(bytes: Vec<u8>) -> (r: String)
    requires
        is_ascii_bytes(bytes@),
    ensures
        r@ == ascii_chars(bytes@),
{
    String::from_utf8(bytes).unwrap_or_default()
}

} // verus!

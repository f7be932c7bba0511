//! Small verified text utilities: decimal rendering of integers and
//! percent-encoding of query strings.

use vstd::prelude::*;
use vstd::utf8::encode_scalar;
use vstd::utf8::char_is_scalar;

verus! {

/// Relies on `String::push` of std: appends the given character to the end
/// of the string.
pub assume_specification[ String::push ](s: &mut String, c: char)
    ensures
        final(s)@ == old(s)@.push(c),
;

/// The character for one hexadecimal digit, upper case.
pub open spec fn hex_digit_spec(n: u8) -> char
    recommends
        n < 16,
{
    if n == 0 {
        '0'
    } else if n == 1 {
        '1'
    } else if n == 2 {
        '2'
    } else if n == 3 {
        '3'
    } else if n == 4 {
        '4'
    } else if n == 5 {
        '5'
    } else if n == 6 {
        '6'
    } else if n == 7 {
        '7'
    } else if n == 8 {
        '8'
    } else if n == 9 {
        '9'
    } else if n == 10 {
        'A'
    } else if n == 11 {
        'B'
    } else if n == 12 {
        'C'
    } else if n == 13 {
        'D'
    } else if n == 14 {
        'E'
    } else {
        'F'
    }
}

/// One hexadecimal digit, upper case.
pub fn hex_digit(n: u8) -> (r: char)
    requires
        n < 16,
    ensures
        r == hex_digit_spec(n),
{
    if n == 0 {
        '0'
    } else if n == 1 {
        '1'
    } else if n == 2 {
        '2'
    } else if n == 3 {
        '3'
    } else if n == 4 {
        '4'
    } else if n == 5 {
        '5'
    } else if n == 6 {
        '6'
    } else if n == 7 {
        '7'
    } else if n == 8 {
        '8'
    } else if n == 9 {
        '9'
    } else if n == 10 {
        'A'
    } else if n == 11 {
        'B'
    } else if n == 12 {
        'C'
    } else if n == 13 {
        'D'
    } else if n == 14 {
        'E'
    } else {
        'F'
    }
}

/// The decimal digits of a non-negative integer, most significant first.
pub open spec fn decimal_of(n: int) -> Seq<char>
    recommends
        n >= 0,
    decreases n,
{
    if n < 10 {
        seq![hex_digit_spec((n % 10) as u8)]
    } else {
        decimal_of(n / 10).push(hex_digit_spec((n % 10) as u8))
    }
}

/// A non-negative integer written in decimal.
pub fn decimal_string(n: u64) -> (r: String)
    ensures
        r@ == decimal_of(n as int),
    decreases n,
{
    if n < 10 {
        let mut s = String::new();
        s.push(hex_digit(n as u8));
        proof {
            assert(s@ =~= decimal_of(n as int));
        }
        s
    } else {
        let mut s = decimal_string(n / 10);
        s.push(hex_digit((n % 10) as u8));
        s
    }
}

/// True for the characters that pass through a URL query unescaped:
/// ASCII letters, digits, `-`, `.`, `_` and `~`.
pub open spec fn is_unreserved(c: char) -> bool {
    let u = c as u32;
    (0x41 <= u && u <= 0x5A) || (0x61 <= u && u <= 0x7A) || (0x30 <= u && u <= 0x39) || u == 0x2D
        || u == 0x2E || u == 0x5F || u == 0x7E
}

/// `%XX` for one byte.
pub open spec fn percent_byte(b: u8) -> Seq<char> {
    seq!['%', hex_digit_spec(b / 16), hex_digit_spec(b % 16)]
}

/// `%XX` for each byte in turn.
pub open spec fn percent_bytes(bs: Seq<u8>) -> Seq<char>
    decreases bs.len(),
{
    if bs.len() == 0 {
        Seq::empty()
    } else {
        percent_byte(bs[0]) + percent_bytes(bs.drop_first())
    }
}

/// How one character appears in an encoded query: unreserved characters
/// stand as they are, every other character as the `%XX` escapes of its
/// UTF-8 bytes.
pub open spec fn encoded_char(c: char) -> Seq<char> {
    if is_unreserved(c) {
        seq![c]
    } else {
        percent_bytes(encode_scalar(c as u32))
    }
}

/// The percent-encoded form of a whole string.
pub open spec fn percent_encoded(s: Seq<char>) -> Seq<char>
    decreases s.len(),
{
    if s.len() == 0 {
        Seq::empty()
    } else {
        encoded_char(s[0]) + percent_encoded(s.drop_first())
    }
}

proof fn lemma_percent_bytes_push(bs: Seq<u8>, b: u8)
    ensures
        percent_bytes(bs.push(b)) == percent_bytes(bs) + percent_byte(b),
    decreases bs.len(),
{
    if bs.len() == 0 {
        assert(bs.push(b).drop_first() =~= bs);
        assert(percent_bytes(bs.push(b)) =~= percent_bytes(bs) + percent_byte(b));
    } else {
        lemma_percent_bytes_push(bs.drop_first(), b);
        assert(bs.push(b).drop_first() =~= bs.drop_first().push(b));
        assert(percent_bytes(bs.push(b)) =~= percent_bytes(bs) + percent_byte(b));
    }
}

proof fn lemma_percent_encoded_push(s: Seq<char>, c: char)
    ensures
        percent_encoded(s.push(c)) == percent_encoded(s) + encoded_char(c),
    decreases s.len(),
{
    if s.len() == 0 {
        assert(s.push(c).drop_first() =~= s);
        assert(percent_encoded(s.push(c)) =~= percent_encoded(s) + encoded_char(c));
    } else {
        lemma_percent_encoded_push(s.drop_first(), c);
        assert(s.push(c).drop_first() =~= s.drop_first().push(c));
        assert(percent_encoded(s.push(c)) =~= percent_encoded(s) + encoded_char(c));
    }
}

/// The UTF-8 bytes of one character.
fn utf8_bytes(c: char) -> (r: Vec<u8>)
    ensures
        r@ == encode_scalar(c as u32),
{
    proof {
        char_is_scalar(c);
    }
    let u = c as u32;
    let mut v: Vec<u8> = Vec::new();
    if u <= 0x7F {
        assert(u & 0x7F <= 0x7F) by (bit_vector);
        v.push((u & 0x7F) as u8);
        proof {
            assert(v@ =~= encode_scalar(c as u32));
        }
    } else if u <= 0x7FF {
        assert((u >> 6) & 0x1F <= 0x1F) by (bit_vector);
        assert(u & 0x3F <= 0x3F) by (bit_vector);
        v.push(0xC0 | ((u >> 6) & 0x1F) as u8);
        v.push(0x80 | (u & 0x3F) as u8);
        proof {
            assert(v@ =~= encode_scalar(c as u32));
        }
    } else if u <= 0xFFFF {
        assert((u >> 12) & 0x0F <= 0x0F) by (bit_vector);
        assert((u >> 6) & 0x3F <= 0x3F) by (bit_vector);
        assert(u & 0x3F <= 0x3F) by (bit_vector);
        v.push(0xE0 | ((u >> 12) & 0x0F) as u8);
        v.push(0x80 | ((u >> 6) & 0x3F) as u8);
        v.push(0x80 | (u & 0x3F) as u8);
        proof {
            assert(v@ =~= encode_scalar(c as u32));
        }
    } else {
        assert((u >> 18) & 0x7 <= 0x7) by (bit_vector);
        assert((u >> 12) & 0x3F <= 0x3F) by (bit_vector);
        assert((u >> 6) & 0x3F <= 0x3F) by (bit_vector);
        assert(u & 0x3F <= 0x3F) by (bit_vector);
        v.push(0xF0 | ((u >> 18) & 0x7) as u8);
        v.push(0x80 | ((u >> 12) & 0x3F) as u8);
        v.push(0x80 | ((u >> 6) & 0x3F) as u8);
        v.push(0x80 | (u & 0x3F) as u8);
        proof {
            assert(v@ =~= encode_scalar(c as u32));
        }
    }
    v
}

/// Whether a character passes through a URL query unescaped.
fn unreserved(c: char) -> (r: bool)
    ensures
        r == is_unreserved(c),
{
    let u = c as u32;
    (0x41 <= u && u <= 0x5A) || (0x61 <= u && u <= 0x7A) || (0x30 <= u && u <= 0x39) || u == 0x2D
        || u == 0x2E || u == 0x5F || u == 0x7E
}

fn append_percent_byte(out: &mut String, b: u8)
    ensures
        final(out)@ == old(out)@ + percent_byte(b),
{
    out.push('%');
    out.push(hex_digit(b / 16));
    out.push(hex_digit(b % 16));
    proof {
        assert(out@ =~= old(out)@ + percent_byte(b));
    }
}

fn append_encoded_char(out: &mut String, c: char)
    ensures
        final(out)@ == old(out)@ + encoded_char(c),
{
    if unreserved(c) {
        out.push(c);
        proof {
            assert(out@ =~= old(out)@ + encoded_char(c));
        }
    } else {
        let bytes = utf8_bytes(c);
        let mut j: usize = 0;
        while j < bytes.len()
            invariant
                j <= bytes.len(),
                bytes@ == encode_scalar(c as u32),
                out@ == old(out)@ + percent_bytes(bytes@.take(j as int)),
            decreases bytes.len() - j,
        {
            append_percent_byte(out, bytes[j]);
            proof {
                lemma_percent_bytes_push(bytes@.take(j as int), bytes@[j as int]);
                assert(bytes@.take(j + 1 as int) =~= bytes@.take(j as int).push(bytes@[j as int]));
            }
            j += 1;
        }
        proof {
            assert(bytes@.take(bytes@.len() as int) =~= bytes@);
            assert(!is_unreserved(c));
        }
    }
}

/// The percent-encoded form of a string, fit for use in a URL query.
pub fn url_encode(s: &str) -> (r: String)
    ensures
        r@ == percent_encoded(s@),
{
    let n = s.unicode_len();
    let mut out = String::new();
    let mut i: usize = 0;
    while i < n
        invariant
            i <= n,
            n == s@.len(),
            out@ == percent_encoded(s@.take(i as int)),
        decreases n - i,
    {
        let c = s.get_char(i);
        append_encoded_char(&mut out, c);
        proof {
            lemma_percent_encoded_push(s@.take(i as int), s@[i as int]);
            assert(s@.take(i + 1 as int) =~= s@.take(i as int).push(s@[i as int]));
        }
        i += 1;
    }
    proof {
        assert(s@.take(n as int) =~= s@);
    }
    out
}

} // verus!

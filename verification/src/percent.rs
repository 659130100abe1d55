//! Percent-decoding of `file://` URIs and the arguments that carry them.

use vstd::prelude::*;
use vstd::string::*;
use vstd::utf8::*;

verus! {

/// The byte `%`, which opens an escape.
pub const PERCENT_SIGN: u8 = 0x25;
/// The byte `0`.
pub const DIGIT_ZERO: u8 = 0x30;
/// The byte `9`.
pub const DIGIT_NINE: u8 = 0x39;
/// The byte `A`.
pub const UPPER_A: u8 = 0x41;
/// The byte `F`.
pub const UPPER_F: u8 = 0x46;
/// The byte `a`.
pub const LOWER_A: u8 = 0x61;
/// The byte `f`.
pub const LOWER_F: u8 = 0x66;

/// The value of one hexadecimal digit, in either case.
pub open spec fn hex_digit(b: u8) -> Option<u8> {
    if DIGIT_ZERO <= b && b <= DIGIT_NINE {
        Some((b - DIGIT_ZERO) as u8)
    } else if LOWER_A <= b && b <= LOWER_F {
        Some((b - LOWER_A + 10) as u8)
    } else if UPPER_A <= b && b <= UPPER_F {
        Some((b - UPPER_A + 10) as u8)
    } else {
        None
    }
}

/// The byte that the two hexadecimal digits `hi lo` encode, as a URI's
/// `%XX` escape reads them; none unless both are hexadecimal digits.
pub open spec fn hex_pair(hi: u8, lo: u8) -> Option<u8> {
    match (hex_digit(hi), hex_digit(lo)) {
        (Some(h), Some(l)) => Some((16 * h + l) as u8),
        _ => None,
    }
}

/// The bytes `b` stand for once every `%` followed by two more bytes that
/// read as a base-16 byte is replaced by that byte; every other byte,
/// including a `%` that starts no such escape, is kept as it is.
pub open spec fn percent_decoded(b: Seq<u8>) -> Seq<u8>
    decreases b.len(),
{
    if b.len() == 0 {
        Seq::empty()
    } else if b[0] == PERCENT_SIGN && b.len() > 2 && hex_pair(b[1], b[2]) is Some {
        seq![hex_pair(b[1], b[2])->0] + percent_decoded(b.skip(3))
    } else {
        seq![b[0]] + percent_decoded(b.skip(1))
    }
}

fn hex_digit_value(b: u8) -> (r: Option<u8>)
    ensures
        r == hex_digit(b),
{
    if DIGIT_ZERO <= b && b <= DIGIT_NINE {
        Some(b - DIGIT_ZERO)
    } else if LOWER_A <= b && b <= LOWER_F {
        Some(b - LOWER_A + 10)
    } else if UPPER_A <= b && b <= UPPER_F {
        Some(b - UPPER_A + 10)
    } else {
        None
    }
}

/// Reads the two hexadecimal digits `hi lo` as the byte they encode.
pub fn hex_pair_value(hi: u8, lo: u8) -> (r: Option<u8>)
    ensures
        r == hex_pair(hi, lo),
{
    match (hex_digit_value(hi), hex_digit_value(lo)) {
        (Some(h), Some(l)) => Some(16 * h + l),
        _ => None,
    }
}

/// Decoding never makes bytes longer: an escape of three bytes becomes one,
/// and every other byte is kept.
pub proof fn lemma_decoding_never_lengthens(b: Seq<u8>)
    ensures
        percent_decoded(b).len() <= b.len(),
    decreases b.len(),
{
    if b.len() > 0 {
        lemma_decoding_never_lengthens(b.skip(1));
        if b.len() > 2 {
            lemma_decoding_never_lengthens(b.skip(3));
        }
    }
}

/// Replaces each `%XX` escape in `bytes` by the byte it encodes.
pub fn percent_decode_bytes(bytes: &[u8]) -> (out: Vec<u8>)
    ensures
        out@ == percent_decoded(bytes@),
        out@.len() <= bytes@.len(),
{
    proof {
        lemma_decoding_never_lengthens(bytes@);
    }
    let mut out: Vec<u8> = Vec::new();
    let mut i: usize = 0;
    assert(bytes@.skip(0) =~= bytes@);
    while i < bytes.len()
        invariant
            i <= bytes@.len(),
            out@ + percent_decoded(bytes@.skip(i as int)) == percent_decoded(bytes@),
        decreases bytes@.len() - i,
    {
        let ghost rest = bytes@.skip(i as int);
        let mut decoded: Option<u8> = None;
        if bytes[i] == PERCENT_SIGN && bytes.len() - i > 2 {
            decoded = hex_pair_value(bytes[i + 1], bytes[i + 2]);
        }
        match decoded {
            Some(byte) => {
                assert(rest.skip(3) =~= bytes@.skip(i + 3));
                out.push(byte);
                i += 3;
            },
            None => {
                assert(rest.skip(1) =~= bytes@.skip(i + 1));
                out.push(bytes[i]);
                i += 1;
            },
        }
        assert(out@ + percent_decoded(bytes@.skip(i as int)) =~= percent_decoded(bytes@));
    }
    assert(bytes@.skip(i as int) =~= Seq::<u8>::empty());
    assert(out@ =~= out@ + percent_decoded(bytes@.skip(i as int)));
    out
}

/// What `String::from_utf8_lossy` makes of `bytes`: their UTF-8 text, with
/// each invalid sequence replaced by U+FFFD.
pub uninterp spec fn utf8_lossy(bytes: Seq<u8>) -> Seq<char>;

/// Calls `String::from_utf8_lossy` and takes the result as an owned
/// `String`. Claimed of it: the text is `utf8_lossy` of the bytes, and where
/// the bytes are valid UTF-8 it is exactly the text that they encode, as the
/// documentation says, and where they are not, the text holds at least one
/// U+FFFD, which stands in for each invalid sequence. How many replacement
/// characters stand for an invalid sequence is left to the name.
#[verifier::external_body]
fn string_from_utf8_lossy(bytes: &[u8]) -> (text: String)
    ensures
        text@ == utf8_lossy(bytes@),
        valid_utf8(bytes@) ==> text@ == decode_utf8(bytes@),
        !valid_utf8(bytes@) ==> text@.contains('\u{fffd}'),
{
    String::from_utf8_lossy(bytes).into_owned()
}

/// The text that `bytes` read as: the text they encode where they are valid
/// UTF-8, otherwise what `String::from_utf8_lossy` makes of them.
pub open spec fn utf8_text(bytes: Seq<u8>) -> Seq<char> {
    if valid_utf8(bytes) {
        decode_utf8(bytes)
    } else {
        utf8_lossy(bytes)
    }
}

/// The text that `percent_decode` gives back for `value`.
pub open spec fn percent_decoded_text(value: Seq<char>) -> Seq<char> {
    utf8_text(percent_decoded(encode_utf8(value)))
}

/// Decodes the `%XX` escapes of `value` into bytes and reads those bytes back
/// as UTF-8, replacing what is not valid UTF-8 by U+FFFD.
pub fn percent_decode(value: &str) -> (text: String)
    ensures
        text@ == percent_decoded_text(value@),
        text@ == utf8_lossy(percent_decoded(encode_utf8(value@))),
        !valid_utf8(percent_decoded(encode_utf8(value@))) ==> text@.contains('\u{fffd}'),
        !value@.contains('%') ==> text@ == value@,
        valid_utf8(percent_decoded(encode_utf8(value@))) ==> encode_utf8(text@).len()
            <= encode_utf8(value@).len(),
{
    proof {
        lemma_decoding_never_lengthens(encode_utf8(value@));
        if valid_utf8(percent_decoded(encode_utf8(value@))) {
            decode_utf8_encode_utf8(percent_decoded(encode_utf8(value@)));
        }
        if !value@.contains('%') {
            lemma_percent_decode_keeps_plain_text(value@);
        }
    }
    let bytes = value.as_bytes();
    let out = percent_decode_bytes(bytes);
    string_from_utf8_lossy(out.as_slice())
}

/// `s` with `prefix` taken off its front, where `s` starts with it.
fn strip_prefix<'a>(s: &'a str, prefix: &str) -> (rest: Option<&'a str>)
    ensures
        rest is Some <==> prefix@.is_prefix_of(s@),
        rest matches Some(r) ==> r@ == s@.skip(prefix@.len() as int),
{
    let n = prefix.unicode_len();
    let len = s.unicode_len();
    if n > len {
        return None;
    }
    let mut i: usize = 0;
    while i < n
        invariant
            n == prefix@.len(),
            len == s@.len(),
            n <= len,
            i <= n,
            forall|j: int| 0 <= j < i ==> prefix@[j] == s@[j],
        decreases n - i,
    {
        if prefix.get_char(i) != s.get_char(i) {
            return None;
        }
        i += 1;
    }
    assert(prefix@ =~= s@.subrange(0, n as int));
    let rest = s.substring_char(n, len);
    assert(rest@ =~= s@.skip(n as int));
    Some(rest)
}

/// The scheme that marks an argument as a `file://` URI.
pub open spec fn file_scheme() -> Seq<char> {
    "file://"@
}

/// The local path that `arg` names: the decoded path of a `file://` URI, or
/// `arg` itself.
pub open spec fn local_path(arg: Seq<char>) -> Seq<char> {
    if file_scheme().is_prefix_of(arg) {
        percent_decoded_text(arg.skip(file_scheme().len() as int))
    } else {
        arg
    }
}

/// A bare filesystem path, or a `file://` URI decoded back into one: the two
/// shapes in which an "Open With" launch or a drop hands a file over.
pub fn local_path_from_arg(arg: &str) -> (path: Option<String>)
    ensures
        path matches Some(p) && p@ == local_path(arg@),
        file_scheme().is_prefix_of(arg@) && valid_utf8(
            percent_decoded(encode_utf8(arg@.skip(file_scheme().len() as int))),
        ) ==> path->0@ == decode_utf8(
            percent_decoded(encode_utf8(arg@.skip(file_scheme().len() as int))),
        ),
{
    match strip_prefix(arg, "file://") {
        Some(rest) => Some(percent_decode(rest)),
        None => Some(arg.to_owned()),
    }
}

/// No byte of the UTF-8 encoding of a character other than `%` is a `%`.
proof fn lemma_scalar_has_no_percent(c: char)
    requires
        c != '%',
    ensures
        !encode_scalar(c as u32).contains(PERCENT_SIGN),
{
    let v = c as u32;
    char_is_scalar(c);
    assert(('%' as u32) == 0x25);
    if has_width_1_encoding(v) {
        assert((v & 0x7F) as u8 == v) by (bit_vector)
            requires
                v <= 0x7f,
        ;
    } else {
        assert(0xC0u8 | ((v >> 6) & 0x1F) as u8 >= 0x80) by (bit_vector);
        assert(0xE0u8 | ((v >> 12) & 0x0F) as u8 >= 0x80) by (bit_vector);
        assert(0xF0u8 | ((v >> 18) & 0x7) as u8 >= 0x80) by (bit_vector);
        assert(0x80u8 | (v & 0x3F) as u8 >= 0x80) by (bit_vector);
        assert(0x80u8 | ((v >> 6) & 0x3F) as u8 >= 0x80) by (bit_vector);
        assert(0x80u8 | ((v >> 12) & 0x3F) as u8 >= 0x80) by (bit_vector);
    }
}

/// The UTF-8 encoding of a text without `%` holds no `%` byte.
proof fn lemma_encoding_has_no_percent(value: Seq<char>)
    requires
        !value.contains('%'),
    ensures
        !encode_utf8(value).contains(PERCENT_SIGN),
    decreases value.len(),
{
    if value.len() > 0 {
        assert(value.drop_first().contains('%') ==> value.contains('%')) by {
            if value.drop_first().contains('%') {
                let k = choose|k: int| 0 <= k < value.drop_first().len() && value.drop_first()[k] == '%';
                assert(value[k + 1] == '%');
            }
        }
        assert(value[0] != '%') by {
            if value[0] == '%' {
                assert(value.contains('%'));
            }
        }
        lemma_scalar_has_no_percent(value[0]);
        lemma_encoding_has_no_percent(value.drop_first());
        let head = encode_scalar(value[0] as u32);
        let tail = encode_utf8(value.drop_first());
        assert(encode_utf8(value) == head + tail);
        if (head + tail).contains(PERCENT_SIGN) {
            let k = choose|k: int| 0 <= k < (head + tail).len() && (head + tail)[k] == PERCENT_SIGN;
            if k < head.len() {
                assert(head[k] == PERCENT_SIGN);
                assert(head.contains(PERCENT_SIGN));
            } else {
                assert(tail[k - head.len()] == PERCENT_SIGN);
                assert(tail.contains(PERCENT_SIGN));
            }
        }
    }
}

/// Bytes without `%` are left as they are.
proof fn lemma_decoding_without_percent(b: Seq<u8>)
    requires
        !b.contains(PERCENT_SIGN),
    ensures
        percent_decoded(b) == b,
    decreases b.len(),
{
    if b.len() > 0 {
        assert(b[0] != PERCENT_SIGN) by {
            if b[0] == PERCENT_SIGN {
                assert(b.contains(PERCENT_SIGN));
            }
        }
        assert(!b.skip(1).contains(PERCENT_SIGN)) by {
            if b.skip(1).contains(PERCENT_SIGN) {
                let k = choose|k: int| 0 <= k < b.skip(1).len() && b.skip(1)[k] == PERCENT_SIGN;
                assert(b[k + 1] == PERCENT_SIGN);
            }
        }
        lemma_decoding_without_percent(b.skip(1));
        assert(seq![b[0]] + b.skip(1) =~= b);
    }
}

/// Decoding leaves a text without `%` as it is: its bytes come back
/// unchanged, they are valid UTF-8, and they read back as the same text.
pub proof fn lemma_percent_decode_keeps_plain_text(value: Seq<char>)
    requires
        !value.contains('%'),
    ensures
        percent_decoded(encode_utf8(value)) == encode_utf8(value),
        valid_utf8(percent_decoded(encode_utf8(value))),
        decode_utf8(percent_decoded(encode_utf8(value))) == value,
{
    lemma_encoding_has_no_percent(value);
    lemma_decoding_without_percent(encode_utf8(value));
    encode_utf8_valid_utf8(value);
    encode_utf8_decode_utf8(value);
}

/// The upper-case hexadecimal digit for `n`, a value below 16.
pub open spec fn hex_char(n: u8) -> u8 {
    if n < 10 {
        (DIGIT_ZERO + n) as u8
    } else {
        (UPPER_A + n - 10) as u8
    }
}

/// `b` with every byte written as a `%XX` escape, as a URI encodes bytes.
pub open spec fn percent_escaped(b: Seq<u8>) -> Seq<u8>
    decreases b.len(),
{
    if b.len() == 0 {
        Seq::empty()
    } else {
        seq![PERCENT_SIGN, hex_char(b[0] / 16), hex_char(b[0] % 16)] + percent_escaped(b.skip(1))
    }
}

/// Decoding gives back the bytes that were escaped.
pub proof fn lemma_decoding_inverts_escaping(b: Seq<u8>)
    ensures
        percent_decoded(percent_escaped(b)) == b,
    decreases b.len(),
{
    if b.len() > 0 {
        let e = percent_escaped(b);
        let head = seq![PERCENT_SIGN, hex_char(b[0] / 16), hex_char(b[0] % 16)];
        let tail = percent_escaped(b.skip(1));
        assert(e == head + tail);
        assert(e[0] == PERCENT_SIGN && e[1] == hex_char(b[0] / 16) && e[2] == hex_char(b[0] % 16));
        assert(hex_digit(hex_char(b[0] / 16)) == Some((b[0] / 16) as u8));
        assert(hex_digit(hex_char(b[0] % 16)) == Some((b[0] % 16) as u8));
        assert(hex_pair(e[1], e[2]) == Some(b[0]));
        assert(e.skip(3) =~= tail);
        lemma_decoding_inverts_escaping(b.skip(1));
        if tail.len() > 0 {
            assert(e[3] == tail[0]);
            assert(percent_escaped(b.skip(1))[0] == PERCENT_SIGN);
        }
        assert(seq![b[0]] + b.skip(1) =~= b);
    }
}


/// A hexadecimal digit `0`-`9`, `A`-`F` or `a`-`f`, spelled out for the laws.
pub open spec fn is_hex_byte(b: u8) -> bool {
    (0x30 <= b && b <= 0x39) || (0x41 <= b && b <= 0x46) || (0x61 <= b && b <= 0x66)
}

/// Two hexadecimal digits read as the byte they encode, and anything else as
/// no byte: `4` `1` is 0x41, `f` `F` is 0xff, and `+` `7` is nothing.
pub proof fn lemma_hex_pairs(hi: u8, lo: u8)
    ensures
        is_hex_byte(hi) && is_hex_byte(lo) ==> hex_pair(hi, lo) == Some(
            (16 * (if hi <= 0x39 {
                hi - 0x30
            } else if hi <= 0x46 {
                hi - 0x37
            } else {
                hi - 0x57
            }) + (if lo <= 0x39 {
                lo - 0x30
            } else if lo <= 0x46 {
                lo - 0x37
            } else {
                lo - 0x57
            })) as u8,
        ),
        !(is_hex_byte(hi) && is_hex_byte(lo)) ==> hex_pair(hi, lo) is None,
{
}

/// A `%` and two hexadecimal digits decode to the byte they encode, whatever
/// follows them; decoding then goes on after the escape.
pub proof fn lemma_escape_decodes_whatever_follows(hi: u8, lo: u8, rest: Seq<u8>)
    requires
        is_hex_byte(hi),
        is_hex_byte(lo),
    ensures
        percent_decoded(seq![0x25u8, hi, lo] + rest) == seq![
            (16 * (if hi <= 0x39 {
                hi - 0x30
            } else if hi <= 0x46 {
                hi - 0x37
            } else {
                hi - 0x57
            }) + (if lo <= 0x39 {
                lo - 0x30
            } else if lo <= 0x46 {
                lo - 0x37
            } else {
                lo - 0x57
            })) as u8,
        ] + percent_decoded(rest),
{
    lemma_hex_pairs(hi, lo);
    let s = seq![0x25u8, hi, lo] + rest;
    assert(s[0] == 0x25 && s[1] == hi && s[2] == lo);
    assert(s.skip(3) =~= rest);
}

/// A `%` that two hexadecimal digits do not follow is kept as it is, and
/// decoding goes on with the next byte.
pub proof fn lemma_percent_without_escape_is_kept(rest: Seq<u8>)
    requires
        !(rest.len() >= 2 && is_hex_byte(rest[0]) && is_hex_byte(rest[1])),
    ensures
        percent_decoded(seq![0x25u8] + rest) == seq![0x25u8] + percent_decoded(rest),
{
    let s = seq![0x25u8] + rest;
    if rest.len() >= 2 {
        assert(s[1] == rest[0] && s[2] == rest[1]);
        lemma_hex_pairs(rest[0], rest[1]);
    }
    assert(s.skip(1) =~= rest);
}

/// A byte other than `%` is kept as it is, and decoding goes on with the
/// next one.
pub proof fn lemma_other_bytes_are_kept(b: u8, rest: Seq<u8>)
    requires
        b != 0x25,
    ensures
        percent_decoded(seq![b] + rest) == seq![b] + percent_decoded(rest),
{
    let s = seq![b] + rest;
    assert(s[0] == b);
    assert(s.skip(1) =~= rest);
}

/// Nothing decodes to nothing.
pub proof fn lemma_nothing_decodes_to_nothing()
    ensures
        percent_decoded(Seq::<u8>::empty()) == Seq::<u8>::empty(),
{
}


/// An argument that is no `file://` URI is its own path; the path of a
/// `file://` URI is the rest of it, percent-decoded, and read as the UTF-8
/// text it encodes where it is valid UTF-8.
pub proof fn lemma_local_paths(arg: Seq<char>, rest: Seq<char>)
    ensures
        !"file://"@.is_prefix_of(arg) ==> local_path(arg) == arg,
        local_path("file://"@ + rest) == percent_decoded_text(rest),
        valid_utf8(percent_decoded(encode_utf8(rest))) ==> local_path("file://"@ + rest)
            == decode_utf8(percent_decoded(encode_utf8(rest))),
{
    reveal_strlit("file://");
    let t = "file://"@ + rest;
    assert(t.subrange(0, 7) =~= "file://"@);
    assert(t.skip(7) =~= rest);
}

} // verus!

//! Percent-encoding of texts that stand in a URL path.
use vstd::prelude::*;
use vstd::utf8::*;

verus! {

/// The bytes that stand in an encoded text as they are.
pub open spec fn unreserved(b: u8) -> bool {
    ||| 48 <= b <= 57
    ||| 65 <= b <= 90
    ||| 97 <= b <= 122
    ||| b == 45
    ||| b == 46
    ||| b == 95
    ||| b == 126
}

/// The upper-case hexadecimal digit of a value below sixteen.
pub open spec fn hex_char(v: int) -> char {
    if v < 10 {
        (48 + v) as char
    } else {
        (55 + v) as char
    }
}

/// How one byte is written: itself, or a percent sign and two hexadecimal digits.
pub open spec fn escaped(b: u8) -> Seq<char> {
    if unreserved(b) {
        seq![b as char]
    } else {
        seq!['%', hex_char(b as int / 16), hex_char(b as int % 16)]
    }
}

/// How a sequence of bytes is written, byte by byte.
pub open spec fn percent_encoded(bytes: Seq<u8>) -> Seq<char>
    decreases bytes.len(),
{
    if bytes.len() == 0 {
        seq![]
    } else {
        escaped(bytes[0]) + percent_encoded(bytes.drop_first())
    }
}

/// The value of a hexadecimal digit in either case.
pub open spec fn hex_value(b: u8) -> Option<int> {
    if 48 <= b <= 57 {
        Some(b - 48)
    } else if 65 <= b <= 70 {
        Some(b - 55)
    } else if 97 <= b <= 102 {
        Some(b - 87)
    } else {
        None
    }
}

/// The bytes that an encoded text stands for. A percent sign that two hexadecimal digits do not
/// follow stands for itself.
pub open spec fn percent_decoded(bytes: Seq<u8>) -> Seq<u8>
    decreases bytes.len(),
{
    if bytes.len() == 0 {
        seq![]
    } else if bytes[0] == 37 && bytes.len() >= 3 && hex_value(bytes[1]) is Some && hex_value(
        bytes[2],
    ) is Some {
        seq![(16 * hex_value(bytes[1])->0 + hex_value(bytes[2])->0) as u8] + percent_decoded(
            bytes.skip(3),
        )
    } else {
        seq![bytes[0]] + percent_decoded(bytes.drop_first())
    }
}

/// The text that an encoded text stands for: none where the bytes are not UTF-8.
pub open spec fn decoded_text(s: Seq<char>) -> Option<Seq<char>> {
    let bytes = percent_decoded(encode_utf8(s));
    if valid_utf8(bytes) {
        Some(decode_utf8(bytes))
    } else {
        None
    }
}

/// The encoded form of a text.
pub open spec fn encoded_text(s: Seq<char>) -> Seq<char> {
    percent_encoded(encode_utf8(s))
}

/// `urlencoding::encode`: every byte of the text's UTF-8 form but letters, digits, `-`, `.`, `_`
/// and `~` becomes a percent sign and two upper-case hexadecimal digits.
#[verifier::external_body]
pub(crate) fn encode(data: &str) -> (r: String)
    ensures
        r@ == encoded_text(data@),
{
    urlencoding::encode(data).into_owned()
}

/// `urlencoding::decode`: percent signs followed by two hexadecimal digits become the byte they
/// name, all else is kept, and the result is read as UTF-8. `None` stands for the error that the
/// bytes are not UTF-8.
#[verifier::external_body]
pub(crate) fn decode(data: &str) -> (r: Option<String>)
    ensures
        r matches Some(t) ==> decoded_text(data@) == Some(t@),
        r is None ==> decoded_text(data@) is None,
{
    match urlencoding::decode(data) {
        Ok(text) => Some(text.into_owned()),
        Err(_) => None,
    }
}

/// An encoded text is made of unreserved ASCII characters and percent signs: it holds no slash.
pub proof fn lemma_encoded_chars(bytes: Seq<u8>)
    ensures
        is_ascii_chars(percent_encoded(bytes)),
        forall|i: int|
            0 <= i < percent_encoded(bytes).len() ==> #[trigger] percent_encoded(bytes)[i] == '%'
                || unreserved(percent_encoded(bytes)[i] as u8),
        !percent_encoded(bytes).contains('/'),
        bytes.len() > 0 ==> percent_encoded(bytes).len() > 0,
    decreases bytes.len(),
{
    if bytes.len() > 0 {
        lemma_encoded_chars(bytes.drop_first());
        let head = escaped(bytes[0]);
        let tail = percent_encoded(bytes.drop_first());
        assert forall|i: int| 0 <= i < head.len() implies (#[trigger] head[i] == '%' || unreserved(
            head[i] as u8,
        )) && head[i] <= '\u{7f}' by {}
        assert forall|i: int| 0 <= i < (head + tail).len() implies (#[trigger] (head + tail)[i]
            == '%' || unreserved((head + tail)[i] as u8)) && (head + tail)[i] <= '\u{7f}' by {
            if i >= head.len() {
                assert((head + tail)[i] == tail[i - head.len()]);
            } else {
                assert((head + tail)[i] == head[i]);
            }
        }
    }
    let e = percent_encoded(bytes);
    if e.contains('/') {
        let i = choose|i: int| 0 <= i < e.len() && e[i] == '/';
        assert(e[i] == '%' || unreserved(e[i] as u8));
    }
}

/// ASCII characters as bytes.
spec fn ascii_bytes(s: Seq<char>) -> Seq<u8> {
    s.map_values(|c: char| c as u8)
}

/// A hexadecimal digit is read back as the value it was written for.
proof fn lemma_hex_char(v: int)
    requires
        0 <= v < 16,
    ensures
        hex_value(hex_char(v) as u8) == Some(v),
{
}

/// Decoding undoes encoding, byte by byte.
proof fn lemma_decode_bytes(bytes: Seq<u8>)
    ensures
        percent_decoded(ascii_bytes(percent_encoded(bytes))) == bytes,
    decreases bytes.len(),
{
    if bytes.len() == 0 {
        assert(ascii_bytes(percent_encoded(bytes)) =~= seq![]);
        assert(bytes =~= seq![]);
    } else {
        let b = bytes[0];
        let rest = bytes.drop_first();
        let tail = ascii_bytes(percent_encoded(rest));
        let all = ascii_bytes(percent_encoded(bytes));
        lemma_decode_bytes(rest);
        assert(all =~= ascii_bytes(escaped(b)) + tail);
        if unreserved(b) {
            assert(all.drop_first() =~= tail);
            assert(all[0] == b);
        } else {
            lemma_hex_char(b as int / 16);
            lemma_hex_char(b as int % 16);
            assert(all[0] == 37);
            assert(all[1] == hex_char(b as int / 16) as u8);
            assert(all[2] == hex_char(b as int % 16) as u8);
            assert(all.skip(3) =~= tail);
            assert(16 * (b as int / 16) + b as int % 16 == b as int);
        }
        assert(seq![b] + rest =~= bytes);
    }
}

/// Decoding an encoded text gives the text back.
pub proof fn decoding_undoes_encoding(s: Seq<char>)
    ensures
        decoded_text(encoded_text(s)) == Some(s),
{
    broadcast use {encode_utf8_valid_utf8, encode_utf8_decode_utf8};

    let e = encoded_text(s);
    lemma_encoded_chars(encode_utf8(s));
    is_ascii_chars_encode_utf8(e);
    assert(encode_utf8(e) =~= ascii_bytes(e));
    lemma_decode_bytes(encode_utf8(s));
}

/// A text of letters, digits and `-`, `.`, `_` or `~` is its own encoded form, character by
/// character.
pub proof fn unreserved_text_stays(bytes: Seq<u8>)
    requires
        forall|i: int|
            0 <= i < bytes.len() ==> {
                let c = #[trigger] bytes[i] as char;
                'a' <= c <= 'z' || 'A' <= c <= 'Z' || '0' <= c <= '9' || c == '-' || c == '.' || c
                    == '_' || c == '~'
            },
    ensures
        percent_encoded(bytes).len() == bytes.len(),
        forall|i: int|
            0 <= i < bytes.len() ==> #[trigger] percent_encoded(bytes)[i] as int == bytes[i],
    decreases bytes.len(),
{
    if bytes.len() > 0 {
        let rest = bytes.drop_first();
        assert forall|i: int| 0 <= i < rest.len() implies {
            let c = #[trigger] rest[i] as char;
            'a' <= c <= 'z' || 'A' <= c <= 'Z' || '0' <= c <= '9' || c == '-' || c == '.' || c
                == '_' || c == '~'
        } by {
            assert(rest[i] == bytes[i + 1]);
        }
        unreserved_text_stays(rest);
        assert(unreserved(bytes[0]));
        assert forall|i: int| 0 <= i < bytes.len() implies #[trigger] percent_encoded(
            bytes,
        )[i] as int == bytes[i] by {
            if i > 0 {
                assert(percent_encoded(bytes)[i] == percent_encoded(rest)[i - 1]);
                assert(bytes[i] == rest[i - 1]);
            }
        }
    }
}

/// A text without a percent sign stands for itself.
pub proof fn text_without_percent_signs_stays(bytes: Seq<u8>)
    requires
        forall|i: int| 0 <= i < bytes.len() ==> #[trigger] bytes[i] != 37,
    ensures
        percent_decoded(bytes) == bytes,
    decreases bytes.len(),
{
    if bytes.len() > 0 {
        let rest = bytes.drop_first();
        assert forall|i: int| 0 <= i < rest.len() implies #[trigger] rest[i] != 37 by {
            assert(rest[i] == bytes[i + 1]);
        }
        text_without_percent_signs_stays(rest);
        assert(seq![bytes[0]] + rest =~= bytes);
    } else {
        assert(bytes =~= seq![]);
    }
}

} // verus!

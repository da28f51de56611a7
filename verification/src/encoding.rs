//! Percent-encoding of text against the two sets of reserved bytes that a
//! shared-access signature uses.

use crate::text::push_char;
use vstd::prelude::*;
use vstd::string::StringExecFns;
use vstd::utf8::encode_utf8;

verus! {

/// The sets of ASCII bytes that are escaped. Bytes outside ASCII always are.
#[derive(Clone, Copy, Debug, PartialEq, Eq, Structural)]
pub enum EncodeSet {
    /// Control characters and
    /// ``space " # < > ` ? { } / : ; = @ \ [ ] ^ |``: the canonical encoding of
    /// the resource address.
    UserInfo,
    /// Control characters and `+ = /`: the characters of base64 that would
    /// collide with the separators of a token.
    Signature,
}

/// The C0 control characters and DEL.
pub open spec fn is_control(b: u8) -> bool {
    b <= 0x1F || b == 0x7F
}

/// The punctuation that the `UserInfo` set reserves.
pub open spec fn is_userinfo_punctuation(b: u8) -> bool {
    ||| b == 0x20  // space
    ||| b == 0x22  // "
    ||| b == 0x23  // #
    ||| b == 0x3C  // <
    ||| b == 0x3E  // >
    ||| b == 0x60  // `
    ||| b == 0x3F  // ?
    ||| b == 0x7B  // {
    ||| b == 0x7D  // }
    ||| b == 0x2F  // /
    ||| b == 0x3A  // :
    ||| b == 0x3B  // ;
    ||| b == 0x3D  // =
    ||| b == 0x40  // @
    ||| b == 0x5C  // \
    ||| b == 0x5B  // [
    ||| b == 0x5D  // ]
    ||| b == 0x5E  // ^
    ||| b == 0x7C  // |
}

/// The punctuation that the `Signature` set reserves.
pub open spec fn is_signature_punctuation(b: u8) -> bool {
    ||| b == 0x2B  // +
    ||| b == 0x3D  // =
    ||| b == 0x2F  // /
}

impl EncodeSet {
    /// Whether the set holds the byte.
    pub open spec fn holds(self, b: u8) -> bool {
        match self {
            EncodeSet::UserInfo => is_control(b) || is_userinfo_punctuation(b),
            EncodeSet::Signature => is_control(b) || is_signature_punctuation(b),
        }
    }

    /// Whether the set holds the byte.
    pub fn contains(self, b: u8) -> (held: bool)
        ensures
            held == self.holds(b),
    {
        let control = b <= 0x1F || b == 0x7F;
        match self {
            EncodeSet::UserInfo => control || b == 0x20 || b == 0x22 || b == 0x23 || b == 0x3C || b
                == 0x3E || b == 0x60 || b == 0x3F || b == 0x7B || b == 0x7D || b == 0x2F || b
                == 0x3A || b == 0x3B || b == 0x3D || b == 0x40 || b == 0x5C || b == 0x5B || b
                == 0x5D || b == 0x5E || b == 0x7C,
            EncodeSet::Signature => control || b == 0x2B || b == 0x3D || b == 0x2F,
        }
    }
}

/// The upper-case hexadecimal numeral of a value below sixteen.
pub open spec fn hex_char(d: u8) -> char {
    if d == 0 {
        '0'
    } else if d == 1 {
        '1'
    } else if d == 2 {
        '2'
    } else if d == 3 {
        '3'
    } else if d == 4 {
        '4'
    } else if d == 5 {
        '5'
    } else if d == 6 {
        '6'
    } else if d == 7 {
        '7'
    } else if d == 8 {
        '8'
    } else if d == 9 {
        '9'
    } else if d == 10 {
        'A'
    } else if d == 11 {
        'B'
    } else if d == 12 {
        'C'
    } else if d == 13 {
        'D'
    } else if d == 14 {
        'E'
    } else {
        'F'
    }
}

/// The escape of one byte: a percent sign and two hexadecimal digits.
pub open spec fn escaped_byte(b: u8) -> Seq<char> {
    seq!['%', hex_char(b / 16), hex_char(b % 16)]
}

/// What one byte becomes: its escape if it is outside ASCII or in the set,
/// else the byte itself.
pub open spec fn encoded_byte(b: u8, set: EncodeSet) -> Seq<char> {
    if b >= 128 || set.holds(b) {
        escaped_byte(b)
    } else {
        seq![b as char]
    }
}

/// The encodings of the bytes, one after the other.
pub open spec fn percent_encoded_bytes(bytes: Seq<u8>, set: EncodeSet) -> Seq<char>
    decreases bytes.len(),
{
    if bytes.len() == 0 {
        Seq::empty()
    } else {
        percent_encoded_bytes(bytes.drop_last(), set) + encoded_byte(bytes.last(), set)
    }
}

/// The percent-encoding of the UTF-8 form of a text.
pub open spec fn percent_encoded(text: Seq<char>, set: EncodeSet) -> Seq<char> {
    percent_encoded_bytes(encode_utf8(text), set)
}

/// `percent_encoding::percent_encode_byte` returns the three-character escape
/// of a byte, `%XX` with upper-case hexadecimal digits, for every byte.
pub assume_specification[ percent_encoding::percent_encode_byte ](byte: u8) -> (escaped:
    &'static str)
    ensures
        escaped@ == escaped_byte(byte),
;

/// Percent-encodes the UTF-8 form of `input` against `set`. The escapes are
/// those of `percent_encoding::percent_encode_byte`.
pub fn utf8_percent_encode(input: &str, set: EncodeSet) -> (encoded: String)
    ensures
        encoded@ == percent_encoded(input@, set),
{
    let bytes = input.as_bytes();
    let n: usize = bytes.len();
    let mut encoded = String::new();
    let mut i: usize = 0;
    while i < n
        invariant
            n == bytes@.len(),
            i <= n,
            bytes@ == encode_utf8(input@),
            encoded@ == percent_encoded_bytes(bytes@.subrange(0, i as int), set),
        decreases n - i,
    {
        let b: u8 = bytes[i];
        proof {
            let next = bytes@.subrange(0, i + 1);
            assert(next.drop_last() =~= bytes@.subrange(0, i as int));
            assert(next.last() == b);
        }
        let ghost before = encoded@;
        if b >= 128 || set.contains(b) {
            encoded.append(percent_encoding::percent_encode_byte(b));
        } else {
            push_char(&mut encoded, b as char);
            proof {
                assert(before.push(b as char) =~= before + seq![b as char]);
            }
        }
        i += 1;
    }
    proof {
        assert(bytes@.subrange(0, n as int) =~= bytes@);
    }
    encoded
}

/// Whether a character is one of the ASCII characters that `set` holds.
pub open spec fn is_reserved(c: char, set: EncodeSet) -> bool {
    (c as u32) < 128 && set.holds(c as u8)
}

/// Whether a character is one that the `UserInfo` set reserves.
pub open spec fn is_userinfo_reserved(c: char) -> bool {
    is_reserved(c, EncodeSet::UserInfo)
}

proof fn lemma_encoded_bytes_unreserved(bytes: Seq<u8>, set: EncodeSet)
    ensures
        forall|i: int|
            0 <= i < percent_encoded_bytes(bytes, set).len() ==> !is_reserved(
                #[trigger] percent_encoded_bytes(bytes, set)[i],
                set,
            ),
    decreases bytes.len(),
{
    if bytes.len() > 0 {
        lemma_encoded_bytes_unreserved(bytes.drop_last(), set);
        let b = bytes.last();
        let tail = encoded_byte(b, set);
        let head = percent_encoded_bytes(bytes.drop_last(), set);
        let all = percent_encoded_bytes(bytes, set);
        assert(all == head + tail);
        assert(forall|j: int| 0 <= j < tail.len() ==> !is_reserved(#[trigger] tail[j], set));
        assert forall|i: int| 0 <= i < all.len() implies !is_reserved(#[trigger] all[i], set) by {
            if i < head.len() {
                assert(all[i] == head[i]);
            } else {
                assert(all[i] == tail[i - head.len()]);
            }
        }
    }
}

/// Encoding against a set leaves no character of that set in the result:
/// every one of them has been replaced by its escape.
pub proof fn lemma_encoding_has_no_reserved(text: Seq<char>, set: EncodeSet)
    ensures
        forall|i: int|
            0 <= i < percent_encoded(text, set).len() ==> !is_reserved(
                #[trigger] percent_encoded(text, set)[i],
                set,
            ),
{
    lemma_encoded_bytes_unreserved(encode_utf8(text), set);
}

/// Encoding a resource address against the `UserInfo` set leaves none of
/// ``space " # < > ` ? { } / : ; = @ \ [ ] ^ |`` and no control character in
/// the result.
pub proof fn lemma_userinfo_encoding_has_no_reserved(text: Seq<char>)
    ensures
        forall|i: int|
            0 <= i < percent_encoded(text, EncodeSet::UserInfo).len() ==> !is_userinfo_reserved(
                #[trigger] percent_encoded(text, EncodeSet::UserInfo)[i],
            ),
{
    lemma_encoding_has_no_reserved(text, EncodeSet::UserInfo);
}

/// The signature field of a token holds none of `+`, `=` and `/`, so it
/// cannot be taken for a separator of the token's fields.
pub proof fn lemma_signature_encoding_has_no_separator(text: Seq<char>)
    ensures
        forall|i: int|
            0 <= i < percent_encoded(text, EncodeSet::Signature).len() ==> {
                let c = #[trigger] percent_encoded(text, EncodeSet::Signature)[i];
                c != '+' && c != '=' && c != '/'
            },
{
    lemma_encoding_has_no_reserved(text, EncodeSet::Signature);
    assert forall|i: int| 0 <= i < percent_encoded(text, EncodeSet::Signature).len() implies {
        let c = #[trigger] percent_encoded(text, EncodeSet::Signature)[i];
        c != '+' && c != '=' && c != '/'
    } by {
        let c = percent_encoded(text, EncodeSet::Signature)[i];
        assert(!is_reserved(c, EncodeSet::Signature));
        assert(('+' as u32) == 0x2B && ('=' as u32) == 0x3D && ('/' as u32) == 0x2F);
    }
}

} // verus!

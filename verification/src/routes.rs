use vstd::prelude::*;
use vstd::string::{StringExecFns, StringSliceAdditionalSpecFns};

verus! {

/// Path of the resource that describes the user: the assigned ASN and the
/// active prefix leases.
pub const USER_INFO_PATH: &'static str = "/api/user/info";

/// Path of the resource that takes requests for a prefix lease; the path
/// of one lease is this one, a slash, and the prefix as one segment.
pub const PREFIX_PATH: &'static str = "/api/user/prefix";

/// Whether a byte stands for itself in a path segment: an ASCII letter or
/// digit, `-`, `.`, `_` or `~`.
pub open spec fn is_unreserved(byte: u8) -> bool {
    ||| 0x30 <= byte <= 0x39
    ||| 0x41 <= byte <= 0x5a
    ||| 0x61 <= byte <= 0x7a
    ||| byte == 0x2d
    ||| byte == 0x2e
    ||| byte == 0x5f
    ||| byte == 0x7e
}

/// The upper-case hexadecimal digit for a value below sixteen.
pub open spec fn hex_digit(value: u8) -> char {
    if value < 10 {
        (0x30 + value) as u8 as char
    } else {
        (0x37 + value) as u8 as char
    }
}

/// One byte, percent-encoded: itself where it is unreserved, and else a
/// percent sign and its two hexadecimal digits.
pub open spec fn spec_encode_byte(byte: u8) -> Seq<char> {
    if is_unreserved(byte) {
        seq![byte as char]
    } else {
        seq!['%', hex_digit(byte / 16), hex_digit(byte % 16)]
    }
}

/// A sequence of bytes, percent-encoded byte by byte.
pub open spec fn spec_percent_encode(bytes: Seq<u8>) -> Seq<char>
    decreases bytes.len(),
{
    if bytes.len() == 0 {
        Seq::<char>::empty()
    } else {
        spec_encode_byte(bytes[0]) + spec_percent_encode(bytes.drop_first())
    }
}

/// `urlencoding::encode`, which percent-encodes every byte of the text's
/// UTF-8 form except ASCII letters and digits, `-`, `.`, `_` and `~`, with
/// upper-case hexadecimal digits. Trusted, not proved.
#[verifier::external_body]
fn percent_encode(text: &str) -> (encoded: String)
    ensures
        encoded@ == spec_percent_encode(text.spec_bytes()),
{
    urlencoding::encode(text).into_owned()
}

/// Path of the lease of `prefix`: [`PREFIX_PATH`], a slash, and `prefix`
/// percent-encoded, so that the slash of a prefix such as `2001:db8::/48`
/// does not split the segment.
pub fn prefix_revoke_path(prefix: &str) -> (path: String)
    ensures
        path@ == PREFIX_PATH@ + "/"@ + spec_percent_encode(prefix.spec_bytes()),
{
    let encoded = percent_encode(prefix);
    String::from_str(PREFIX_PATH).concat("/").concat(encoded.as_str())
}

/// Whether a character can stand in a percent-encoded text: the percent
/// sign, or an unreserved ASCII character, which the hexadecimal digits are.
pub open spec fn is_segment_char(c: char) -> bool {
    c == '%' || (c as u32 <= 0x7f && is_unreserved(c as u8))
}

/// A percent-encoded text is one path segment: it holds percent signs and
/// unreserved characters only, so no slash, question mark or hash; and it
/// has one to three characters for each byte.
pub proof fn lemma_encoding_is_one_segment(bytes: Seq<u8>)
    ensures
        forall|i: int|
            0 <= i < spec_percent_encode(bytes).len() ==> is_segment_char(
                #[trigger] spec_percent_encode(bytes)[i],
            ),
        !spec_percent_encode(bytes).contains('/'),
        !spec_percent_encode(bytes).contains('?'),
        !spec_percent_encode(bytes).contains('#'),
        bytes.len() <= spec_percent_encode(bytes).len() <= 3 * bytes.len(),
    decreases bytes.len(),
{
    let encoded = spec_percent_encode(bytes);
    if bytes.len() > 0 {
        let head = spec_encode_byte(bytes[0]);
        let tail = spec_percent_encode(bytes.drop_first());
        lemma_encoding_is_one_segment(bytes.drop_first());
        assert(encoded == head + tail);
        assert forall|i: int| 0 <= i < head.len() implies is_segment_char(#[trigger] head[i]) by {
            let byte = bytes[0];
            if !is_unreserved(byte) {
                assert(is_segment_char(hex_digit(byte / 16)));
                assert(is_segment_char(hex_digit(byte % 16)));
            }
        }
        assert forall|i: int| 0 <= i < encoded.len() implies is_segment_char(
            #[trigger] encoded[i],
        ) by {
            if i < head.len() {
                assert(encoded[i] == head[i]);
            } else {
                assert(encoded[i] == tail[i - head.len()]);
            }
        }
    }
    assert(!is_segment_char('/') && !is_segment_char('?') && !is_segment_char('#'));
}

} // verus!

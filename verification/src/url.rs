//! The address of a block, with the block's identifier percent-encoded.

use vstd::prelude::*;
use vstd::string::StringExecFns;
use vstd::utf8::encode_utf8;
use vstd::utf8::is_ascii_chars;
use vstd::utf8::is_ascii_chars_encode_utf8;

use crate::text::push_char;

verus! {

/// The address under which a block is found, up to the block's identifier.
pub const BLOCK_ENDPOINT: &'static str = "https://blockchain.info/rawblock/";

/// The bytes that may stand in a path segment as they are: letters, digits,
/// and `-`, `.`, `_`, `~`.
pub open spec fn is_unreserved(byte: u8) -> bool {
    ||| 0x41 <= byte <= 0x5a
    ||| 0x61 <= byte <= 0x7a
    ||| 0x30 <= byte <= 0x39
    ||| byte == 0x2d
    ||| byte == 0x2e
    ||| byte == 0x5f
    ||| byte == 0x7e
}

/// The upper-case hexadecimal digit for a value below sixteen.
pub open spec fn hex_digit(nibble: u8) -> char {
    if nibble < 10 {
        ((0x30 + nibble) as u8) as char
    } else {
        ((0x37 + nibble) as u8) as char
    }
}

/// One byte as it stands in a path segment: itself where it is unreserved,
/// and otherwise `%` with its two hexadecimal digits.
pub open spec fn escaped(byte: u8) -> Seq<char> {
    if is_unreserved(byte) {
        seq![byte as char]
    } else {
        seq!['%', hex_digit(byte / 16), hex_digit(byte % 16)]
    }
}

/// The percent-encoding of a sequence of bytes.
pub open spec fn percent_encoded(bytes: Seq<u8>) -> Seq<char>
    decreases bytes.len(),
{
    if bytes.len() == 0 {
        Seq::empty()
    } else {
        percent_encoded(bytes.drop_last()) + escaped(bytes.last())
    }
}

/// The address of the block `id`.
pub open spec fn block_address(id: Seq<char>) -> Seq<char> {
    BLOCK_ENDPOINT@ + percent_encoded(encode_utf8(id))
}

/// A character that may stand in a path segment as it is.
pub open spec fn is_unreserved_char(c: char) -> bool {
    '\0' <= c <= '\u{7f}' && is_unreserved(c as u8)
}

/// An identifier made of unreserved characters alone, such as a block's hash
/// or number.
pub open spec fn is_plain(id: Seq<char>) -> bool {
    forall|i: int| 0 <= i < id.len() ==> is_unreserved_char(#[trigger] id[i])
}

/// Unreserved bytes stand for themselves.
proof fn lemma_unreserved_bytes_kept(bytes: Seq<u8>)
    requires
        forall|i: int| 0 <= i < bytes.len() ==> is_unreserved(#[trigger] bytes[i]),
    ensures
        percent_encoded(bytes).len() == bytes.len(),
        forall|i: int|
            0 <= i < bytes.len() ==> #[trigger] percent_encoded(bytes)[i] == bytes[i] as char,
    decreases bytes.len(),
{
    if bytes.len() > 0 {
        lemma_unreserved_bytes_kept(bytes.drop_last());
        assert(is_unreserved(bytes.last()));
    }
}

/// A plain identifier goes into the address as it is.
pub proof fn lemma_plain_identifier_kept(id: Seq<char>)
    requires
        is_plain(id),
    ensures
        percent_encoded(encode_utf8(id)) == id,
        block_address(id) == BLOCK_ENDPOINT@ + id,
{
    assert(is_ascii_chars(id)) by {
        assert forall|i: int| 0 <= i < id.len() implies '\0' <= #[trigger] id[i] <= '\u{7f}' by {
            assert(is_unreserved_char(id[i]));
        }
    }
    is_ascii_chars_encode_utf8(id);
    let bytes = encode_utf8(id);
    assert forall|i: int| 0 <= i < bytes.len() implies is_unreserved(#[trigger] bytes[i]) by {
        assert(is_unreserved_char(id[i]));
        assert(bytes[i] == id[i] as u8);
    }
    lemma_unreserved_bytes_kept(bytes);
    assert forall|i: int| 0 <= i < id.len() implies percent_encoded(bytes)[i] == id[i] by {
        assert(is_unreserved_char(id[i]));
        assert(bytes[i] == id[i] as u8);
    }
    assert(percent_encoded(bytes) =~= id);
}

/// Whatever the bytes, their encoding holds unreserved characters and `%`
/// alone: nothing in it ends the path segment or starts a query.
pub proof fn lemma_encoded_stays_in_segment(bytes: Seq<u8>)
    ensures
        forall|i: int|
            0 <= i < percent_encoded(bytes).len() ==> {
                let c = #[trigger] percent_encoded(bytes)[i];
                c == '%' || is_unreserved_char(c)
            },
    decreases bytes.len(),
{
    if bytes.len() > 0 {
        lemma_encoded_stays_in_segment(bytes.drop_last());
        let front = percent_encoded(bytes.drop_last());
        let byte = bytes.last();
        let high = byte / 16;
        let low = byte % 16;
        assert(is_unreserved_char(hex_digit(high)));
        assert(is_unreserved_char(hex_digit(low)));
        assert forall|i: int| 0 <= i < percent_encoded(bytes).len() implies {
            let c = #[trigger] percent_encoded(bytes)[i];
            c == '%' || is_unreserved_char(c)
        } by {
            if i < front.len() {
                assert(percent_encoded(bytes)[i] == front[i]);
            } else {
                assert(percent_encoded(bytes)[i] == escaped(byte)[i - front.len()]);
            }
        }
    }
}

fn is_unreserved_byte(byte: u8) -> (unreserved: bool)
    ensures
        unreserved == is_unreserved(byte),
{
    (0x41 <= byte && byte <= 0x5a) || (0x61 <= byte && byte <= 0x7a) || (0x30 <= byte && byte
        <= 0x39) || byte == 0x2d || byte == 0x2e || byte == 0x5f || byte == 0x7e
}

fn hex_digit_of(nibble: u8) -> (digit: char)
    requires
        nibble < 16,
    ensures
        digit == hex_digit(nibble),
{
    if nibble < 10 {
        (0x30 + nibble) as char
    } else {
        (0x37 + nibble) as char
    }
}

/// Appends the percent-encoding of `segment` to `out`.
pub fn append_encoded(out: &mut String, segment: &str)
    ensures
        final(out)@ == old(out)@ + percent_encoded(encode_utf8(segment@)),
{
    let bytes = segment.as_bytes();
    let mut i: usize = 0;
    assert(bytes@.take(0) =~= Seq::<u8>::empty());
    assert(out@ =~= old(out)@ + percent_encoded(bytes@.take(0)));
    while i < bytes.len()
        invariant
            i <= bytes.len(),
            out@ == old(out)@ + percent_encoded(bytes@.take(i as int)),
        decreases bytes.len() - i,
    {
        let byte = bytes[i];
        let ghost before = out@;
        assert(bytes@.take(i + 1).drop_last() =~= bytes@.take(i as int));
        assert(bytes@.take(i + 1).last() == byte);
        if is_unreserved_byte(byte) {
            push_char(out, byte as char);
        } else {
            push_char(out, '%');
            push_char(out, hex_digit_of(byte / 16));
            push_char(out, hex_digit_of(byte % 16));
        }
        assert(out@ =~= before + escaped(byte));
        assert(out@ =~= old(out)@ + percent_encoded(bytes@.take(i + 1)));
        i += 1;
    }
    assert(bytes@.take(i as int) =~= bytes@);
}

/// The address of the block `id`. The identifier is percent-encoded, so that
/// whatever it holds stays within one path segment.
pub fn block_url(id: &str) -> (url: String)
    ensures
        url@ == block_address(id@),
{
    let mut url = String::from_str(BLOCK_ENDPOINT);
    append_encoded(&mut url, id);
    url
}

} // verus!

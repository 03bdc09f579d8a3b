//! The wire format: UTF-8 text lines, each ended by one line feed.

use vstd::prelude::*;
use vstd::string::*;
use vstd::utf8::*;

verus! {

/// The byte that ends a line on the wire.
pub const TERMINATOR_BYTE: u8 = 0x0A;

/// The character that ends a line.
pub open spec fn terminator() -> char {
    '\n'
}

/// True when `text` ends with the line terminator.
pub open spec fn is_terminated(text: Seq<char>) -> bool {
    text.len() > 0 && text.last() == terminator()
}

/// `text` as it is sent: unchanged when it already ends with the terminator,
/// otherwise with the terminator appended.
pub open spec fn framed(text: Seq<char>) -> Seq<char> {
    if is_terminated(text) {
        text
    } else {
        text.push(terminator())
    }
}

/// A received line as it is delivered: without its trailing terminator, if it has one.
pub open spec fn stripped(line: Seq<char>) -> Seq<char> {
    if is_terminated(line) {
        line.drop_last()
    } else {
        line
    }
}

/// The bytes that carry `text` on the wire.
pub open spec fn wire_form(text: Seq<char>) -> Seq<u8> {
    encode_utf8(framed(text))
}

/// The text that received bytes carry: what they decode to, without the trailing
/// terminator. Bytes that are not UTF-8 carry none.
pub open spec fn decoded(bytes: Seq<u8>) -> Option<Seq<char>> {
    if valid_utf8(bytes) {
        Some(stripped(decode_utf8(bytes)))
    } else {
        None
    }
}

/// Encoding distributes over concatenation.
pub proof fn lemma_encode_concat(a: Seq<char>, b: Seq<char>)
    ensures
        encode_utf8(a + b) == encode_utf8(a) + encode_utf8(b),
    decreases a.len(),
{
    if a.len() > 0 {
        lemma_encode_concat(a.drop_first(), b);
        assert((a + b).drop_first() =~= a.drop_first() + b);
    }
}

/// A text of one character is encoded as that character's scalar.
pub proof fn lemma_encode_single(c: char)
    ensures
        encode_utf8(seq![c]) == encode_scalar(c as u32),
{
    assert(encode_utf8(seq![c].drop_first()) =~= Seq::<u8>::empty());
}

/// The terminator is encoded as the single byte `TERMINATOR_BYTE`.
pub proof fn lemma_encode_terminator()
    ensures
        encode_utf8(seq![terminator()]) == seq![TERMINATOR_BYTE],
{
    lemma_encode_single(terminator());
    assert((0x0Au32 & 0x7F) as u8 == 0x0Au8) by (bit_vector);
}

/// The last byte of a scalar's encoding is the terminator byte exactly for the terminator.
proof fn lemma_scalar_last_byte(scalar: u32)
    requires
        is_scalar(scalar),
    ensures
        encode_scalar(scalar).len() > 0,
        encode_scalar(scalar).last() == TERMINATOR_BYTE <==> scalar == 0x0Au32,
{
    if has_width_1_encoding(scalar) {
        assert(leading_byte_width_1(scalar) == 0x0Au8 <==> scalar == 0x0Au32) by (bit_vector)
            requires
                has_width_1_encoding(scalar),
        ;
    } else {
        assert(last_continuation_byte(scalar) >= 0x80u8) by (bit_vector);
    }
}

/// A non-empty text ends with the terminator exactly when its encoding ends with
/// the terminator byte.
pub proof fn lemma_terminated_bytes(text: Seq<char>)
    requires
        text.len() > 0,
    ensures
        encode_utf8(text).len() > 0,
        encode_utf8(text).last() == TERMINATOR_BYTE <==> is_terminated(text),
{
    let head = text.drop_last();
    let tail = seq![text.last()];
    assert(text =~= head + tail);
    lemma_encode_concat(head, tail);
    lemma_encode_single(text.last());
    char_is_scalar(text.last());
    lemma_scalar_last_byte(text.last() as u32);
    char_u32_cast(text.last(), text.last() as u32);
    char_u32_cast(terminator(), 0x0Au32);
}

/// Idempotent termination. Framed text ends with the terminator. Text that already
/// ends with one is sent as it is, so no terminator is doubled; other text gets
/// exactly one. Framing twice is framing once, and a text with and without its
/// final terminator are framed alike.
pub proof fn law_terminated_exactly_once(text: Seq<char>)
    ensures
        is_terminated(framed(text)),
        is_terminated(text) ==> framed(text) == text,
        !is_terminated(text) ==> framed(text).drop_last() == text,
        framed(framed(text)) == framed(text),
        !is_terminated(text) ==> framed(text.push(terminator())) == framed(text),
{
}

/// The same on the wire. The bytes sent are the text's encoding, followed by the
/// terminator byte only where the text does not end with the terminator; they always
/// end with the terminator byte; and a text with and without its final terminator
/// give the same bytes.
pub proof fn law_wire_form_ends_once(text: Seq<char>)
    ensures
        wire_form(text) == if is_terminated(text) {
            encode_utf8(text)
        } else {
            encode_utf8(text).push(TERMINATOR_BYTE)
        },
        wire_form(text).len() > 0,
        wire_form(text).last() == TERMINATOR_BYTE,
        wire_form(framed(text)) == wire_form(text),
        !is_terminated(text) ==> wire_form(text.push(terminator())) == wire_form(text),
{
    law_terminated_exactly_once(text);
    lemma_terminated_bytes(framed(text));
    if !is_terminated(text) {
        lemma_encode_concat(text, seq![terminator()]);
        lemma_encode_terminator();
        assert(text.push(terminator()) =~= text + seq![terminator()]);
        assert(encode_utf8(text) + seq![TERMINATOR_BYTE] =~= encode_utf8(text).push(
            TERMINATOR_BYTE,
        ));
    }
}

/// Stripping undoes framing: a line that was sent with the terminator appended is
/// received as the text it was made from.
pub proof fn law_strip_undoes_terminator(text: Seq<char>)
    ensures
        stripped(text.push(terminator())) == text,
        !is_terminated(text) ==> stripped(framed(text)) == text,
        !is_terminated(text) ==> stripped(text) == text,
{
}

/// Round trip. Bytes that were made by framing a text decode to that text; where the
/// text ended with a terminator of its own, to the text without it.
pub proof fn law_decoding_undoes_encoding(text: Seq<char>)
    ensures
        decoded(wire_form(text)) == Some(stripped(framed(text))),
        !is_terminated(text) ==> decoded(wire_form(text)) == Some(text),
        decoded(encode_utf8(text.push(terminator()))) == Some(text),
{
    encode_utf8_valid_utf8(framed(text));
    encode_utf8_decode_utf8(framed(text));
    encode_utf8_valid_utf8(text.push(terminator()));
    encode_utf8_decode_utf8(text.push(terminator()));
    law_strip_undoes_terminator(text);
}

/// Tells whether `text` ends with the line terminator.
pub fn ends_with_terminator(text: &str) -> (b: bool)
    ensures
        b == is_terminated(text@),
{
    let bytes = text.as_bytes();
    let n: usize = bytes.len();
    proof {
        if text@.len() > 0 {
            lemma_terminated_bytes(text@);
        }
    }
    n > 0 && bytes[n - 1] == TERMINATOR_BYTE
}

/// Encodes `text` for the wire: its UTF-8 bytes, followed by the terminator byte
/// unless the text already ends with the terminator.
pub fn encode_line(text: &str) -> (bytes: Vec<u8>)
    ensures
        bytes@ == wire_form(text@),
{
    let mut bytes = text.as_bytes_vec();
    if !ends_with_terminator(text) {
        bytes.push(TERMINATOR_BYTE);
        proof {
            lemma_encode_concat(text@, seq![terminator()]);
            lemma_encode_terminator();
            assert(text@.push(terminator()) =~= text@ + seq![terminator()]);
        }
    }
    bytes
}

/// Removes the trailing terminator from a received line, if there is one.
pub fn strip_terminator(line: &str) -> (text: String)
    ensures
        text@ == stripped(line@),
{
    if ends_with_terminator(line) {
        let n: usize = line.as_bytes().len();
        proof {
            let bytes = line.spec_bytes();
            let body = line@.drop_last();
            lemma_terminated_bytes(line@);
            encode_utf8_valid_utf8(line@);
            is_char_boundary_iff_is_leading_byte(bytes, n - 1);
            assert(line@ =~= body + seq![terminator()]);
            lemma_encode_concat(body, seq![terminator()]);
            lemma_encode_terminator();
            assert(bytes.subrange(0, n - 1) =~= encode_utf8(body));
        }
        let (head, _) = line.split_at(n - 1);
        proof {
            encode_utf8_decode_utf8(head@);
            encode_utf8_decode_utf8(line@.drop_last());
        }
        head.to_owned()
    } else {
        line.to_owned()
    }
}

/// `String::from_utf8` of the standard library, which nothing here proves. It
/// returns the text whose UTF-8 encoding the bytes are, and none exactly when the
/// bytes are not valid UTF-8.
#[verifier::external_body]
fn text_of(bytes: Vec<u8>) -> (text: Option<String>)
    ensures
        match text {
            Some(text) => encode_utf8(text@) == bytes@,
            None => !valid_utf8(bytes@),
        },
{
    String::from_utf8(bytes).ok()
}

/// Decodes one received line: the text of the bytes without its trailing terminator,
/// or none when the bytes are not valid UTF-8.
pub fn decode_line(bytes: Vec<u8>) -> (text: Option<String>)
    ensures
        match text {
            Some(text) => decoded(bytes@) == Some(text@),
            None => decoded(bytes@) is None,
        },
{
    match text_of(bytes) {
        Some(line) => {
            proof {
                encode_utf8_valid_utf8(line@);
                encode_utf8_decode_utf8(line@);
            }
            Some(strip_terminator(line.as_str()))
        },
        None => None,
    }
}

} // verus!

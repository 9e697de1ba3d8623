//! Reading a relay's replies.

use vstd::prelude::*;

use vstd::utf8::{
    encode_scalar, encode_utf8, has_width_1_encoding, has_width_2_encoding, has_width_3_encoding,
    leading_byte_width_1, leading_byte_width_2, leading_byte_width_3, leading_byte_width_4,
};

verus! {

/// Whether a reply line is the last of its reply: its fourth byte is a space
/// (`250 OK`), where other lines of a multi-line reply have a dash (`250-SIZE`).
pub open spec fn ends_reply(line: Seq<char>) -> bool {
    encode_utf8(line).len() > 3 && encode_utf8(line)[3] == 32
}

/// Whether `line` is the last line of a reply.
pub fn is_last_line(line: &str) -> (r: bool)
    ensures
        r == ends_reply(line@),
{
    let bytes = line.as_bytes();
    bytes.len() > 3 && bytes[3] == 32u8
}

proof fn lemma_first_byte_space(s: Seq<char>)
    requires
        s.len() > 0,
    ensures
        encode_utf8(s).len() > 0,
        encode_utf8(s)[0] == 32 <==> s[0] == ' ',
{
    let v = s[0] as u32;
    vstd::utf8::char_is_scalar(s[0]);
    assert(encode_utf8(s) == encode_scalar(v) + encode_utf8(s.drop_first()));
    assert(encode_utf8(s)[0] == encode_scalar(v)[0]);
    vstd::utf8::char_u32_cast(s[0], v);
    assert((' ' as u32) == 32);
    if has_width_1_encoding(v) {
        assert(leading_byte_width_1(v) == 32 <==> v == 32) by (bit_vector)
            requires
                v <= 0x7f,
        ;
    } else if has_width_2_encoding(v) {
        assert(leading_byte_width_2(v) != 32) by (bit_vector);
    } else if has_width_3_encoding(v) {
        assert(leading_byte_width_3(v) != 32) by (bit_vector);
    } else {
        assert(leading_byte_width_4(v) != 32) by (bit_vector);
    }
}

proof fn lemma_ascii_first(c: char, rest: Seq<char>)
    requires
        (c as u32) < 128,
    ensures
        encode_utf8(seq![c] + rest) == seq![c as u8] + encode_utf8(rest),
{
    let s = seq![c] + rest;
    let v = c as u32;
    assert(s[0] == c);
    assert(s.drop_first() =~= rest);
    assert(leading_byte_width_1(v) == v as u8) by (bit_vector)
        requires
            v < 128,
    ;
    assert(encode_scalar(v) =~= seq![c as u8]);
}

/// Where a reply ends depends on the fourth byte alone, whatever the reply
/// code: a line of at least four bytes ends its reply exactly when its fourth
/// byte is a space.
pub proof fn lemma_ends_reply_fourth_byte(line: Seq<char>)
    requires
        encode_utf8(line).len() > 3,
    ensures
        ends_reply(line) <==> encode_utf8(line)[3] == 32,
{
}

/// A line that begins with a three-character ASCII code (`250`, `334`, `354`,
/// ...) ends its reply exactly when the next character is a space.
pub proof fn lemma_ends_reply_after_code(c0: char, c1: char, c2: char, rest: Seq<char>)
    requires
        (c0 as u32) < 128,
        (c1 as u32) < 128,
        (c2 as u32) < 128,
    ensures
        ends_reply(seq![c0, c1, c2] + rest) <==> rest.len() > 0 && rest[0] == ' ',
{
    lemma_ascii_first(c2, rest);
    lemma_ascii_first(c1, seq![c2] + rest);
    lemma_ascii_first(c0, seq![c1] + (seq![c2] + rest));
    assert(seq![c0, c1, c2] + rest =~= seq![c0] + (seq![c1] + (seq![c2] + rest)));
    let e = encode_utf8(seq![c0, c1, c2] + rest);
    assert(e =~= seq![c0 as u8, c1 as u8, c2 as u8] + encode_utf8(rest));
    if rest.len() > 0 {
        lemma_first_byte_space(rest);
        assert(e[3] == encode_utf8(rest)[0]);
    } else {
        assert(rest =~= Seq::<char>::empty());
        assert(encode_utf8(rest).len() == 0);
    }
}

} // verus!

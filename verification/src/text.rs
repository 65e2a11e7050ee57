//! Small operations on text and on its UTF-8 bytes that the protocol modules share.

use vstd::prelude::*;
use vstd::slice::slice_to_vec;
use vstd::string::*;
use vstd::utf8::*;

verus! {

/// The bytes of an ASCII text: one byte for each of its characters.
pub open spec fn ascii_bytes(text: Seq<char>) -> Seq<u8> {
    Seq::new(text.len(), |i: int| text[i] as u8)
}

/// The value of an optional text.
pub open spec fn optional_text(text: Option<String>) -> Option<Seq<char>> {
    match text {
        Some(text) => Some(text@),
        None => None,
    }
}

/// What is said of bytes that are not UTF-8: where the first malformed
/// sequence stands and how long it is, in the words of the standard
/// library's error.
pub uninterp spec fn utf8_error(bytes: Seq<u8>) -> Seq<char>;

/// What bytes come to when they are read as UTF-8: the text that they spell,
/// or what is said of them where they are not UTF-8.
pub open spec fn text_or_error(bytes: Seq<u8>) -> Result<Seq<char>, Seq<char>> {
    if valid_utf8(bytes) {
        Ok(decode_utf8(bytes))
    } else {
        Err(utf8_error(bytes))
    }
}

/// The value of a text that was read, or of the error in its place.
pub open spec fn read_view(read: Result<String, String>) -> Result<Seq<char>, Seq<char>> {
    match read {
        Ok(text) => Ok(text@),
        Err(cause) => Err(cause@),
    }
}

/// The text that `bytes` spell in UTF-8, or the text of the error where
/// they are not UTF-8.
///
/// Trusted: this is `String::from_utf8`. The contract says that it accepts
/// exactly the well-formed UTF-8 byte strings, that the text it returns is
/// the one those bytes encode, and that the words of its error depend on the
/// bytes alone.
#[verifier::external_body]
pub(crate) fn text_from_utf8(bytes: Vec<u8>) -> (text: Result<String, String>)
    ensures
        text is Ok <==> valid_utf8(bytes@),
        text matches Ok(decoded) ==> decoded@ == decode_utf8(bytes@),
        text matches Err(cause) ==> cause@ == utf8_error(bytes@),
{
    match String::from_utf8(bytes) {
        Ok(text) => Ok(text),
        Err(error) => Err(format!("{}", error)),
    }
}

/// The text that the bytes of a slice spell in UTF-8, or what is said of
/// them where they are not UTF-8.
pub fn read_text(bytes: &[u8]) -> (text: Result<String, String>)
    ensures
        read_view(text) == text_or_error(bytes@),
{
    text_from_utf8(slice_to_vec(bytes))
}

/// The text that the bytes of a slice spell in UTF-8, if they are UTF-8.
pub fn decode_text(bytes: &[u8]) -> (text: Option<String>)
    ensures
        text is Some <==> valid_utf8(bytes@),
        text matches Some(t) ==> t@ == decode_utf8(bytes@),
{
    match read_text(bytes) {
        Ok(text) => Some(text),
        Err(_) => None,
    }
}

/// The UTF-8 bytes of a text.
pub fn encode_text(text: &str) -> (bytes: Vec<u8>)
    ensures
        bytes@ == encode_utf8(text@),
{
    text.as_bytes_vec()
}

/// Whether `text` begins with `prefix`, character by character.
pub fn starts_with(text: &str, prefix: &str) -> (found: bool)
    ensures
        found == prefix@.is_prefix_of(text@),
{
    let text_len: usize = text.unicode_len();
    let prefix_len: usize = prefix.unicode_len();
    if text_len < prefix_len {
        return false;
    }
    let mut i: usize = 0;
    while i < prefix_len
        invariant
            text_len == text@.len(),
            prefix_len == prefix@.len(),
            prefix_len <= text_len,
            i <= prefix_len,
            forall|k: int| 0 <= k < i ==> text@[k] == prefix@[k],
        decreases prefix_len - i,
    {
        if text.get_char(i) != prefix.get_char(i) {
            assert(text@.subrange(0, prefix@.len() as int)[i as int] != prefix@[i as int]);
            return false;
        }
        i += 1;
    }
    assert(prefix@ =~= text@.subrange(0, prefix@.len() as int));
    true
}

/// Whether the two texts are the same.
pub fn same_text(left: &str, right: &str) -> (same: bool)
    ensures
        same == (left@ == right@),
{
    let same = starts_with(left, right) && starts_with(right, left);
    proof {
        if same {
            assert(left@ =~= right@);
        }
        if left@ == right@ {
            assert(left@ =~= right@.subrange(0, left@.len() as int));
        }
    }
    same
}

/// What is left of `text` after its first `count` characters; the empty text
/// where it has no more than `count`.
pub fn text_after(text: &str, count: usize) -> (rest: String)
    ensures
        count <= text@.len() ==> rest@ == text@.skip(count as int),
        count > text@.len() ==> rest@ == Seq::<char>::empty(),
{
    let text_len: usize = text.unicode_len();
    if count > text_len {
        return String::new();
    }
    let rest = String::from_str(text.substring_char(count, text_len));
    assert(text@.subrange(count as int, text_len as int) =~= text@.skip(count as int));
    rest
}

/// `first` followed by `second`.
pub fn join(first: &str, second: &str) -> (joined: String)
    ensures
        joined@ == first@ + second@,
{
    let mut joined = String::from_str(first);
    joined.append(second);
    joined
}

/// A text does not begin with a tag whose first character is not its own.
pub proof fn lemma_first_character_decides(tag: Seq<char>, text: Seq<char>)
    requires
        tag.len() > 0,
        text.len() == 0 || text[0] != tag[0],
    ensures
        !tag.is_prefix_of(text),
{
    if tag.is_prefix_of(text) {
        assert(text.subrange(0, tag.len() as int)[0] == tag[0]);
    }
}

/// The UTF-8 bytes of two texts, one after the other, are the bytes of the
/// first followed by the bytes of the second.
pub proof fn lemma_encode_utf8_concat(first: Seq<char>, second: Seq<char>)
    ensures
        encode_utf8(first + second) == encode_utf8(first) + encode_utf8(second),
    decreases first.len(),
{
    if first.len() == 0 {
        assert(first + second =~= second);
        assert(encode_utf8(first) + encode_utf8(second) =~= encode_utf8(second));
    } else {
        assert((first + second).drop_first() =~= first.drop_first() + second);
        lemma_encode_utf8_concat(first.drop_first(), second);
        assert(encode_utf8(first + second) =~= encode_utf8(first) + encode_utf8(second));
    }
}

/// Where a text begins with a tag, its UTF-8 bytes begin with the tag's
/// bytes.
pub proof fn lemma_prefix_of_text_is_prefix_of_bytes(tag: Seq<char>, text: Seq<char>)
    requires
        tag.is_prefix_of(text),
    ensures
        encode_utf8(tag).is_prefix_of(encode_utf8(text)),
{
    let rest = text.skip(tag.len() as int);
    assert(text =~= tag + rest);
    lemma_encode_utf8_concat(tag, rest);
    assert(encode_utf8(tag) =~= (encode_utf8(tag) + encode_utf8(rest)).subrange(
        0,
        encode_utf8(tag).len() as int,
    ));
}

/// The UTF-8 bytes of an ASCII text are its characters' codes.
pub proof fn lemma_ascii_text_bytes(text: Seq<char>)
    requires
        is_ascii_chars(text),
    ensures
        encode_utf8(text) == ascii_bytes(text),
{
    is_ascii_chars_encode_utf8(text);
    assert(encode_utf8(text) =~= ascii_bytes(text));
}

/// An ASCII byte at the head of UTF-8 bytes is a character of its own: what
/// follows it is UTF-8 too, and spells the rest of the text.
pub proof fn lemma_ascii_head(bytes: Seq<u8>)
    requires
        valid_utf8(bytes),
        bytes.len() > 0,
        bytes[0] <= 0x7f,
    ensures
        valid_utf8(bytes.skip(1)),
        decode_utf8(bytes) == seq![bytes[0] as char] + decode_utf8(bytes.skip(1)),
{
    let head = bytes[0];
    assert(is_leading_byte_width_1(head));
    assert(pop_first_scalar(bytes) =~= bytes.skip(1));
    assert(head & 0x7f == head) by (bit_vector)
        requires
            head <= 0x7f,
    ;
    assert(decode_first_scalar(bytes) == head as u32);
}

/// ASCII bytes at the head of UTF-8 bytes are characters of their own.
pub proof fn lemma_ascii_prefix(bytes: Seq<u8>, count: int)
    requires
        valid_utf8(bytes),
        0 <= count <= bytes.len(),
        forall|i: int| 0 <= i < count ==> bytes[i] <= 0x7f,
    ensures
        valid_utf8(bytes.skip(count)),
        decode_utf8(bytes) == Seq::new(count as nat, |i: int| bytes[i] as char) + decode_utf8(
            bytes.skip(count),
        ),
    decreases count,
{
    if count == 0 {
        assert(bytes.skip(0) =~= bytes);
        assert(Seq::new(0, |i: int| bytes[i] as char) + decode_utf8(bytes) =~= decode_utf8(
            bytes,
        ));
    } else {
        lemma_ascii_head(bytes);
        let rest = bytes.skip(1);
        assert forall|i: int| 0 <= i < count - 1 implies rest[i] <= 0x7f by {
            assert(rest[i] == bytes[i + 1]);
        }
        lemma_ascii_prefix(rest, count - 1);
        assert(rest.skip(count - 1) =~= bytes.skip(count));
        assert(Seq::new(count as nat, |i: int| bytes[i] as char) =~= seq![bytes[0] as char]
            + Seq::new((count - 1) as nat, |i: int| rest[i] as char));
    }
}

/// Where UTF-8 bytes begin with the bytes of an ASCII tag, the text begins
/// with the tag, and what follows the tag's bytes spells what follows the
/// tag.
pub proof fn lemma_prefix_of_bytes_is_prefix_of_text(tag: Seq<char>, bytes: Seq<u8>)
    requires
        is_ascii_chars(tag),
        valid_utf8(bytes),
        encode_utf8(tag).is_prefix_of(bytes),
    ensures
        tag.is_prefix_of(decode_utf8(bytes)),
        valid_utf8(bytes.skip(tag.len() as int)),
        decode_utf8(bytes).skip(tag.len() as int) == decode_utf8(bytes.skip(tag.len() as int)),
{
    lemma_ascii_text_bytes(tag);
    let count = tag.len() as int;
    let head = bytes.subrange(0, count);
    assert(head == ascii_bytes(tag));
    assert(count <= bytes.len());
    assert forall|i: int| 0 <= i < count implies #[trigger] bytes[i] <= 0x7f by {
        assert(bytes[i] == head[i]);
        assert(head[i] == tag[i] as u8);
        assert('\0' <= tag[i] <= '\u{7f}');
    }
    lemma_ascii_prefix(bytes, count);
    let spelled = Seq::new(count as nat, |i: int| bytes[i] as char);
    assert forall|i: int| 0 <= i < count implies #[trigger] spelled[i] == tag[i] by {
        assert(bytes[i] == head[i]);
        assert(head[i] == tag[i] as u8);
        assert('\0' <= tag[i] <= '\u{7f}');
    }
    assert(spelled =~= tag);
    let text = decode_utf8(bytes);
    assert(text.subrange(0, count) =~= tag);
    assert(text.skip(count) =~= decode_utf8(bytes.skip(count)));
}

} // verus!

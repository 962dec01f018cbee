//! Text at the native boundary.
//!
//! Outbound text travels as a run of non-zero bytes closed by a single NUL;
//! [`CText`] owns such a run. Inbound text arrives as raw bytes that end at
//! the first NUL and may not be valid UTF-8; [`decode_text`] turns them into
//! an owned string.

use vstd::prelude::*;
use vstd::slice::{slice_subrange, slice_to_vec};
use vstd::utf8::{
    char_is_scalar, char_u32_cast, decode_utf8, encode_scalar, encode_utf8, is_scalar, valid_utf8,
};

verus! {

/// Most bytes that a status line, a tooltip, a party id or a secret may hold.
pub const TEXT_LIMIT: usize = 128;

/// Most bytes that an image key may hold.
pub const KEY_LIMIT: usize = 32;

/// The bytes that `chars` travels as: its UTF-8 encoding, or `None` where
/// it holds a NUL character and so cannot be closed by one.
pub open spec fn c_text(chars: Seq<char>) -> Option<Seq<u8>> {
    if chars.contains('\0') {
        None
    } else {
        Some(encode_utf8(chars))
    }
}

/// The encoding of a scalar value holds a zero byte only where the value
/// itself is zero.
proof fn zero_byte_iff_zero_scalar(scalar: u32)
    requires
        is_scalar(scalar),
    ensures
        encode_scalar(scalar).contains(0u8) <==> scalar == 0,
{
    let bytes = encode_scalar(scalar);
    assert(scalar <= 0x7F ==> (((scalar & 0x7F) as u8 == 0u8) <==> scalar == 0)) by (bit_vector);
    assert((0xC0 | ((scalar >> 6) & 0x1F) as u8) != 0u8) by (bit_vector);
    assert((0xE0 | ((scalar >> 12) & 0x0F) as u8) != 0u8) by (bit_vector);
    assert((0xF0 | ((scalar >> 18) & 0x7) as u8) != 0u8) by (bit_vector);
    assert((0x80 | (scalar & 0x3F) as u8) != 0u8) by (bit_vector);
    assert((0x80 | ((scalar >> 6) & 0x3F) as u8) != 0u8) by (bit_vector);
    assert((0x80 | ((scalar >> 12) & 0x3F) as u8) != 0u8) by (bit_vector);
    if scalar == 0 {
        assert(bytes[0] == 0u8);
    } else {
        assert forall|i: int| 0 <= i < bytes.len() implies bytes[i] != 0u8 by {}
    }
}

/// Text holds a zero byte exactly where it holds a NUL character.
pub proof fn nul_byte_iff_nul_char(chars: Seq<char>)
    ensures
        encode_utf8(chars).contains(0u8) <==> chars.contains('\0'),
    decreases chars.len(),
{
    if chars.len() > 0 {
        let head = encode_scalar(chars[0] as u32);
        let rest = chars.drop_first();
        let tail = encode_utf8(rest);
        char_is_scalar(chars[0]);
        zero_byte_iff_zero_scalar(chars[0] as u32);
        nul_byte_iff_nul_char(rest);
        assert(encode_utf8(chars) == head + tail);
        if head.contains(0u8) {
            let i = choose|i: int| 0 <= i < head.len() && head[i] == 0u8;
            assert((head + tail)[i] == 0u8);
            char_u32_cast(chars[0], 0u32);
            assert(chars[0] == '\0');
        }
        if tail.contains(0u8) {
            let i = choose|i: int| 0 <= i < tail.len() && tail[i] == 0u8;
            assert((head + tail)[head.len() + i] == 0u8);
            let k = choose|k: int| 0 <= k < rest.len() && rest[k] == '\0';
            assert(chars[k + 1] == '\0');
        }
        if chars.contains('\0') {
            let k = choose|k: int| 0 <= k < chars.len() && chars[k] == '\0';
            if k > 0 {
                assert(rest[k - 1] == '\0');
            }
        }
        if (head + tail).contains(0u8) {
            let i = choose|i: int| 0 <= i < (head + tail).len() && (head + tail)[i] == 0u8;
            if i < head.len() {
                assert(head[i] == 0u8);
            } else {
                assert(tail[i - head.len()] == 0u8);
            }
        }
    }
}

/// Whether `text` holds a NUL character.
pub fn has_nul(text: &str) -> (b: bool)
    ensures
        b == text@.contains('\0'),
{
    let bytes = text.as_bytes();
    let n = bytes.len();
    let mut i: usize = 0;
    while i < n
        invariant
            n == bytes@.len(),
            bytes@ == encode_utf8(text@),
            i <= n,
            forall|j: int| 0 <= j < i ==> bytes@[j] != 0u8,
        decreases n - i,
    {
        if bytes[i] == 0u8 {
            proof {
                assert(bytes@[i as int] == 0u8);
                nul_byte_iff_nul_char(text@);
            }
            return true;
        }
        i += 1;
    }
    proof {
        nul_byte_iff_nul_char(text@);
    }
    false
}

/// The bytes that a presence field set from `chars` holds under a ceiling of
/// `limit` bytes: the whole encoding, or nothing at all.
pub open spec fn bounded_text(chars: Seq<char>, limit: nat) -> Option<Seq<u8>> {
    let bytes = encode_utf8(chars);
    if 0 < bytes.len() <= limit {
        c_text(chars)
    } else {
        None
    }
}

/// What holds of the content of every presence field with a ceiling of
/// `limit` bytes.
pub open spec fn within_limit(content: Seq<u8>, limit: nat) -> bool {
    0 < content.len() <= limit && !content.contains(0u8)
}

/// Text that is empty or longer than the ceiling leaves its field unset,
/// and so does text with a NUL in it. Text that is kept is kept whole, byte
/// for byte: a field never holds a shortened or altered value.
pub proof fn bounded_text_is_all_or_nothing(chars: Seq<char>, limit: nat)
    ensures
        encode_utf8(chars).len() == 0 || encode_utf8(chars).len() > limit ==> bounded_text(
            chars,
            limit,
        ) is None,
        chars.contains('\0') ==> bounded_text(chars, limit) is None,
        bounded_text(chars, limit) is Some ==> {
            &&& bounded_text(chars, limit) == Some(encode_utf8(chars))
            &&& within_limit(encode_utf8(chars), limit)
        },
        bounded_text(chars, limit) is None ==> !within_limit(encode_utf8(chars), limit),
{
    nul_byte_iff_nul_char(chars);
}

/// An owned run of non-zero bytes, stored with its closing NUL.
#[derive(Debug, Clone, PartialEq, Eq)]
pub struct CText {
    bytes: Vec<u8>,
}

/// The content of an optional text.
pub open spec fn content_of(text: Option<CText>) -> Option<Seq<u8>> {
    match text {
        Some(t) => Some(t@),
        None => None,
    }
}

/// The bytes handed to the native side for an optional text: the content
/// and its closing NUL.
pub open spec fn terminated(content: Option<Seq<u8>>) -> Option<Seq<u8>> {
    match content {
        Some(c) => Some(c.push(0u8)),
        None => None,
    }
}

impl View for CText {
    type V = Seq<u8>;

    /// The content, without the closing NUL.
    closed spec fn view(&self) -> Seq<u8> {
        self.bytes@.drop_last()
    }
}

impl CText {
    /// The stored bytes are the content, free of NUL, and one closing NUL.
    pub closed spec fn wf(&self) -> bool {
        &&& self.bytes@.len() >= 1
        &&& self.bytes@.last() == 0u8
        &&& !self.bytes@.drop_last().contains(0u8)
    }

    /// A well-formed text has no NUL in its content.
    pub proof fn content_is_nul_free(&self)
        requires
            self.wf(),
        ensures
            !self@.contains(0u8),
    {
    }

    /// Copies `text` and closes it with a NUL; `None` where `text` itself
    /// holds a NUL.
    pub fn new(text: &str) -> (r: Option<CText>)
        ensures
            content_of(r) == c_text(text@),
            r is Some ==> r->Some_0.wf(),
    {
        if has_nul(text) {
            return None;
        }
        let bytes = text.as_bytes();
        let mut stored = slice_to_vec(bytes);
        stored.push(0u8);
        let r = CText { bytes: stored };
        proof {
            assert(r.bytes@.drop_last() =~= bytes@);
            nul_byte_iff_nul_char(text@);
        }
        Some(r)
    }

    /// Copies `text` for a presence field with a ceiling of `limit` bytes;
    /// `None` where `text` is empty, longer than `limit` or holds a NUL.
    pub fn bounded(text: &str, limit: usize) -> (r: Option<CText>)
        ensures
            content_of(r) == bounded_text(text@, limit as nat),
            r is Some ==> r->Some_0.wf() && within_limit(r->Some_0@, limit as nat),
    {
        let n = text.as_bytes().len();
        if n == 0 || n > limit {
            None
        } else {
            let r = CText::new(text);
            proof {
                if r is Some {
                    r->Some_0.content_is_nul_free();
                }
            }
            r
        }
    }

    /// The content, without the closing NUL.
    pub fn as_bytes(&self) -> (r: &[u8])
        requires
            self.wf(),
        ensures
            r@ == self@,
    {
        let all = self.bytes.as_slice();
        slice_subrange(all, 0, all.len() - 1)
    }

    /// The content and its closing NUL, as the native side reads it.
    pub fn as_bytes_with_nul(&self) -> (r: &[u8])
        requires
            self.wf(),
        ensures
            r@ == self@.push(0u8),
    {
        proof {
            assert(self.bytes@ =~= self.bytes@.drop_last().push(0u8));
        }
        self.bytes.as_slice()
    }
}

/// The first index at or after `from` where `raw` holds a NUL, or the length
/// of `raw` where it holds none.
pub open spec fn nul_position(raw: Seq<u8>, from: int) -> int
    decreases raw.len() - from,
{
    if 0 <= from < raw.len() && raw[from] != 0u8 {
        nul_position(raw, from + 1)
    } else {
        from
    }
}

/// The bytes of `raw` before its first NUL: what a reader of NUL-closed
/// text takes `raw` to hold.
pub open spec fn before_nul(raw: Seq<u8>) -> Seq<u8> {
    raw.take(nul_position(raw, 0))
}

/// `nul_position` stops inside `raw`, at the first NUL or at the end, and
/// passes over no NUL on its way.
pub proof fn nul_position_is_first(raw: Seq<u8>, from: int)
    requires
        0 <= from <= raw.len(),
    ensures
        from <= nul_position(raw, from) <= raw.len(),
        forall|j: int| from <= j < nul_position(raw, from) ==> raw[j] != 0u8,
        nul_position(raw, from) < raw.len() ==> raw[nul_position(raw, from)] == 0u8,
    decreases raw.len() - from,
{
    if from < raw.len() && raw[from] != 0u8 {
        nul_position_is_first(raw, from + 1);
    }
}

/// Bytes without a NUL are read whole.
pub proof fn before_nul_of_nul_free(raw: Seq<u8>)
    requires
        !raw.contains(0u8),
    ensures
        before_nul(raw) == raw,
{
    nul_position_is_first(raw, 0);
    let n = nul_position(raw, 0);
    if n < raw.len() {
        assert(raw.contains(raw[n]));
    }
    assert(raw.take(n) =~= raw);
}

/// The text that `String::from_utf8_lossy` makes of `bytes`.
pub uninterp spec fn utf8_lossy(bytes: Seq<u8>) -> Seq<char>;

/// The text that inbound bytes are read as: the bytes before the first NUL,
/// decoded with repair.
pub open spec fn lossy_text(raw: Seq<u8>) -> Seq<char> {
    utf8_lossy(before_nul(raw))
}

/// Calls `String::from_utf8_lossy` and takes ownership of what it returns.
/// The result is a function of the bytes alone; where they are valid UTF-8
/// it is the text they encode, anything else is repaired by the standard
/// library and not described here.
#[verifier::external_body]
fn from_utf8_lossy(bytes: &[u8]) -> (text: String)
    ensures
        text@ == utf8_lossy(bytes@),
        valid_utf8(bytes@) ==> text@ == decode_utf8(bytes@),
{
    String::from_utf8_lossy(bytes).into_owned()
}

/// The part of `raw` before its first NUL.
pub fn until_nul(raw: &[u8]) -> (r: &[u8])
    ensures
        r@ == before_nul(raw@),
{
    let n = raw.len();
    let mut i: usize = 0;
    while i < n && raw[i] != 0u8
        invariant
            n == raw@.len(),
            i <= n,
            nul_position(raw@, 0) == nul_position(raw@, i as int),
        decreases n - i,
    {
        i += 1;
    }
    slice_subrange(raw, 0, i)
}

/// Reads inbound text: stops at the first NUL and decodes what stands
/// before it, repairing invalid UTF-8 instead of failing.
pub fn decode_text(raw: &[u8]) -> (text: String)
    ensures
        text@ == lossy_text(raw@),
        valid_utf8(before_nul(raw@)) ==> text@ == decode_utf8(before_nul(raw@)),
{
    from_utf8_lossy(until_nul(raw))
}

} // verus!

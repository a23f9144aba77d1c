//! Characters and their UTF-8 bytes: encoding what is written to the
//! terminal, decoding what is read from it.

use vstd::prelude::*;
use vstd::utf8::*;

verus! {

/// Why a character could not be read.
#[derive(Debug, Copy, Clone, PartialEq, Eq, Structural)]
pub enum CharStreamError {
    /// The bytes are not the UTF-8 encoding of a character.
    NotUtf8,
    /// Reading the bytes failed with this system error number.
    Other(i32),
}

impl CharStreamError {
    /// What went wrong, in words.
    pub fn description(&self) -> (d: &'static str)
        ensures
            d == match *self {
                CharStreamError::NotUtf8 => "invalid utf8 encoding",
                CharStreamError::Other(_) => "internal io error",
            },
    {
        match *self {
            CharStreamError::NotUtf8 => "invalid utf8 encoding",
            CharStreamError::Other(_) => "internal io error",
        }
    }
}

/// How many bytes the UTF-8 encoding of a character takes, going by its
/// first byte; `0` for a byte that begins no encoding.
pub open spec fn spec_utf8_char_width(b: u8) -> nat {
    if b <= 0x7F {
        1
    } else if b < 0xC2 {
        0
    } else if b <= 0xDF {
        2
    } else if b <= 0xEF {
        3
    } else if b <= 0xF4 {
        4
    } else {
        0
    }
}

/// How many bytes the UTF-8 encoding of a character takes, going by its
/// first byte; `0` for a byte that begins no encoding.
pub fn utf8_char_width(b: u8) -> (w: usize)
    ensures
        w == spec_utf8_char_width(b),
        w <= 4,
{
    if b <= 0x7F {
        1
    } else if b < 0xC2 {
        0
    } else if b <= 0xDF {
        2
    } else if b <= 0xEF {
        3
    } else if b <= 0xF4 {
        4
    } else {
        0
    }
}

/// Calls `char::from_u32`, which gives the character with the given scalar
/// value, and `None` for a number that is no Unicode scalar value: a
/// surrogate, or a number above `0x10FFFF`.
#[verifier::external_body]
fn char_from_u32(v: u32) -> (c: Option<char>)
    ensures
        c == if is_scalar(v) {
            Some(v as char)
        } else {
            None::<char>
        },
{
    char::from_u32(v)
}

/// Appends the UTF-8 encoding of a character to a byte buffer.
pub fn push_char(buf: &mut Vec<u8>, c: char)
    ensures
        final(buf)@ == old(buf)@ + encode_scalar(c as u32),
{
    let v: u32 = c as u32;
    proof {
        char_is_scalar(c);
    }
    let ghost before = buf@;
    if v <= 0x7F {
        assert((v & 0x7F) < 256) by (bit_vector);
        buf.push((v & 0x7F) as u8);
        assert(buf@ =~= before + encode_scalar(v));
    } else if v <= 0x7FF {
        assert(((v >> 6) & 0x1F) < 256 && (v & 0x3F) < 256) by (bit_vector);
        buf.push(0xC0 | ((v >> 6) & 0x1F) as u8);
        buf.push(0x80 | (v & 0x3F) as u8);
        assert(buf@ =~= before + encode_scalar(v));
    } else if v <= 0xFFFF {
        assert(((v >> 12) & 0x0F) < 256 && ((v >> 6) & 0x3F) < 256 && (v & 0x3F) < 256)
            by (bit_vector);
        buf.push(0xE0 | ((v >> 12) & 0x0F) as u8);
        buf.push(0x80 | ((v >> 6) & 0x3F) as u8);
        buf.push(0x80 | (v & 0x3F) as u8);
        assert(buf@ =~= before + encode_scalar(v));
    } else {
        assert(((v >> 18) & 0x7) < 256 && ((v >> 12) & 0x3F) < 256 && ((v >> 6) & 0x3F) < 256 && (v
            & 0x3F) < 256) by (bit_vector);
        buf.push(0xF0 | ((v >> 18) & 0x7) as u8);
        buf.push(0x80 | ((v >> 12) & 0x3F) as u8);
        buf.push(0x80 | ((v >> 6) & 0x3F) as u8);
        buf.push(0x80 | (v & 0x3F) as u8);
        assert(buf@ =~= before + encode_scalar(v));
    }
}

/// What reading one character from the front of a byte sequence gives, and
/// how many bytes it takes up: nothing at the end of the bytes; the
/// character, where the bytes begin with the encoding of one; else an
/// error. A byte that begins no encoding is taken alone, an encoding that
/// the bytes cut short takes all that is left, and a malformed encoding
/// takes as many bytes as its first byte announces.
pub open spec fn spec_next_char(bytes: Seq<u8>) -> Option<(Result<char, CharStreamError>, int)> {
    if bytes.len() == 0 {
        None
    } else {
        let w = spec_utf8_char_width(bytes[0]) as int;
        if w == 1 {
            Some((Ok(bytes[0] as char), 1))
        } else if w == 0 {
            Some((Err(CharStreamError::NotUtf8), 1))
        } else if bytes.len() < w {
            Some((Err(CharStreamError::NotUtf8), bytes.len() as int))
        } else if valid_first_scalar(bytes.subrange(0, w)) {
            Some((Ok(decode_first_scalar(bytes.subrange(0, w)) as char), w))
        } else {
            Some((Err(CharStreamError::NotUtf8), w))
        }
    }
}

fn is_continuation(b: u8) -> (r: bool)
    ensures
        r == is_continuation_byte(b),
{
    0x80 <= b && b <= 0xBF
}

/// Decodes the character whose encoding of `width` bytes begins at `pos`,
/// where `width` is what the first byte announces and is more than one.
/// Gives `None` where the bytes are no well-formed encoding.
fn decode_wide(bytes: &Vec<u8>, pos: usize, width: usize) -> (r: Option<char>)
    requires
        pos + width <= bytes.len(),
        width == spec_utf8_char_width(bytes[pos as int]),
        2 <= width <= 4,
    ensures
        r == if valid_first_scalar(bytes@.subrange(pos as int, pos + width)) {
            Some(decode_first_scalar(bytes@.subrange(pos as int, pos + width)) as char)
        } else {
            None::<char>
        },
{
    let ghost sub = bytes@.subrange(pos as int, pos + width);
    let b0 = bytes[pos];
    let b1 = bytes[pos + 1];
    assert(sub[0] == b0 && sub[1] == b1);
    if width == 2 {
        if !is_continuation(b1) {
            return None;
        }
        let cp: u32 = (((b0 & 0x1F) as u32) << 6) | ((b1 & 0x3F) as u32);
        assert(cp == codepoint_width_2(b0, b1));
        assert(cp <= 0x7FF) by (bit_vector)
            requires
                cp == (((b0 & 0x1F) as u32) << 6) | ((b1 & 0x3F) as u32),
        ;
        if cp < 0x80 {
            return None;
        }
        char_from_u32(cp)
    } else if width == 3 {
        let b2 = bytes[pos + 2];
        assert(sub[2] == b2);
        if !is_continuation(b1) || !is_continuation(b2) {
            return None;
        }
        let cp: u32 = (((b0 & 0x0F) as u32) << 12) | (((b1 & 0x3F) as u32) << 6) | ((b2
            & 0x3F) as u32);
        assert(cp == codepoint_width_3(b0, b1, b2));
        assert(cp <= 0xFFFF) by (bit_vector)
            requires
                cp == (((b0 & 0x0F) as u32) << 12) | (((b1 & 0x3F) as u32) << 6) | ((b2
                    & 0x3F) as u32),
        ;
        if cp < 0x800 || (0xD800 <= cp && cp <= 0xDFFF) {
            return None;
        }
        char_from_u32(cp)
    } else {
        let b2 = bytes[pos + 2];
        let b3 = bytes[pos + 3];
        assert(sub[2] == b2 && sub[3] == b3);
        if !is_continuation(b1) || !is_continuation(b2) || !is_continuation(b3) {
            return None;
        }
        let cp: u32 = (((b0 & 0x07) as u32) << 18) | (((b1 & 0x3F) as u32) << 12) | (((b2
            & 0x3F) as u32) << 6) | ((b3 & 0x3F) as u32);
        assert(cp == codepoint_width_4(b0, b1, b2, b3));
        if cp < 0x10000 || cp > 0x10FFFF {
            return None;
        }
        char_from_u32(cp)
    }
}

/// Reads one character from `bytes`, beginning at `pos`. Gives what was
/// read and the position after it.
pub fn next_char(bytes: &Vec<u8>, pos: usize) -> (r: Option<(Result<char, CharStreamError>, usize)>)
    requires
        pos <= bytes.len(),
    ensures
        match r {
            Some((c, next)) => {
                &&& pos < next <= bytes.len()
                &&& spec_next_char(bytes@.skip(pos as int)) == Some((c, next - pos))
            },
            None => spec_next_char(bytes@.skip(pos as int)) is None,
        },
{
    let ghost rest = bytes@.skip(pos as int);
    if pos >= bytes.len() {
        return None;
    }
    let first = bytes[pos];
    assert(rest[0] == first);
    let width = utf8_char_width(first);
    if width == 1 {
        return Some((Ok(first as char), pos + 1));
    }
    if width == 0 {
        return Some((Err(CharStreamError::NotUtf8), pos + 1));
    }
    if bytes.len() - pos < width {
        return Some((Err(CharStreamError::NotUtf8), bytes.len()));
    }
    assert(rest.subrange(0, width as int) =~= bytes@.subrange(pos as int, pos + width));
    match decode_wide(bytes, pos, width) {
        Some(c) => Some((Ok(c), pos + width)),
        None => Some((Err(CharStreamError::NotUtf8), pos + width)),
    }
}

/// A stream of characters over bytes that were read from a terminal.
#[derive(Debug)]
pub struct CharStream {
    inner: Vec<u8>,
    pos: usize,
}

impl CharStream {
    #[verifier::type_invariant]
    closed spec fn inv(self) -> bool {
        self.pos <= self.inner@.len()
    }

    /// The bytes that have not been read yet.
    pub closed spec fn remaining(&self) -> Seq<u8> {
        self.inner@.skip(self.pos as int)
    }

    /// A stream over the given bytes.
    pub fn from_reader(r: Vec<u8>) -> (s: CharStream)
        ensures
            s.remaining() == r@,
    {
        assert(r@.skip(0) =~= r@);
        CharStream { inner: r, pos: 0 }
    }

    /// Reads the next character: `None` at the end of the bytes, else the
    /// character or the error that `spec_next_char` describes, with the
    /// bytes it took up gone from the stream.
    pub fn next(&mut self) -> (r: Option<Result<char, CharStreamError>>)
        ensures
            match spec_next_char(old(self).remaining()) {
                Some((c, n)) => r == Some(c) && final(self).remaining() == old(self).remaining().skip(
                    n,
                ),
                None => r.is_none() && final(self).remaining() == old(self).remaining(),
            },
    {
        proof {
            use_type_invariant(&*self);
        }
        match next_char(&self.inner, self.pos) {
            Some((c, next)) => {
                assert(self.inner@.skip(self.pos as int).skip(next - self.pos) =~= self.inner@.skip(
                    next as int,
                ));
                self.pos = next;
                Some(c)
            },
            None => None,
        }
    }
}

} // verus!

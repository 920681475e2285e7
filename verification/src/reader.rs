//! A forward-only reader over the bytes of an image, and the reading of
//! tokens from it.

use vstd::prelude::*;
use vstd::slice::{slice_subrange, slice_to_vec};
use crate::error::{FormatReason, ImageError, ImageResult};
use crate::token::{
    all_ascii, is_ascii, line_end, parse_decimal, parse_u32, scan_line, scan_token, token_end,
    token_text,
};

verus! {

/// The bytes of an input together with the number of them that were read.
/// Reading only ever moves forward.
#[derive(Debug)]
pub struct ByteReader {
    data: Vec<u8>,
    pos: usize,
}

/// The two bytes at `pos`, where the input has them.
pub open spec fn magic_at(s: Seq<u8>, pos: int) -> (ImageResult<(u8, u8)>, int) {
    if pos + 2 <= s.len() {
        (Ok((s[pos], s[pos + 1])), pos + 2)
    } else {
        (Err(ImageError::NotEnoughData), s.len() as int)
    }
}

/// The byte at `pos`, where the input has one.
pub open spec fn byte_at(s: Seq<u8>, pos: int) -> (Option<u8>, int) {
    if 0 <= pos < s.len() {
        (Some(s[pos]), pos + 1)
    } else {
        (None, pos)
    }
}

/// The `count` bytes at `pos`, where the input has them. A read that asks
/// for more than is left takes what is left and yields nothing.
pub open spec fn exact_at(s: Seq<u8>, pos: int, count: int) -> (Option<Seq<u8>>, int) {
    if pos + count <= s.len() {
        (Some(s.subrange(pos, pos + count)), pos + count)
    } else {
        (None, s.len() as int)
    }
}

/// A token as a header takes it: not empty, and of bytes below 128.
pub open spec fn checked_token(t: Seq<u8>) -> ImageResult<Seq<u8>> {
    if t.len() == 0 {
        Err(ImageError::FormatError(FormatReason::UnexpectedEof))
    } else if !all_ascii(t) {
        Err(ImageError::FormatError(FormatReason::NonAsciiToken))
    } else {
        Ok(t)
    }
}

/// The number that the token at `pos` writes, and where the scan for it
/// leaves off.
pub open spec fn u32_at(s: Seq<u8>, pos: int) -> (ImageResult<u32>, int) {
    let value = match checked_token(token_text(s, pos)) {
        Err(e) => Err(e),
        Ok(t) => match parse_decimal(t) {
            Some(v) => Ok(v),
            None => Err(ImageError::FormatError(FormatReason::InvalidNumber)),
        },
    };
    (value, token_end(s, pos))
}

impl ByteReader {
    /// No more bytes were read than the input has.
    #[verifier::type_invariant]
    spec fn in_bounds(self) -> bool {
        self.pos <= self.data@.len()
    }

    /// All bytes of the input, read or not.
    pub closed spec fn bytes(&self) -> Seq<u8> {
        self.data@
    }

    /// The number of bytes that were read.
    pub closed spec fn pos(&self) -> int {
        self.pos as int
    }

    /// The bytes that are still to be read.
    pub open spec fn rest(&self) -> Seq<u8> {
        self.bytes().skip(self.pos())
    }

    /// A reader at the start of `data`.
    pub fn new(data: Vec<u8>) -> (r: ByteReader)
        ensures
            r.bytes() == data@,
            r.pos() == 0,
    {
        ByteReader { data, pos: 0 }
    }

    /// The number of bytes that were read.
    pub fn position(&self) -> (r: usize)
        ensures
            r == self.pos(),
            r <= self.bytes().len(),
    {
        proof {
            use_type_invariant(self);
        }
        self.pos
    }

    /// All bytes of the input, read or not.
    pub fn get_ref(&self) -> (r: &[u8])
        ensures
            r@ == self.bytes(),
    {
        self.data.as_slice()
    }

    /// The bytes that are still to be read.
    pub fn remaining(&self) -> (r: &[u8])
        ensures
            r@ == self.rest(),
    {
        proof {
            use_type_invariant(self);
        }
        let r = slice_subrange(self.data.as_slice(), self.pos, self.data.len());
        assert(r@ =~= self.rest());
        r
    }

    /// The number of bytes that are still to be read.
    pub fn remaining_len(&self) -> (r: usize)
        ensures
            r == self.bytes().len() - self.pos(),
            0 <= self.pos() <= self.bytes().len(),
    {
        proof {
            use_type_invariant(self);
        }
        self.data.len() - self.pos
    }

    /// Gives the input back, with the bytes that were read.
    pub fn into_inner(self) -> (r: Vec<u8>)
        ensures
            r@ == self.bytes(),
    {
        self.data
    }

    /// Reads one byte, if one is left.
    pub fn read_byte(&mut self) -> (r: Option<u8>)
        ensures
            final(self).bytes() == old(self).bytes(),
            final(self).pos() == byte_at(old(self).bytes(), old(self).pos()).1,
            r == byte_at(old(self).bytes(), old(self).pos()).0,
            old(self).pos() <= final(self).pos() <= old(self).bytes().len(),
    {
        proof {
            use_type_invariant(&*self);
        }
        if self.pos < self.data.len() {
            let b = self.data[self.pos];
            self.pos = self.pos + 1;
            Some(b)
        } else {
            None
        }
    }

    /// Reads exactly `count` bytes. Where fewer are left the input is read
    /// to its end and nothing is returned.
    pub fn read_exact(&mut self, count: usize) -> (r: Option<Vec<u8>>)
        ensures
            final(self).bytes() == old(self).bytes(),
            final(self).pos() == exact_at(old(self).bytes(), old(self).pos(), count as int).1,
            match exact_at(old(self).bytes(), old(self).pos(), count as int).0 {
                Some(taken) => r matches Some(v) && v@ == taken,
                None => r is None,
            },
    {
        proof {
            use_type_invariant(&*self);
        }
        if count <= self.data.len() - self.pos {
            let taken = slice_to_vec(
                slice_subrange(self.data.as_slice(), self.pos, self.pos + count),
            );
            self.pos = self.pos + count;
            Some(taken)
        } else {
            self.pos = self.data.len();
            None
        }
    }

    /// Reads the two bytes of the magic constant.
    pub fn read_magic_constant(&mut self) -> (r: ImageResult<[u8; 2]>)
        ensures
            final(self).bytes() == old(self).bytes(),
            final(self).pos() == magic_at(old(self).bytes(), old(self).pos()).1,
            match magic_at(old(self).bytes(), old(self).pos()).0 {
                Ok(m) => r matches Ok(a) && a@ == seq![m.0, m.1],
                Err(e) => r == Err::<[u8; 2], ImageError>(e),
            },
    {
        proof {
            use_type_invariant(&*self);
        }
        if self.data.len() - self.pos >= 2 {
            let magic: [u8; 2] = [self.data[self.pos], self.data[self.pos + 1]];
            self.pos = self.pos + 2;
            assert(magic@ =~= seq![magic@[0], magic@[1]]);
            Ok(magic)
        } else {
            self.pos = self.data.len();
            Err(ImageError::NotEnoughData)
        }
    }

    /// Reads on to the end of the input.
    pub fn skip_to_end(&mut self)
        ensures
            final(self).bytes() == old(self).bytes(),
            final(self).pos() == old(self).bytes().len(),
    {
        self.pos = self.data.len();
    }

    /// Reads the next token as it stands, be it empty, and the one whitespace
    /// behind it, leaving out comments.
    pub fn read_token(&mut self) -> (r: Vec<u8>)
        ensures
            final(self).bytes() == old(self).bytes(),
            final(self).pos() == token_end(old(self).bytes(), old(self).pos()),
            old(self).pos() <= final(self).pos() <= old(self).bytes().len(),
            r@ == token_text(old(self).bytes(), old(self).pos()),
    {
        proof {
            use_type_invariant(&*self);
        }
        let (token, end) = scan_token(self.data.as_slice(), self.pos);
        self.pos = end;
        token
    }

    /// Reads the next token, and the one whitespace behind it, leaving out
    /// comments.
    pub fn read_next_string(&mut self) -> (r: ImageResult<Vec<u8>>)
        ensures
            final(self).bytes() == old(self).bytes(),
            final(self).pos() == token_end(old(self).bytes(), old(self).pos()),
            old(self).pos() <= final(self).pos() <= old(self).bytes().len(),
            match checked_token(token_text(old(self).bytes(), old(self).pos())) {
                Ok(t) => r matches Ok(v) && v@ == t,
                Err(e) => r == Err::<Vec<u8>, ImageError>(e),
            },
    {
        let token = self.read_token();
        if token.len() == 0 {
            return Err(ImageError::FormatError(FormatReason::UnexpectedEof));
        }
        if !is_ascii(token.as_slice()) {
            return Err(ImageError::FormatError(FormatReason::NonAsciiToken));
        }
        Ok(token)
    }

    /// Reads the next line, its line feed included; at the end of the input
    /// the line is empty.
    pub fn read_next_line(&mut self) -> (r: Vec<u8>)
        ensures
            final(self).bytes() == old(self).bytes(),
            final(self).pos() == line_end(old(self).bytes(), old(self).pos()),
            old(self).pos() <= final(self).pos() <= old(self).bytes().len(),
            r@ == old(self).bytes().subrange(old(self).pos(), final(self).pos()),
    {
        proof {
            use_type_invariant(&*self);
        }
        let end = scan_line(self.data.as_slice(), self.pos);
        let line = slice_to_vec(slice_subrange(self.data.as_slice(), self.pos, end));
        self.pos = end;
        line
    }

    /// Reads the next token as a decimal number.
    pub fn read_next_u32(&mut self) -> (r: ImageResult<u32>)
        ensures
            final(self).bytes() == old(self).bytes(),
            r == u32_at(old(self).bytes(), old(self).pos()).0,
            final(self).pos() == u32_at(old(self).bytes(), old(self).pos()).1,
            old(self).pos() <= final(self).pos() <= old(self).bytes().len(),
    {
        match self.read_next_string() {
            Err(e) => Err(e),
            Ok(token) => match parse_u32(token.as_slice()) {
                Some(v) => Ok(v),
                None => Err(ImageError::FormatError(FormatReason::InvalidNumber)),
            },
        }
    }
}

} // verus!

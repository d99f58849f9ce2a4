//! A reader over the bytes of a frame, with the protocol's primitive fields:
//! fixed-width big-endian integers, byte runs, `[string]` and `[long string]`.

use vstd::prelude::*;
use vstd::utf8::{decode_utf8, valid_utf8};
use crate::error::{Error, ErrorKind, Fault, Step, Result, Decoded, result_agrees, decoded_agrees};
use crate::wire::{be16, be32, be64, signed16, signed32, signed64, read_u8_at, read_u16_at, read_i16_at, read_u32_at, read_i32_at, read_u64_at, read_i64_at, string_from_utf8};

verus! {

/// Reading the byte at `p`.
pub open spec fn sp_u8(s: Seq<u8>, p: int) -> Step<u8> {
    if p + 1 <= s.len() {
        Step::Done(s[p], p + 1)
    } else {
        Step::Fail(ErrorKind::Io, s.len() as int)
    }
}

/// Reading a big-endian `u16` at `p`.
pub open spec fn sp_u16(s: Seq<u8>, p: int) -> Step<u16> {
    if p + 2 <= s.len() {
        Step::Done(be16(s[p], s[p + 1]), p + 2)
    } else {
        Step::Fail(ErrorKind::Io, s.len() as int)
    }
}

/// Reading a big-endian `i16` at `p`.
pub open spec fn sp_i16(s: Seq<u8>, p: int) -> Step<i16> {
    if p + 2 <= s.len() {
        Step::Done(signed16(be16(s[p], s[p + 1])), p + 2)
    } else {
        Step::Fail(ErrorKind::Io, s.len() as int)
    }
}

/// Reading a big-endian `u32` at `p`.
pub open spec fn sp_u32(s: Seq<u8>, p: int) -> Step<u32> {
    if p + 4 <= s.len() {
        Step::Done(be32(s[p], s[p + 1], s[p + 2], s[p + 3]), p + 4)
    } else {
        Step::Fail(ErrorKind::Io, s.len() as int)
    }
}

/// Reading a big-endian `i32` at `p`.
pub open spec fn sp_i32(s: Seq<u8>, p: int) -> Step<i32> {
    if p + 4 <= s.len() {
        Step::Done(signed32(be32(s[p], s[p + 1], s[p + 2], s[p + 3])), p + 4)
    } else {
        Step::Fail(ErrorKind::Io, s.len() as int)
    }
}

/// Reading a big-endian `u64` at `p`.
pub open spec fn sp_u64(s: Seq<u8>, p: int) -> Step<u64> {
    if p + 8 <= s.len() {
        Step::Done(be64(s.subrange(p, p + 8)), p + 8)
    } else {
        Step::Fail(ErrorKind::Io, s.len() as int)
    }
}

/// Reading a big-endian `i64` at `p`.
pub open spec fn sp_i64(s: Seq<u8>, p: int) -> Step<i64> {
    if p + 8 <= s.len() {
        Step::Done(signed64(be64(s.subrange(p, p + 8))), p + 8)
    } else {
        Step::Fail(ErrorKind::Io, s.len() as int)
    }
}

/// Reading the next `n` bytes at `p`.
pub open spec fn sp_bytes(s: Seq<u8>, p: int, n: int) -> Step<Seq<u8>> {
    if p + n <= s.len() {
        Step::Done(s.subrange(p, p + n), p + n)
    } else {
        Step::Fail(ErrorKind::UnexpectedEof, s.len() as int)
    }
}

/// Reading `n` bytes at `p` as UTF-8 text.
pub open spec fn sp_text(s: Seq<u8>, p: int, n: int) -> Step<Seq<char>> {
    match sp_bytes(s, p, n) {
        Step::Done(b, p1) => if valid_utf8(b) {
            Step::Done(decode_utf8(b), p1)
        } else {
            Step::Fail(ErrorKind::Utf8, p1)
        },
        other => other.cast(),
    }
}

/// Reading a `[string]`: a `u16` length, then that many bytes of UTF-8.
pub open spec fn sp_str(s: Seq<u8>, p: int) -> Step<Seq<char>> {
    match sp_u16(s, p) {
        Step::Done(n, p1) => sp_text(s, p1, n as int),
        other => other.cast(),
    }
}

/// Reading a `[long string]`: an `i32` length, -1 for no string, then that
/// many bytes of UTF-8. A length below -1 is a fault.
pub open spec fn sp_long_str(s: Seq<u8>, p: int) -> Step<Option<Seq<char>>> {
    match sp_i32(s, p) {
        Step::Done(n, p1) => if n == -1 {
            Step::Done(None, p1)
        } else if n < 0 {
            Step::Fault(Fault::CapacityOverflow)
        } else {
            match sp_text(s, p1, n as int) {
                Step::Done(t, p2) => Step::Done(Some(t), p2),
                other => other.cast(),
            }
        },
        other => other.cast(),
    }
}

/// A reader over a run of bytes, at a position within it.
pub struct Reader<'a> {
    data: &'a [u8],
    pos: usize,
}

impl<'a> Reader<'a> {
    #[verifier::type_invariant]
    spec fn inv(self) -> bool {
        self.pos <= self.data@.len()
    }

    /// The bytes being read.
    pub closed spec fn bytes(&self) -> Seq<u8> {
        self.data@
    }

    /// The position of the next byte to read.
    pub closed spec fn pos(&self) -> int {
        self.pos as int
    }

    /// Positions are never negative.
    pub proof fn lemma_pos_nonneg(r: &Reader<'a>)
        ensures
            r.pos() >= 0,
    {
    }

    /// A reader at the start of `data`.
    pub fn new(data: &'a [u8]) -> (r: Self)
        ensures
            r.bytes() == data@,
            r.pos() == 0,
    {
        Reader { data, pos: 0 }
    }

    /// The position of the next byte to read.
    pub fn position(&self) -> (p: usize)
        ensures
            p == self.pos(),
            p <= self.bytes().len(),
    {
        proof {
            use_type_invariant(self);
        }
        self.pos
    }

    /// The number of bytes left to read.
    pub fn remaining(&self) -> (n: usize)
        ensures
            n == self.bytes().len() - self.pos(),
    {
        proof {
            use_type_invariant(self);
        }
        self.data.len() - self.pos
    }

    /// Copies bytes into `buf` from index `start` on, as many as both the
    /// buffer and the input have room for, and returns how many.
    pub fn read(&mut self, buf: &mut [u8], start: usize) -> (n: usize)
        requires
            start <= old(buf)@.len(),
        ensures
            final(self).bytes() == old(self).bytes(),
            n == vstd::math::min(
                old(buf)@.len() - start,
                old(self).bytes().len() - old(self).pos(),
            ),
            final(self).pos() == old(self).pos() + n,
            final(buf)@.len() == old(buf)@.len(),
            final(buf)@ == old(buf)@.subrange(0, start as int) + old(self).bytes().subrange(
                old(self).pos(),
                old(self).pos() + n,
            ) + old(buf)@.subrange(start + n, old(buf)@.len() as int),
    {
        proof {
            use_type_invariant(&*self);
        }
        let room = buf.len() - start;
        let avail = self.data.len() - self.pos;
        let n = if room < avail { room } else { avail };
        let len = self.data.len();
        let mut k: usize = 0;
        while k < n
            invariant
                len == self.data@.len(),
                k <= n,
                n <= buf.len() - start,
                n <= self.data@.len() - self.pos,
                self.pos <= self.data@.len(),
                buf@.len() == old(buf)@.len(),
                buf@ == old(buf)@.subrange(0, start as int) + self.data@.subrange(
                    self.pos as int,
                    self.pos + k,
                ) + old(buf)@.subrange(start + k, old(buf)@.len() as int),
            decreases n - k,
        {
            let b = self.data[self.pos + k];
            buf[start + k] = b;
            proof {
                assert(buf@ =~= old(buf)@.subrange(0, start as int) + self.data@.subrange(
                    self.pos as int,
                    self.pos + k + 1,
                ) + old(buf)@.subrange(start + k + 1, old(buf)@.len() as int));
            }
            k = k + 1;
        }
        self.pos = self.pos + n;
        n
    }

    /// Reads a `u8`; an I/O error, with the reader left at the end, when fewer than 1 bytes remain.
    pub fn read_u8(&mut self) -> (r: Result<u8>)
        ensures
            final(self).bytes() == old(self).bytes(),
            result_agrees(r, sp_u8(old(self).bytes(), old(self).pos()), final(self).pos()),
    {
        proof {
            use_type_invariant(&*self);
        }
        match read_u8_at(self.data, self.pos) {
            Ok(v) => {
                self.pos = self.pos + 1;
                Ok(v)
            },
            Err(e) => {
                self.pos = self.data.len();
                Err(Error::from(e))
            },
        }
    }

    /// Reads a big-endian `u16`; an I/O error, with the reader left at the end, when fewer than 2 bytes remain.
    pub fn read_u16(&mut self) -> (r: Result<u16>)
        ensures
            final(self).bytes() == old(self).bytes(),
            result_agrees(r, sp_u16(old(self).bytes(), old(self).pos()), final(self).pos()),
    {
        proof {
            use_type_invariant(&*self);
        }
        match read_u16_at(self.data, self.pos) {
            Ok(v) => {
                self.pos = self.pos + 2;
                Ok(v)
            },
            Err(e) => {
                self.pos = self.data.len();
                Err(Error::from(e))
            },
        }
    }

    /// Reads a big-endian `i16`; an I/O error, with the reader left at the end, when fewer than 2 bytes remain.
    pub fn read_i16(&mut self) -> (r: Result<i16>)
        ensures
            final(self).bytes() == old(self).bytes(),
            result_agrees(r, sp_i16(old(self).bytes(), old(self).pos()), final(self).pos()),
    {
        proof {
            use_type_invariant(&*self);
        }
        match read_i16_at(self.data, self.pos) {
            Ok(v) => {
                self.pos = self.pos + 2;
                Ok(v)
            },
            Err(e) => {
                self.pos = self.data.len();
                Err(Error::from(e))
            },
        }
    }

    /// Reads a big-endian `u32`; an I/O error, with the reader left at the end, when fewer than 4 bytes remain.
    pub fn read_u32(&mut self) -> (r: Result<u32>)
        ensures
            final(self).bytes() == old(self).bytes(),
            result_agrees(r, sp_u32(old(self).bytes(), old(self).pos()), final(self).pos()),
    {
        proof {
            use_type_invariant(&*self);
        }
        match read_u32_at(self.data, self.pos) {
            Ok(v) => {
                self.pos = self.pos + 4;
                Ok(v)
            },
            Err(e) => {
                self.pos = self.data.len();
                Err(Error::from(e))
            },
        }
    }

    /// Reads a big-endian `i32`; an I/O error, with the reader left at the end, when fewer than 4 bytes remain.
    pub fn read_i32(&mut self) -> (r: Result<i32>)
        ensures
            final(self).bytes() == old(self).bytes(),
            result_agrees(r, sp_i32(old(self).bytes(), old(self).pos()), final(self).pos()),
    {
        proof {
            use_type_invariant(&*self);
        }
        match read_i32_at(self.data, self.pos) {
            Ok(v) => {
                self.pos = self.pos + 4;
                Ok(v)
            },
            Err(e) => {
                self.pos = self.data.len();
                Err(Error::from(e))
            },
        }
    }

    /// Reads a big-endian `u64`; an I/O error, with the reader left at the end, when fewer than 8 bytes remain.
    pub fn read_u64(&mut self) -> (r: Result<u64>)
        ensures
            final(self).bytes() == old(self).bytes(),
            result_agrees(r, sp_u64(old(self).bytes(), old(self).pos()), final(self).pos()),
    {
        proof {
            use_type_invariant(&*self);
        }
        match read_u64_at(self.data, self.pos) {
            Ok(v) => {
                self.pos = self.pos + 8;
                Ok(v)
            },
            Err(e) => {
                self.pos = self.data.len();
                Err(Error::from(e))
            },
        }
    }

    /// Reads a big-endian `i64`; an I/O error, with the reader left at the end, when fewer than 8 bytes remain.
    pub fn read_i64(&mut self) -> (r: Result<i64>)
        ensures
            final(self).bytes() == old(self).bytes(),
            result_agrees(r, sp_i64(old(self).bytes(), old(self).pos()), final(self).pos()),
    {
        proof {
            use_type_invariant(&*self);
        }
        match read_i64_at(self.data, self.pos) {
            Ok(v) => {
                self.pos = self.pos + 8;
                Ok(v)
            },
            Err(e) => {
                self.pos = self.data.len();
                Err(Error::from(e))
            },
        }
    }

    /// Reads the next `len` bytes. When fewer remain, the reader is left at
    /// the end and the error is `UnexpectedEOF`.
    pub fn read_bytes(&mut self, len: usize) -> (r: Result<Vec<u8>>)
        ensures
            final(self).bytes() == old(self).bytes(),
            result_agrees(r, sp_bytes(old(self).bytes(), old(self).pos(), len as int), final(self).pos()),
            r is Err ==> final(self).pos() == old(self).bytes().len(),
    {
        proof {
            use_type_invariant(&*self);
        }
        if len > self.data.len() - self.pos {
            self.pos = self.data.len();
            return Err(Error::UnexpectedEOF);
        }
        let mut v: Vec<u8> = vec![0u8; len];
        match read_full(self, v.as_mut_slice()) {
            Ok(()) => Ok(v),
            Err(e) => Err(e),
        }
    }

    /// Reads `len` bytes as UTF-8 text.
    fn read_text(&mut self, len: usize) -> (r: Result<String>)
        ensures
            final(self).bytes() == old(self).bytes(),
            result_agrees(r, sp_text(old(self).bytes(), old(self).pos(), len as int), final(self).pos()),
    {
        let bytes = match self.read_bytes(len) {
            Ok(b) => b,
            Err(e) => return Err(e),
        };
        match string_from_utf8(bytes) {
            Ok(s) => Ok(s),
            Err(e) => Err(Error::from(e)),
        }
    }

    /// Reads a `[string]`: a `u16` length, then that many bytes of UTF-8.
    pub fn read_cql_str(&mut self) -> (r: Result<String>)
        ensures
            final(self).bytes() == old(self).bytes(),
            result_agrees(r, sp_str(old(self).bytes(), old(self).pos()), final(self).pos()),
    {
        let len = match self.read_u16() {
            Ok(n) => n,
            Err(e) => return Err(e),
        };
        self.read_text(len as usize)
    }

    /// Reads a `[long string]`: an `i32` length, -1 for no string, then that
    /// many bytes of UTF-8; reports the fault of a length below -1.
    pub fn decode_cql_long_str(&mut self) -> (r: Decoded<Option<String>>)
        ensures
            final(self).bytes() == old(self).bytes(),
            decoded_agrees(r, sp_long_str(old(self).bytes(), old(self).pos()), final(self).pos()),
    {
        let len = match self.read_i32() {
            Ok(n) => n,
            Err(e) => return Decoded::Failed(e),
        };
        if len == -1 {
            Decoded::Value(None)
        } else if len < 0 {
            Decoded::Panicked(Fault::CapacityOverflow)
        } else {
            match self.read_text(len as usize) {
                Ok(s) => Decoded::Value(Some(s)),
                Err(e) => Decoded::Failed(e),
            }
        }
    }

    /// Reads a `[long string]`, on an input whose length prefix is not below -1.
    pub fn read_cql_long_str(&mut self) -> (r: Result<Option<String>>)
        requires
            !sp_long_str(old(self).bytes(), old(self).pos()).is_fault(),
        ensures
            final(self).bytes() == old(self).bytes(),
            result_agrees(r, sp_long_str(old(self).bytes(), old(self).pos()), final(self).pos()),
    {
        match self.decode_cql_long_str() {
            Decoded::Value(v) => Ok(v),
            Decoded::Failed(e) => Err(e),
            Decoded::Panicked(_) => {
                assert(false);
                Err(Error::UnexpectedEOF)
            },
        }
    }
}

/// What a loop that fills a buffer of `want` bytes does next, after a read
/// that returned `n` bytes when `filled` were in place.
#[derive(Clone, Copy, Debug, PartialEq, Eq, Structural)]
pub enum FillStep {
    /// The read returned nothing: the input ended before the buffer was full.
    EndOfInput,
    /// This many bytes are now in place.
    Filled(usize),
}

/// The step of a fill loop: a read of no bytes ends the input, any other
/// read adds its bytes to those in place.
pub fn fill_step(filled: usize, want: usize, n: usize) -> (r: FillStep)
    requires
        filled < want,
        n <= want - filled,
    ensures
        n == 0 ==> r == FillStep::EndOfInput,
        n > 0 ==> r == FillStep::Filled((filled + n) as usize),
{
    if n == 0 {
        FillStep::EndOfInput
    } else {
        FillStep::Filled(filled + n)
    }
}

/// Fills `buf` from the reader. When the input ends first, everything left
/// has been copied to the front of `buf`, the reader is at the end, and the
/// error is `UnexpectedEOF`; the rest of `buf` is left as it was.
pub fn read_full(rdr: &mut Reader, buf: &mut [u8]) -> (r: Result<()>)
    ensures
        final(rdr).bytes() == old(rdr).bytes(),
        final(buf)@.len() == old(buf)@.len(),
        r is Ok <==> old(rdr).pos() + old(buf)@.len() <= old(rdr).bytes().len(),
        r is Ok ==> final(rdr).pos() == old(rdr).pos() + old(buf)@.len() && final(buf)@
            == old(rdr).bytes().subrange(old(rdr).pos(), old(rdr).pos() + old(buf)@.len()),
        r matches Err(e) ==> e.kind() == ErrorKind::UnexpectedEof,
        r is Err ==> final(rdr).pos() == old(rdr).bytes().len() && final(buf)@.subrange(
            0,
            old(rdr).bytes().len() - old(rdr).pos(),
        ) == old(rdr).bytes().subrange(old(rdr).pos(), old(rdr).bytes().len() as int)
            && final(buf)@.subrange(old(rdr).bytes().len() - old(rdr).pos(), old(buf)@.len() as int)
            == old(buf)@.subrange(old(rdr).bytes().len() - old(rdr).pos(), old(buf)@.len() as int),
{
    let _ = rdr.position();
    let ghost p0 = rdr.pos();
    let ghost s = rdr.bytes();
    let ghost b0 = buf@;
    let mut nread: usize = 0;
    while nread < buf.len()
        invariant
            0 <= p0,
            p0 == old(rdr).pos(),
            s == old(rdr).bytes(),
            b0 == old(buf)@,
            rdr.bytes() == s,
            nread <= buf@.len(),
            buf@.len() == b0.len(),
            rdr.pos() == p0 + nread,
            rdr.pos() <= s.len(),
            buf@ == s.subrange(p0, p0 + nread) + b0.subrange(nread as int, b0.len() as int),
        decreases buf@.len() - nread,
    {
        let n = rdr.read(buf, nread);
        proof {
            assert(buf@ =~= s.subrange(p0, p0 + nread + n) + b0.subrange(nread + n, b0.len() as int));
        }
        match fill_step(nread, buf.len(), n) {
            FillStep::EndOfInput => {
                proof {
                    assert(buf@.subrange(0, s.len() - p0) =~= s.subrange(p0, s.len() as int));
                    assert(buf@.subrange(s.len() - p0, b0.len() as int) =~= b0.subrange(
                        s.len() - p0,
                        b0.len() as int,
                    ));
                }
                return Err(Error::UnexpectedEOF);
            },
            FillStep::Filled(k) => {
                nread = k;
            },
        }
    }
    proof {
        assert(buf@ =~= s.subrange(p0, p0 + b0.len()));
    }
    Ok(())
}

} // verus!

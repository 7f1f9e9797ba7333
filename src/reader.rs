//! A seekable source of bytes held in memory.

use vstd::prelude::*;
use crate::error::ParseError;

verus! {

/// True when `n` bytes can be read from position `p` of `d`.
pub open spec fn fits(d: Seq<u8>, p: int, n: int) -> bool {
    0 <= p && p + n <= d.len()
}

/// The little-endian 16-bit value at position `i`.
pub open spec fn le16(d: Seq<u8>, i: int) -> int {
    d[i] as int + d[i + 1] as int * 0x100
}

/// The little-endian 32-bit value at position `i`.
pub open spec fn le32(d: Seq<u8>, i: int) -> int {
    le16(d, i) + le16(d, i + 2) * 0x10000
}

/// The little-endian 64-bit value at position `i`.
pub open spec fn le64(d: Seq<u8>, i: int) -> int {
    le32(d, i) + le32(d, i + 4) * 0x1_0000_0000
}

/// Bytes read in order from a position that can also be moved.
/// Seeking past the end is allowed; reading there fails.
pub struct ByteReader {
    data: Vec<u8>,
    pos: u64,
}

impl ByteReader {
    /// The bytes of the source.
    pub closed spec fn bytes(&self) -> Seq<u8> {
        self.data@
    }

    /// The position of the next read.
    pub closed spec fn at(&self) -> int {
        self.pos as int
    }

    pub fn new(data: Vec<u8>) -> (r: ByteReader)
        ensures
            r.bytes() == data@,
            r.at() == 0,
    {
        ByteReader { data, pos: 0 }
    }

    pub fn position(&self) -> (p: u64)
        ensures
            p == self.at(),
    {
        self.pos
    }

    /// Moves to absolute position `p`.
    pub fn seek_start(&mut self, p: u64)
        ensures
            final(self).bytes() == old(self).bytes(),
            final(self).at() == p,
    {
        self.pos = p;
    }

    /// Moves by `delta` from the current position; fails, staying put, where the
    /// new position would be negative or beyond `u64::MAX`.
    pub fn seek_current(&mut self, delta: i64) -> (r: Result<(), ParseError>)
        ensures
            final(self).bytes() == old(self).bytes(),
            old(self).bytes().len() <= u64::MAX,
            r is Ok <==> 0 <= old(self).at() + delta <= u64::MAX,
            r is Ok ==> final(self).at() == old(self).at() + delta,
            r is Err ==> r == Err::<(), ParseError>(ParseError::IOFailure) && final(self).at() == old(self).at(),
    {
        let len: usize = self.data.len();
        assert(len as int <= u64::MAX);
        if delta >= 0 {
            let d: u64 = delta as u64;
            if self.pos <= u64::MAX - d {
                self.pos = self.pos + d;
                Ok(())
            } else {
                Err(ParseError::IOFailure)
            }
        } else {
            let d: u64 = (-(delta as i128)) as u64;
            if self.pos >= d {
                self.pos = self.pos - d;
                Ok(())
            } else {
                Err(ParseError::IOFailure)
            }
        }
    }

    /// Reads exactly `n` bytes; fails, staying put, where fewer remain.
    pub fn read_exact(&mut self, n: usize) -> (r: Result<Vec<u8>, ParseError>)
        ensures
            final(self).bytes() == old(self).bytes(),
            old(self).bytes().len() <= u64::MAX,
            r is Ok <==> fits(old(self).bytes(), old(self).at(), n as int),
            r matches Ok(v) ==> v@ == old(self).bytes().subrange(old(self).at(), old(self).at() + n)
                && final(self).at() == old(self).at() + n,
            r is Err ==> r == Err::<Vec<u8>, ParseError>(ParseError::IOFailure) && final(self).at() == old(self).at(),
    {
        let len: usize = self.data.len();
        assert(len as int <= u64::MAX);
        if self.pos > len as u64 || n > len - self.pos as usize {
            return Err(ParseError::IOFailure);
        }
        let start: usize = self.pos as usize;
        let mut out: Vec<u8> = Vec::new();
        let mut i: usize = 0;
        while i < n
            invariant
                i <= n,
                start + n <= len,
                len == self.data@.len(),
                out@ == self.data@.subrange(start as int, start + i),
            decreases n - i,
        {
            out.push(self.data[start + i]);
            i = i + 1;
            assert(out@ =~= self.data@.subrange(start as int, start + i));
        }
        self.pos = self.pos + n as u64;
        Ok(out)
    }

    /// Reads a little-endian 16-bit value.
    pub fn read_u16_le(&mut self) -> (r: Result<u16, ParseError>)
        ensures
            final(self).bytes() == old(self).bytes(),
            old(self).bytes().len() <= u64::MAX,
            r is Ok <==> fits(old(self).bytes(), old(self).at(), 2),
            r matches Ok(v) ==> v == le16(old(self).bytes(), old(self).at())
                && final(self).at() == old(self).at() + 2,
            r is Err ==> r == Err::<u16, ParseError>(ParseError::IOFailure) && final(self).at() == old(self).at(),
    {
        let b = self.read_exact(2)?;
        Ok(b[0] as u16 + b[1] as u16 * 0x100)
    }

    /// Reads a little-endian 32-bit value.
    pub fn read_u32_le(&mut self) -> (r: Result<u32, ParseError>)
        ensures
            final(self).bytes() == old(self).bytes(),
            old(self).bytes().len() <= u64::MAX,
            r is Ok <==> fits(old(self).bytes(), old(self).at(), 4),
            r matches Ok(v) ==> v == le32(old(self).bytes(), old(self).at())
                && final(self).at() == old(self).at() + 4,
            r is Err ==> r == Err::<u32, ParseError>(ParseError::IOFailure) && final(self).at() == old(self).at(),
    {
        let b = self.read_exact(4)?;
        Ok(bytes_le32(&b, 0))
    }

    /// Reads a little-endian 64-bit value.
    pub fn read_u64_le(&mut self) -> (r: Result<u64, ParseError>)
        ensures
            final(self).bytes() == old(self).bytes(),
            old(self).bytes().len() <= u64::MAX,
            r is Ok <==> fits(old(self).bytes(), old(self).at(), 8),
            r matches Ok(v) ==> v == le64(old(self).bytes(), old(self).at())
                && final(self).at() == old(self).at() + 8,
            r is Err ==> r == Err::<u64, ParseError>(ParseError::IOFailure) && final(self).at() == old(self).at(),
    {
        let b = self.read_exact(8)?;
        let lo: u64 = bytes_le32(&b, 0) as u64;
        let hi: u64 = bytes_le32(&b, 4) as u64;
        Ok(lo + hi * 0x1_0000_0000)
    }
}

/// The little-endian 32-bit value at index `i` of `b`.
pub fn bytes_le32(b: &Vec<u8>, i: usize) -> (r: u32)
    requires
        i + 4 <= b@.len(),
    ensures
        r == le32(b@, i as int),
{
    let len: usize = b.len();
    let b0: u32 = b[i] as u32;
    let b1: u32 = b[i + 1] as u32;
    let b2: u32 = b[i + 2] as u32;
    let b3: u32 = b[i + 3] as u32;
    b0 + b1 * 0x100 + b2 * 0x1_0000 + b3 * 0x100_0000
}

} // verus!

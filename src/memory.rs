//! # In-memory devices
//! Byte streams and a drawing surface held in memory, each with a fixed
//! capacity past which it fails.
use crate::console::{ByteSink, ByteSource, RawSink, RawSource};
use crate::screen::{Rect, Surface};
use vstd::prelude::*;

verus! {

/// The error of an in-memory device that is full or exhausted.
#[derive(Clone, Copy, Debug, PartialEq, Eq, Structural)]
pub struct Exhausted;

/// A byte stream that keeps what is written to it, up to `limit` bytes.
pub struct BufferSink {
    bytes: Vec<u8>,
    limit: usize,
}

impl BufferSink {
    /// The most bytes the stream takes.
    pub closed spec fn limit_spec(&self) -> nat {
        self.limit as nat
    }

    /// An empty stream that takes at most `limit` bytes.
    pub fn with_limit(limit: usize) -> (r: Self)
        ensures
            r.accepted() == Seq::<u8>::empty(),
            r.limit_spec() == limit,
    {
        BufferSink { bytes: Vec::new(), limit }
    }

    /// The bytes taken so far.
    pub fn contents(&self) -> (r: &Vec<u8>)
        ensures
            r@ == self.accepted(),
    {
        &self.bytes
    }
}

impl ByteSink for BufferSink {
    type Error = Exhausted;

    closed spec fn accepted(&self) -> Seq<u8> {
        self.bytes@
    }

    /// Takes as many bytes as there is room for; fails when there is room
    /// for none of a non-empty `bytes`.
    fn write(&mut self, bytes: &[u8]) -> (r: Result<usize, Exhausted>) {
        if bytes.len() == 0 {
            return Ok(0);
        }
        if self.bytes.len() >= self.limit {
            return Err(Exhausted);
        }
        let room = self.limit - self.bytes.len();
        let n: usize = if bytes.len() < room {
            bytes.len()
        } else {
            room
        };
        let ghost start = self.bytes@;
        let mut i: usize = 0;
        while i < n
            invariant
                n <= bytes@.len(),
                i <= n,
                self.bytes@ == start + bytes@.subrange(0, i as int),
            decreases n - i,
        {
            self.bytes.push(bytes[i]);
            i = i + 1;
            assert(bytes@.subrange(0, i as int) == bytes@.subrange(0, i - 1 as int).push(
                bytes@[i - 1],
            ));
        }
        Ok(n)
    }
}

impl RawSink for BufferSink {
    type Error = Exhausted;

    fn write_raw(&mut self, bytes: &[u8]) -> (r: Result<usize, Exhausted>) {
        self.write(bytes)
    }
}

/// A byte stream that hands out the bytes it was made with, in order.
pub struct BufferSource {
    bytes: Vec<u8>,
    pos: usize,
}

impl BufferSource {
    /// The bytes not yet handed out.
    pub closed spec fn remaining(&self) -> Seq<u8> {
        self.bytes@.subrange(self.pos as int, self.bytes@.len() as int)
    }

    /// A stream that hands out `bytes`.
    pub fn new(bytes: Vec<u8>) -> (r: Self)
        ensures
            r.delivered() == Seq::<u8>::empty(),
            r.remaining() == bytes@,
    {
        BufferSource { bytes, pos: 0 }
    }
}

impl ByteSource for BufferSource {
    type Error = Exhausted;

    closed spec fn delivered(&self) -> Seq<u8> {
        self.bytes@.subrange(0, self.pos as int)
    }

    /// Hands out as many bytes as fit in `dest`; fails when none are left
    /// for a non-empty `dest`.
    fn read(&mut self, dest: &mut [u8]) -> (r: Result<usize, Exhausted>) {
        if self.pos >= self.bytes.len() {
            if dest.len() == 0 {
                return Ok(0);
            }
            return Err(Exhausted);
        }
        let left = self.bytes.len() - self.pos;
        let n: usize = if dest.len() < left {
            dest.len()
        } else {
            left
        };
        self.copy_out(dest, n);
        Ok(n)
    }

    /// Fills `dest` when enough bytes are left; else hands out nothing and
    /// reports the end of the stream.
    fn read_exact(&mut self, dest: &mut [u8]) -> (r: Result<(), embedded_io::ReadExactError<Exhausted>>) {
        if self.pos > self.bytes.len() || self.bytes.len() - self.pos < dest.len() {
            return Err(embedded_io::ReadExactError::UnexpectedEof);
        }
        let n = dest.len();
        self.copy_out(dest, n);
        assert(dest@.subrange(0, n as int) =~= dest@);
        Ok(())
    }
}

impl RawSource for BufferSource {
    type Error = Exhausted;

    fn read_raw(&mut self, dest: &mut [u8]) -> (r: Result<usize, Exhausted>) {
        self.read(dest)
    }

    fn read_exact_raw(&mut self, dest: &mut [u8]) -> (r: Result<(), embedded_io::ReadExactError<Exhausted>>) {
        self.read_exact(dest)
    }
}

impl BufferSource {
    /// Copies the next `n` bytes into the front of `dest`.
    fn copy_out(&mut self, dest: &mut [u8], n: usize)
        requires
            n <= old(dest)@.len(),
            old(self).pos + n <= old(self).bytes@.len(),
        ensures
            final(dest)@.len() == old(dest)@.len(),
            final(dest)@.subrange(n as int, old(dest)@.len() as int) == old(dest)@.subrange(
                n as int,
                old(dest)@.len() as int,
            ),
            final(self).delivered() == old(self).delivered() + final(dest)@.subrange(0, n as int),
            final(self).bytes@ == old(self).bytes@,
    {
        let start = self.pos;
        let total = self.bytes.len();
        let mut i: usize = 0;
        while i < n
            invariant
                n <= dest@.len(),
                dest@.len() == old(dest)@.len(),
                start + n <= total,
                total == self.bytes@.len(),
                i <= n,
                self.pos == start,
                forall|k: int| 0 <= k < i ==> dest@[k] == self.bytes@[start + k],
                forall|k: int| n <= k < dest@.len() ==> dest@[k] == old(dest)@[k],
            decreases n - i,
        {
            dest[i] = self.bytes[start + i];
            i = i + 1;
        }
        self.pos = start + n;
        assert(final(dest)@.subrange(n as int, old(dest)@.len() as int) =~= old(dest)@.subrange(
            n as int,
            old(dest)@.len() as int,
        ));
        assert(self.bytes@.subrange(0, self.pos as int) =~= self.bytes@.subrange(0, start as int)
            + dest@.subrange(0, n as int));
    }
}

/// A drawing surface of a given size that records the fills it carries out,
/// up to `limit` of them.
pub struct RecordingSurface {
    width: u32,
    height: u32,
    log: Vec<(Rect, u8)>,
    limit: usize,
}

impl RecordingSurface {
    /// An empty surface of `width` by `height` that carries out at most
    /// `limit` fills.
    pub fn new(width: u32, height: u32, limit: usize) -> (r: Self)
        ensures
            r.extent() == (width, height),
            r.fills() == Seq::<(Rect, u8)>::empty(),
    {
        RecordingSurface { width, height, log: Vec::new(), limit }
    }

    /// The fills carried out so far, oldest first.
    pub fn log(&self) -> (r: &Vec<(Rect, u8)>)
        ensures
            r@ == self.fills(),
    {
        &self.log
    }
}

impl Surface for RecordingSurface {
    type Error = Exhausted;

    closed spec fn extent(&self) -> (u32, u32) {
        (self.width, self.height)
    }

    closed spec fn fills(&self) -> Seq<(Rect, u8)> {
        self.log@
    }

    fn bounding_size(&self) -> (r: (u32, u32)) {
        (self.width, self.height)
    }

    fn fill_solid(&mut self, area: &Rect, colour: u8) -> (r: Result<(), Exhausted>) {
        if self.log.len() >= self.limit {
            return Err(Exhausted);
        }
        self.log.push((*area, colour));
        Ok(())
    }
}

} // verus!

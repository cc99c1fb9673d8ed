//! # Console device
//! A console made of three byte streams: text output, text input and errors.
use vstd::prelude::*;

verus! {

#[verifier::external_type_specification]
#[verifier::reject_recursive_types(E)]
pub struct ExReadExactError<E>(embedded_io::ReadExactError<E>);

/// A stream that bytes are written to.
pub trait ByteSink {
    type Error;

    /// The bytes the stream has accepted so far, oldest first.
    spec fn accepted(&self) -> Seq<u8>;

    /// Writes a prefix of `bytes`, at least one byte when `bytes` is not
    /// empty, and returns its length. A failed write accepts nothing.
    fn write(&mut self, bytes: &[u8]) -> (r: Result<usize, Self::Error>)
        ensures
            r matches Ok(n) ==> {
                &&& n <= bytes@.len()
                &&& bytes@.len() > 0 ==> n > 0
                &&& final(self).accepted() == old(self).accepted() + bytes@.subrange(0, n as int)
            },
            r is Err ==> final(self).accepted() == old(self).accepted(),
    ;
}

/// A stream that bytes are read from.
pub trait ByteSource {
    type Error;

    /// The bytes the stream has handed out so far, oldest first.
    spec fn delivered(&self) -> Seq<u8>;

    /// Reads into a prefix of `dest` and returns its length.
    fn read(&mut self, dest: &mut [u8]) -> (r: Result<usize, Self::Error>)
        ensures
            final(dest)@.len() == old(dest)@.len(),
            r matches Ok(n) ==> {
                &&& n <= old(dest)@.len()
                &&& final(self).delivered() == old(self).delivered() + final(dest)@.subrange(
                    0,
                    n as int,
                )
            },
    ;

    /// Fills the whole of `dest`.
    fn read_exact(&mut self, dest: &mut [u8]) -> (r: Result<(), embedded_io::ReadExactError<Self::Error>>)
        ensures
            final(dest)@.len() == old(dest)@.len(),
            r is Ok ==> final(self).delivered() == old(self).delivered() + final(dest)@,
    ;
}

/// A byte stream as a device driver offers it, without a record of what
/// went through it.
pub trait RawSink {
    type Error;

    /// Writes a prefix of `bytes`, at least one byte when `bytes` is not
    /// empty, and returns its length.
    fn write_raw(&mut self, bytes: &[u8]) -> (r: Result<usize, Self::Error>)
        ensures
            r matches Ok(n) ==> n <= bytes@.len() && (bytes@.len() > 0 ==> n > 0),
    ;
}

/// A byte stream to read from, as a device driver offers it.
pub trait RawSource {
    type Error;

    /// Reads into a prefix of `dest` and returns its length.
    fn read_raw(&mut self, dest: &mut [u8]) -> (r: Result<usize, Self::Error>)
        ensures
            final(dest)@.len() == old(dest)@.len(),
            r matches Ok(n) ==> n <= old(dest)@.len(),
    ;

    /// Fills the whole of `dest`.
    fn read_exact_raw(&mut self, dest: &mut [u8]) -> (r: Result<(), embedded_io::ReadExactError<Self::Error>>)
        ensures
            final(dest)@.len() == old(dest)@.len(),
    ;
}

/// A raw stream `T` together with a record of the bytes that went through it.
pub struct Logged<T> {
    inner: T,
    log: Ghost<Seq<u8>>,
}

impl<T> Logged<T> {
    /// The raw stream.
    pub closed spec fn inner_spec(&self) -> T {
        self.inner
    }

    /// The bytes that went through the stream since it was wrapped.
    pub closed spec fn log(&self) -> Seq<u8> {
        self.log@
    }

    /// Wraps `inner`, with nothing recorded yet.
    pub fn new(inner: T) -> (r: Self)
        ensures
            r.inner_spec() == inner,
            r.log() == Seq::<u8>::empty(),
    {
        Logged { inner, log: Ghost(Seq::empty()) }
    }

    /// The raw stream.
    pub fn inner(&self) -> (r: &T)
        ensures
            *r == self.inner_spec(),
    {
        &self.inner
    }
}

impl<T: RawSink> ByteSink for Logged<T> {
    type Error = T::Error;

    closed spec fn accepted(&self) -> Seq<u8> {
        self.log@
    }

    fn write(&mut self, bytes: &[u8]) -> (r: Result<usize, T::Error>) {
        let r = self.inner.write_raw(bytes);
        if let Ok(n) = r {
            self.log = Ghost(self.log@ + bytes@.subrange(0, n as int));
        }
        r
    }
}

impl<T: RawSource> ByteSource for Logged<T> {
    type Error = T::Error;

    closed spec fn delivered(&self) -> Seq<u8> {
        self.log@
    }

    fn read(&mut self, dest: &mut [u8]) -> (r: Result<usize, T::Error>) {
        let r = self.inner.read_raw(dest);
        if let Ok(n) = r {
            self.log = Ghost(self.log@ + dest@.subrange(0, n as int));
        }
        r
    }

    fn read_exact(&mut self, dest: &mut [u8]) -> (r: Result<(), embedded_io::ReadExactError<T::Error>>) {
        let r = self.inner.read_exact_raw(dest);
        if r.is_ok() {
            self.log = Ghost(self.log@ + dest@);
        }
        r
    }
}

/// A console: an output stream `O`, an input stream `I` and an error stream `E`.
pub struct Console<O, I, E> {
    output: O,
    input: I,
    error: E,
}

impl<O, I, E> Console<O, I, E> {
    pub closed spec fn output(&self) -> O {
        self.output
    }

    pub closed spec fn input(&self) -> I {
        self.input
    }

    pub closed spec fn error(&self) -> E {
        self.error
    }

    /// The output stream.
    pub fn output_stream(&self) -> (r: &O)
        ensures
            *r == self.output(),
    {
        &self.output
    }

    /// The input stream.
    pub fn input_stream(&self) -> (r: &I)
        ensures
            *r == self.input(),
    {
        &self.input
    }

    /// The error stream.
    pub fn error_stream(&self) -> (r: &E)
        ensures
            *r == self.error(),
    {
        &self.error
    }

    pub fn new(output: O, input: I, error: E) -> (r: Self)
        ensures
            r.output() == output,
            r.input() == input,
            r.error() == error,
    {
        Console { output, input, error }
    }
}

impl<O: ByteSink, I, E> Console<O, I, E> {
    /// Writes `bytes` to the output stream.
    pub fn write(&mut self, bytes: &[u8]) -> (r: Result<usize, O::Error>)
        ensures
            final(self).input() == old(self).input(),
            final(self).error() == old(self).error(),
            r matches Ok(n) ==> {
                &&& n <= bytes@.len()
                &&& bytes@.len() > 0 ==> n > 0
                &&& final(self).output().accepted() == old(self).output().accepted()
                    + bytes@.subrange(0, n as int)
            },
            r is Err ==> final(self).output().accepted() == old(self).output().accepted(),
    {
        self.output.write(bytes)
    }
}

impl<O, I, E: ByteSink> Console<O, I, E> {
    /// Writes `bytes` to the error stream.
    pub fn write_error(&mut self, bytes: &[u8]) -> (r: Result<usize, E::Error>)
        ensures
            final(self).output() == old(self).output(),
            final(self).input() == old(self).input(),
            r matches Ok(n) ==> {
                &&& n <= bytes@.len()
                &&& bytes@.len() > 0 ==> n > 0
                &&& final(self).error().accepted() == old(self).error().accepted()
                    + bytes@.subrange(0, n as int)
            },
            r is Err ==> final(self).error().accepted() == old(self).error().accepted(),
    {
        self.error.write(bytes)
    }
}

impl<O, I: ByteSource, E> Console<O, I, E> {
    /// Reads from the input stream into a prefix of `dest`.
    pub fn read(&mut self, dest: &mut [u8]) -> (r: Result<usize, I::Error>)
        ensures
            final(self).output() == old(self).output(),
            final(self).error() == old(self).error(),
            final(dest)@.len() == old(dest)@.len(),
            r matches Ok(n) ==> {
                &&& n <= old(dest)@.len()
                &&& final(self).input().delivered() == old(self).input().delivered()
                    + final(dest)@.subrange(0, n as int)
            },
    {
        self.input.read(dest)
    }

    /// Fills the whole of `dest` from the input stream.
    pub fn read_exact(&mut self, dest: &mut [u8]) -> (r: Result<(), embedded_io::ReadExactError<I::Error>>)
        ensures
            final(self).output() == old(self).output(),
            final(self).error() == old(self).error(),
            final(dest)@.len() == old(dest)@.len(),
            r is Ok ==> final(self).input().delivered() == old(self).input().delivered()
                + final(dest)@,
    {
        self.input.read_exact(dest)
    }
}

} // verus!

//! Errors, the panics of the protocol decoder, and the step-by-step model of
//! decoding that the contracts are written in.

use vstd::prelude::*;
use vstd::std_specs::convert::FromSpecImpl;
use std::string::FromUtf8Error;

verus! {

/// Why a read failed.
#[derive(Debug)]
pub enum Error {
    /// A length-prefixed field ran past the end of the input.
    UnexpectedEOF,
    /// A fixed-width integer ran past the end of the input.
    Io(std::io::Error),
    /// A string field was not valid UTF-8.
    Utf8(FromUtf8Error),
}

/// The kind of an [`Error`], which is what the contracts speak of.
#[derive(Clone, Copy, Debug, PartialEq, Eq, Structural)]
pub enum ErrorKind {
    UnexpectedEof,
    Io,
    Utf8,
}

impl Error {
    pub open spec fn kind(&self) -> ErrorKind {
        match self {
            Error::UnexpectedEOF => ErrorKind::UnexpectedEof,
            Error::Io(_) => ErrorKind::Io,
            Error::Utf8(_) => ErrorKind::Utf8,
        }
    }

    /// The kind of this error.
    pub fn error_kind(&self) -> (k: ErrorKind)
        ensures
            k == self.kind(),
    {
        match self {
            Error::UnexpectedEOF => ErrorKind::UnexpectedEof,
            Error::Io(_) => ErrorKind::Io,
            Error::Utf8(_) => ErrorKind::Utf8,
        }
    }
}

impl From<std::io::Error> for Error {
    fn from(err: std::io::Error) -> (r: Self) {
        Error::Io(err)
    }
}

impl FromSpecImpl<std::io::Error> for Error {
    open spec fn obeys_from_spec() -> bool {
        true
    }

    open spec fn from_spec(err: std::io::Error) -> Self {
        Error::Io(err)
    }
}

impl From<FromUtf8Error> for Error {
    fn from(err: FromUtf8Error) -> (r: Self) {
        Error::Utf8(err)
    }
}

impl FromSpecImpl<FromUtf8Error> for Error {
    open spec fn obeys_from_spec() -> bool {
        true
    }

    open spec fn from_spec(err: FromUtf8Error) -> Self {
        Error::Utf8(err)
    }
}

/// The result of a read.
pub type Result<T> = core::result::Result<T, Error>;

/// An input on which the decoder of the protocol gives up without an error
/// value: the response, or a field of it, is one that the decoder has no way
/// to represent. The public readers require inputs without one; the
/// `decode_*` functions report it.
#[derive(Clone, Copy, Debug, PartialEq, Eq, Structural)]
pub enum Fault {
    /// A response opcode that the decoder does not handle (`SUPPORTED`,
    /// `EXECUTE`, `EVENT`).
    InvalidResponse,
    /// A `RESULT` response whose kind code is not one of 1 to 5.
    UnknownResultCode(u32),
    /// An `int` column whose length is neither -1 nor 4.
    InvalidIntLength(i32),
    /// A `float` column whose length is neither -1 nor 4.
    InvalidFloatLength(i32),
    /// A `double` column whose length is neither -1 nor 4.
    InvalidDoubleLength(i32),
    /// A non-null `list` column.
    ListNotImplemented,
    /// A length prefix below -1, which cannot be allocated.
    CapacityOverflow,
}

/// The outcome of a decoder: a value, an error, or a fault.
#[derive(Debug)]
pub enum Decoded<T> {
    Value(T),
    Failed(Error),
    Panicked(Fault),
}

/// One step of the decoding model: the value read and the position after it,
/// the kind of error and the position the reader is left at, or the fault.
pub enum Step<T> {
    Done(T, int),
    Fail(ErrorKind, int),
    Fault(Fault),
}

impl<T> Step<T> {
    /// The same failure or fault, for a step of another type. The decoding
    /// model casts only steps that did not finish.
    pub open spec fn cast<U>(self) -> Step<U> {
        match self {
            Step::Fail(k, p) => Step::Fail(k, p),
            Step::Fault(f) => Step::Fault(f),
            Step::Done(_, p) => Step::Fail(ErrorKind::Io, p),
        }
    }

    pub open spec fn is_fault(self) -> bool {
        self is Fault
    }
}

/// The mathematical value of a decoded object, which contracts compare with
/// the decoding model.
pub trait Model {
    type M;

    spec fn model(&self) -> Self::M;
}

impl Model for u8 {
    type M = u8;

    open spec fn model(&self) -> u8 {
        *self
    }
}

impl Model for u16 {
    type M = u16;

    open spec fn model(&self) -> u16 {
        *self
    }
}

impl Model for i16 {
    type M = i16;

    open spec fn model(&self) -> i16 {
        *self
    }
}

impl Model for u32 {
    type M = u32;

    open spec fn model(&self) -> u32 {
        *self
    }
}

impl Model for i32 {
    type M = i32;

    open spec fn model(&self) -> i32 {
        *self
    }
}

impl Model for u64 {
    type M = u64;

    open spec fn model(&self) -> u64 {
        *self
    }
}

impl Model for i64 {
    type M = i64;

    open spec fn model(&self) -> i64 {
        *self
    }
}

impl<A: Model, B: Model> Model for (A, B) {
    type M = (A::M, B::M);

    open spec fn model(&self) -> (A::M, B::M) {
        (self.0.model(), self.1.model())
    }
}

impl Model for Vec<u8> {
    type M = Seq<u8>;

    open spec fn model(&self) -> Seq<u8> {
        self@
    }
}

impl Model for String {
    type M = Seq<char>;

    open spec fn model(&self) -> Seq<char> {
        self@
    }
}

impl Model for Option<String> {
    type M = Option<Seq<char>>;

    open spec fn model(&self) -> Option<Seq<char>> {
        match self {
            Some(s) => Some(s@),
            None => None,
        }
    }
}

/// `r` is what the step `st` describes, and `pos` the position the reader
/// is left at.
pub open spec fn result_agrees<T: Model>(r: Result<T>, st: Step<T::M>, pos: int) -> bool {
    match st {
        Step::Done(v, p) => r matches Ok(x) && x.model() == v && pos == p,
        Step::Fail(k, p) => r matches Err(e) && e.kind() == k && pos == p,
        Step::Fault(_) => false,
    }
}

/// `r` is what the step `st` describes, faults included, and `pos` the
/// position the reader is left at (after a fault, none is described).
pub open spec fn decoded_agrees<T: Model>(r: Decoded<T>, st: Step<T::M>, pos: int) -> bool {
    match st {
        Step::Done(v, p) => r matches Decoded::Value(x) && x.model() == v && pos == p,
        Step::Fail(k, p) => r matches Decoded::Failed(e) && e.kind() == k && pos == p,
        Step::Fault(f) => r matches Decoded::Panicked(g) && g == f,
    }
}

} // verus!

//! Schema decode failures: the exact field path at which decoding failed,
//! and the underlying cause.

use vstd::prelude::*;

verus! {

/// One segment of a field path: a named object field or a list index.
#[derive(Debug, Clone, PartialEq, Eq)]
pub enum PathSeg {
    Field(String),
    At(usize),
}

/// The mathematical shape of a path segment.
pub enum PathSegV {
    Field(Seq<char>),
    At(int),
}

impl View for PathSeg {
    type V = PathSegV;

    open spec fn view(&self) -> PathSegV {
        match self {
            PathSeg::Field(name) => PathSegV::Field(name@),
            PathSeg::At(i) => PathSegV::At(*i as int),
        }
    }
}

/// Why a decode failed at the path it names.
#[derive(Debug, Clone, PartialEq, Eq)]
pub enum Cause {
    /// The payload is not well-formed JSON; carries the parser's words.
    Syntax(String),
    /// A field is present with a value of an incompatible shape.
    WrongType,
    /// A required field is absent.
    MissingField,
    /// The required name is present but empty.
    EmptyName,
    /// A duration field holds a text that is not in the duration format.
    BadDuration,
    /// An image field holds a text that is not a parseable URL.
    BadUrl,
}

/// The mathematical shape of a cause.
pub enum CauseV {
    Syntax(Seq<char>),
    WrongType,
    MissingField,
    EmptyName,
    BadDuration,
    BadUrl,
}

impl View for Cause {
    type V = CauseV;

    open spec fn view(&self) -> CauseV {
        match self {
            Cause::Syntax(words) => CauseV::Syntax(words@),
            Cause::WrongType => CauseV::WrongType,
            Cause::MissingField => CauseV::MissingField,
            Cause::EmptyName => CauseV::EmptyName,
            Cause::BadDuration => CauseV::BadDuration,
            Cause::BadUrl => CauseV::BadUrl,
        }
    }
}

/// A schema decode failure: the dotted/indexed field path at which decoding
/// failed, and the underlying cause.
#[derive(Debug, Clone, PartialEq, Eq)]
pub struct DecodeError {
    pub path: Vec<PathSeg>,
    pub cause: Cause,
}

/// The mathematical shape of a decode failure.
#[verifier::ext_equal]
pub struct ErrV {
    pub path: Seq<PathSegV>,
    pub cause: CauseV,
}

impl View for DecodeError {
    type V = ErrV;

    open spec fn view(&self) -> ErrV {
        ErrV { path: Seq::new(self.path@.len(), |i: int| self.path@[i]@), cause: self.cause@ }
    }
}

impl DeepView for DecodeError {
    type V = ErrV;

    open spec fn deep_view(&self) -> ErrV {
        self@
    }
}

/// A decode failure at the whole payload, with no path.
pub open spec fn top_err(cause: CauseV) -> ErrV {
    ErrV { path: Seq::empty(), cause }
}

/// A decode failure at a named field.
pub open spec fn field_err_v(key: Seq<char>, cause: CauseV) -> ErrV {
    ErrV { path: seq![PathSegV::Field(key)], cause }
}

/// A decode failure at an index within a named field.
pub open spec fn index_err_v(key: Seq<char>, i: int, cause: CauseV) -> ErrV {
    ErrV { path: seq![PathSegV::Field(key), PathSegV::At(i)], cause }
}

/// Build a decode failure at a named field.
pub(crate) fn field_err(key: &str, cause: Cause) -> (e: DecodeError)
    ensures
        e@ == field_err_v(key@, cause@),
{
    let mut path: Vec<PathSeg> = Vec::new();
    path.push(PathSeg::Field(key.to_owned()));
    let e = DecodeError { path, cause };
    proof {
        assert(e@ =~= field_err_v(key@, e.cause@));
    }
    e
}

/// Build a decode failure at an index within a named field.
pub(crate) fn index_err(key: &str, i: usize, cause: Cause) -> (e: DecodeError)
    ensures
        e@ == index_err_v(key@, i as int, cause@),
{
    let mut path: Vec<PathSeg> = Vec::new();
    path.push(PathSeg::Field(key.to_owned()));
    path.push(PathSeg::At(i));
    let e = DecodeError { path, cause };
    proof {
        assert(e@ =~= index_err_v(key@, i as int, e.cause@));
    }
    e
}

} // verus!

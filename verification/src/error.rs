//! The errors of terminal operations.

use vstd::prelude::*;
use crate::chars::CharStreamError;

verus! {

/// The error of a failed system call, as the `nix` crate reports it.
#[verifier::external_type_specification]
#[verifier::external_body]
pub struct ExErrno(nix::errno::Errno);

/// Which stage of the terminal's work failed.
#[derive(Debug, Copy, Clone, PartialEq, Eq, Structural)]
pub enum ErrorKind {
    /// The terminal type is unset or unsupported, or the terminal lacks a
    /// capability that the engine cannot do without.
    Environment,
    /// A system call failed.
    Os,
    /// Input bytes were not valid UTF-8.
    Encoding,
    /// A terminal was asked for while another one was live.
    State,
    /// Anything else.
    Other,
}

/// An error of the terminal device layer: a failed system call, or a
/// terminal that cannot be driven.
#[derive(Debug, Copy, Clone, PartialEq, Eq)]
pub struct TtyError {
    pub description: &'static str,
}

/// The wording that the `nix` crate has for the error with a number, as
/// `nix::errno::Errno::desc` gives it.
pub uninterp spec fn errno_text(code: int) -> Seq<char>;

/// Calls `nix::errno::Errno::desc`, which gives the wording for an error
/// by a table of its own, and hands the number of the error back with the
/// wording. The wording is only named: it is what `errno_text` stands for
/// at that number.
#[verifier::external_body]
fn errno_desc(e: nix::errno::Errno) -> (r: (i32, &'static str))
    ensures
        r.1@ == errno_text(r.0 as int),
{
    (e as i32, e.desc())
}

impl TtyError {
    /// An error with the given description.
    pub fn new(desc: &'static str) -> (e: TtyError)
        ensures
            e.description == desc,
    {
        TtyError { description: desc }
    }

    /// The error of a failed system call: its description is the wording
    /// that the `nix` crate has for the number of the error.
    pub fn from_nix(e: nix::errno::Errno) -> (err: TtyError)
        ensures
            exists|code: i32| err.description@ == #[trigger] errno_text(code as int),
    {
        let (code, desc) = errno_desc(e);
        assert(desc@ == errno_text(code as int));
        TtyError::new(desc)
    }

    /// What went wrong, in words.
    pub fn description(&self) -> (d: &'static str)
        ensures
            d == self.description,
    {
        self.description
    }
}

/// An error of a terminal operation: the stage that failed and a
/// description.
#[derive(Debug, Copy, Clone, PartialEq, Eq)]
pub struct Error {
    pub kind: ErrorKind,
    pub description: &'static str,
}

impl Error {
    /// An error of no particular stage with the given description.
    pub fn new(desc: &'static str) -> (e: Error)
        ensures
            e == (Error { kind: ErrorKind::Other, description: desc }),
    {
        Error { kind: ErrorKind::Other, description: desc }
    }

    /// An error of the given stage with the given description.
    pub fn with_kind(kind: ErrorKind, desc: &'static str) -> (e: Error)
        ensures
            e == (Error { kind, description: desc }),
    {
        Error { kind, description: desc }
    }

    /// The error that stands for a failure to read a character.
    pub fn from_char_stream(err: CharStreamError) -> (e: Error)
        ensures
            e == spec_from_char_stream(err),
    {
        match err {
            CharStreamError::NotUtf8 => Error::with_kind(
                ErrorKind::Encoding,
                "utf8 encoding error",
            ),
            CharStreamError::Other(_) => Error::with_kind(ErrorKind::Os, "internal io error"),
        }
    }

    /// The stage that failed.
    pub fn kind(&self) -> (k: ErrorKind)
        ensures
            k == self.kind,
    {
        self.kind
    }

    /// What went wrong, in words.
    pub fn description(&self) -> (d: &'static str)
        ensures
            d == self.description,
    {
        self.description
    }
}

impl From<TtyError> for Error {
    /// A device error is an error of the system-call stage and keeps its
    /// description.
    fn from(err: TtyError) -> (e: Error) {
        Error { kind: ErrorKind::Os, description: err.description }
    }
}

impl vstd::std_specs::convert::FromSpecImpl<TtyError> for Error {
    open spec fn obeys_from_spec() -> bool {
        true
    }

    open spec fn from_spec(err: TtyError) -> Error {
        Error { kind: ErrorKind::Os, description: err.description }
    }
}

/// The error that stands for a failure to read a character: bytes that
/// are no UTF-8 make an error of the encoding stage, a failed read makes
/// one of the system-call stage.
pub open spec fn spec_from_char_stream(err: CharStreamError) -> Error {
    match err {
        CharStreamError::NotUtf8 => Error {
            kind: ErrorKind::Encoding,
            description: "utf8 encoding error",
        },
        CharStreamError::Other(_) => Error { kind: ErrorKind::Os, description: "internal io error" },
    }
}

} // verus!

//! Error codes shared by every fallible operation of the library.

use vstd::prelude::*;

verus! {

/// The error kinds that the session document operations can report.
#[derive(Debug)]
pub enum Errcode {
    ArgValidationError(&'static str),
    JsonError(String),
    FileError(String),
    ParsingError(String),
    EnvError(u8),
    OptionNotFound(String),
    IndexOutOfRange(usize, usize),
    WindowNotFound(usize, usize),
}

/// The payload-free shape of an `Errcode`, used by specifications that care
/// about which kind of failure occurred but not about diagnostic text.
pub ghost enum ErrKind {
    ArgValidation,
    Json,
    File,
    Parsing,
    Env,
    OptionNotFound,
    IndexOutOfRange(nat, nat),
    WindowNotFound(nat, nat),
}

/// Does the error value `e` carry the kind `k`?
pub open spec fn err_is(e: Errcode, k: ErrKind) -> bool {
    match e {
        Errcode::ArgValidationError(_) => k is ArgValidation,
        Errcode::JsonError(_) => k is Json,
        Errcode::FileError(_) => k is File,
        Errcode::ParsingError(_) => k is Parsing,
        Errcode::EnvError(_) => k is Env,
        Errcode::OptionNotFound(_) => k is OptionNotFound,
        Errcode::IndexOutOfRange(i, b) => k == ErrKind::IndexOutOfRange(i as nat, b as nat),
        Errcode::WindowNotFound(i, b) => k == ErrKind::WindowNotFound(i as nat, b as nat),
    }
}

} // verus!

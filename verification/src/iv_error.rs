//! Failures of the implied-volatility solver and how they are reported to
//! the Python layer.

use vstd::prelude::*;

verus! {

/// IV solver error.
#[derive(Debug, Clone, Copy, PartialEq, Eq, Structural)]
pub enum IvError {
    /// Quoted price is below intrinsic value (no real IV exists).
    BelowIntrinsic,
    /// Quoted price exceeds the theoretical maximum (forward for call, K for put).
    AboveMaximum,
    /// Solver did not converge within iteration budget (should not occur for in-bounds prices).
    NotConverged,
}

/// The class of Python exception that a failure is raised as.
#[derive(Debug, Clone, Copy, PartialEq, Eq, Structural)]
pub enum ErrorKind {
    /// An argument is out of the domain of the function (`ValueError`).
    ValueError,
    /// The computation itself failed (`RuntimeError`).
    RuntimeError,
}

/// A failure as it reaches the caller: the exception class and its message.
#[derive(Debug, Clone, Copy, PartialEq, Eq)]
pub struct ErrorReport {
    /// The exception class.
    pub kind: ErrorKind,
    /// The exception's message.
    pub message: &'static str,
}

/// Reports a solver failure: a quote out of bounds is the caller's error
/// (`ValueError`); a solver that did not converge failed itself
/// (`RuntimeError`).
pub fn iv_err(e: IvError) -> (report: ErrorReport)
    ensures
        report.kind == (match e {
            IvError::NotConverged => ErrorKind::RuntimeError,
            _ => ErrorKind::ValueError,
        }),
        e == IvError::BelowIntrinsic ==> report.message@ == "price is below intrinsic value"@,
        e == IvError::AboveMaximum ==> report.message@ == "price exceeds theoretical maximum"@,
        e == IvError::NotConverged ==> report.message@ == "IV solver failed to converge"@,
{
    match e {
        IvError::BelowIntrinsic => ErrorReport {
            kind: ErrorKind::ValueError,
            message: "price is below intrinsic value",
        },
        IvError::AboveMaximum => ErrorReport {
            kind: ErrorKind::ValueError,
            message: "price exceeds theoretical maximum",
        },
        IvError::NotConverged => ErrorReport {
            kind: ErrorKind::RuntimeError,
            message: "IV solver failed to converge",
        },
    }
}

} // verus!

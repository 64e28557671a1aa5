//! Option-type flags, solver error classes and the batch driver of the
//! OpenGreeks pricing library.
//!
//! The numerical models (Black-76, Black-Scholes, Black-Scholes-Merton) work
//! on IEEE floats and live beside this crate; this crate holds the parts of
//! the library that decide on discrete values: how a flag is read, how a
//! solver failure is reported, and how a chain of options is evaluated
//! element by element.

pub mod option_type;
pub mod chain;
pub mod iv_error;

pub use option_type::{OptionType, FlagError, parse_flag};
pub use chain::{run_chain, LengthMismatch};
pub use iv_error::{iv_err, ErrorKind, ErrorReport, IvError};

//! The option type (call or put) and how it is read from a flag.

use vstd::prelude::*;

verus! {

/// Option type. `Call` ↔ `is_call = true`, `Put` ↔ `is_call = false`.
#[derive(Debug, Clone, Copy, PartialEq, Eq, Structural)]
pub enum OptionType {
    /// Call option (right to buy).
    Call,
    /// Put option (right to sell).
    Put,
}

/// The option type that a single-character flag names, if any:
/// `'c'`/`'C'` name a call, `'p'`/`'P'` a put, and no other character
/// names anything.
pub open spec fn flag_option_type(flag: char) -> Option<OptionType> {
    if flag == 'c' || flag == 'C' {
        Some(OptionType::Call)
    } else if flag == 'p' || flag == 'P' {
        Some(OptionType::Put)
    } else {
        None
    }
}

impl OptionType {
    /// Parse from a single-character flag: `'c'`/`'C'` → Call, `'p'`/`'P'` → Put.
    pub fn from_flag(flag: char) -> (res: Option<Self>)
        ensures
            res == flag_option_type(flag),
    {
        match flag {
            'c' | 'C' => Some(OptionType::Call),
            'p' | 'P' => Some(OptionType::Put),
            _ => None,
        }
    }
}

/// Why a textual flag names no option type.
#[derive(Debug, Clone, Copy, PartialEq, Eq, Structural)]
pub enum FlagError {
    /// The flag is the empty string.
    Empty,
    /// The flag's first character is none of `c`, `C`, `p`, `P`.
    Unrecognized,
}

/// What reading a textual flag gives: only its first character counts.
pub open spec fn parse_flag_spec(flag: Seq<char>) -> Result<OptionType, FlagError> {
    if flag.len() == 0 {
        Err(FlagError::Empty)
    } else {
        match flag_option_type(flag[0]) {
            Some(opt) => Ok(opt),
            None => Err(FlagError::Unrecognized),
        }
    }
}

/// Reads an option type from a textual flag such as `"c"`, `"put"` or
/// `"Call"`: the first character decides, by the rule of
/// [`OptionType::from_flag`]; an empty flag is an error of its own.
pub fn parse_flag(flag: &str) -> (res: Result<OptionType, FlagError>)
    ensures
        res == parse_flag_spec(flag@),
{
    broadcast use vstd::string::group_string_axioms;
    let mut chars = flag.chars();
    match chars.next() {
        None => Err(FlagError::Empty),
        Some(c) => match OptionType::from_flag(c) {
            Some(opt) => Ok(opt),
            None => Err(FlagError::Unrecognized),
        },
    }
}

/// Only the first character of a flag is read: two non-empty flags that
/// begin with the same character read as the same option type, or fail
/// alike.
pub proof fn lemma_parse_flag_reads_first_char(a: Seq<char>, b: Seq<char>)
    requires
        a.len() > 0,
        b.len() > 0,
        a[0] == b[0],
    ensures
        parse_flag_spec(a) == parse_flag_spec(b),
{
}

} // verus!

use vstd::prelude::*;
use vstd::string::*;

verus! {

/// Why a decimal integer could not be read.
#[derive(Clone, Copy, Debug, PartialEq, Eq, Structural)]
pub enum IntFault {
    Empty,
    InvalidDigit,
    PosOverflow,
}

/// Every fault that a command can end in.
#[derive(Debug)]
pub enum AstroPhiError {
    /// A rule of this service was broken: an unknown setting, a failed solve.
    Internal,
    /// The camera driver failed; the text names the kind of failure.
    GPhoto2(String),
    /// A decimal integer could not be read.
    ParseInt(IntFault),
    /// A decimal fraction could not be read; the text says why.
    ParseFloat(String),
    /// A file or process operation failed; the text names the kind of failure.
    StdIO(String),
}

pub open spec fn int_fault_text(k: IntFault) -> Seq<char> {
    match k {
        IntFault::Empty => "cannot parse integer from empty string"@,
        IntFault::InvalidDigit => "invalid digit found in string"@,
        IntFault::PosOverflow => "number too large to fit in target type"@,
    }
}

/// The short diagnostic that the service boundary reports for a fault.
pub open spec fn error_text_of(e: AstroPhiError) -> Seq<char> {
    match e {
        AstroPhiError::Internal => "Astrophi internal error"@,
        AstroPhiError::GPhoto2(s) => s@,
        AstroPhiError::ParseInt(k) => int_fault_text(k),
        AstroPhiError::ParseFloat(s) => s@,
        AstroPhiError::StdIO(s) => s@,
    }
}

impl AstroPhiError {
    /// The diagnostic text sent back to a caller; no internal structure leaks.
    pub fn error_text(&self) -> (r: String)
        ensures
            r@ == error_text_of(*self),
    {
        match self {
            AstroPhiError::Internal => String::from_str("Astrophi internal error"),
            AstroPhiError::GPhoto2(s) => s.clone(),
            AstroPhiError::ParseInt(k) => match k {
                IntFault::Empty => String::from_str("cannot parse integer from empty string"),
                IntFault::InvalidDigit => String::from_str("invalid digit found in string"),
                IntFault::PosOverflow => String::from_str("number too large to fit in target type"),
            },
            AstroPhiError::ParseFloat(s) => s.clone(),
            AstroPhiError::StdIO(s) => s.clone(),
        }
    }
}

} // verus!

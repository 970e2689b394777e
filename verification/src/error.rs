//! The ways in which reading, parsing and writing sysfs attributes can fail.

use vstd::prelude::*;

verus! {

/// Why a file could not be read or written.
#[derive(Debug, Clone, Copy, PartialEq, Eq, Hash, Structural)]
pub enum IoError {
    /// The file does not exist; a CPU may lack the attribute altogether.
    NotFound,
    /// The caller lacks the privilege for the operation.
    PermissionDenied,
    /// Any other failure of the operation.
    Other,
}

/// Why a text was rejected.
#[derive(Debug, Clone, Copy, PartialEq, Eq, Hash, Structural)]
pub enum ParseError {
    /// A segment of a CPU list holds more than one hyphen.
    MalformedRange,
    /// A bound of a segment of a CPU list is not an index.
    NonNumeric,
    /// The right bound of a range is below its left bound.
    RightLessThanLeft,
    /// A token is not in the vocabulary of its attribute.
    UnknownToken,
}

/// Why an attribute could not be obtained.
#[derive(Debug, Clone, Copy, PartialEq, Eq, Hash, Structural)]
pub enum SysfsError {
    /// The file could not be read.
    Io(IoError),
    /// The file was read and its content rejected.
    Parse(ParseError),
}

} // verus!

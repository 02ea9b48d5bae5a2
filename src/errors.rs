use vstd::prelude::*;

verus! {

/// The kinds of failure that a colour query can report.
#[derive(Debug, Clone, Copy, PartialEq, Eq, Structural)]
pub enum ErrorKind {
    /// The profile holds a number of calibration illuminants other than one, two or three.
    InvalidColorSpec(usize),
    /// A chromaticity could not be mapped to a correlated colour temperature.
    InvalidTemperature,
    /// A blended forward matrix was asked for, but a stored slot is empty.
    MissingForwardMatrices,
    /// A blended reduction matrix was asked for, but a stored slot is empty.
    MissingReductionMatrices,
}

/// A typed, inspectable failure of one query.
#[derive(Debug, Clone, Copy, PartialEq, Eq, Structural)]
pub struct Error {
    kind: ErrorKind,
}

impl Error {
    /// The kind that this error carries.
    pub closed spec fn spec_kind(&self) -> ErrorKind {
        self.kind
    }

    pub fn new(kind: ErrorKind) -> (r: Self)
        ensures
            r.spec_kind() == kind,
    {
        Self { kind }
    }

    pub fn kind(&self) -> (r: ErrorKind)
        ensures
            r == self.spec_kind(),
    {
        self.kind
    }
}

} // verus!

use vstd::prelude::*;

verus! {

/// Why a load failed: the file could not be read, the text was not
/// well-formed under the document grammar, or the document was well-formed
/// but did not match the expected shape.  Every variant carries the
/// human-readable cause of the underlying failure.
#[derive(Debug)]
pub enum LoadError {
    IoFailure { cause: String },
    ParseError { cause: String },
    SchemaMismatch { cause: String },
}

impl LoadError {
    /// The cause carried by the error, whichever kind it is.
    pub open spec fn spec_cause(&self) -> Seq<char> {
        match self {
            LoadError::IoFailure { cause } => cause@,
            LoadError::ParseError { cause } => cause@,
            LoadError::SchemaMismatch { cause } => cause@,
        }
    }

    /// The human-readable cause of the underlying failure.
    pub fn cause(&self) -> (r: &String)
        ensures
            r@ == self.spec_cause(),
    {
        match self {
            LoadError::IoFailure { cause } => cause,
            LoadError::ParseError { cause } => cause,
            LoadError::SchemaMismatch { cause } => cause,
        }
    }
}

} // verus!

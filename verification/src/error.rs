use vstd::prelude::*;
use vstd::string::StringExecFns;

verus! {

/// Error type to simplify propagating different error types.
#[derive(Debug)]
pub enum Error {
    /// Error while building sql.
    SQLBuildError(String),
}

impl Error {
    /// The human-readable description of this error.
    pub fn description(&self) -> (r: String)
        ensures
            r@ == "sql build error: "@ + (match self {
                Error::SQLBuildError(m) => m@,
            }),
    {
        let mut s = String::new();
        s.append("sql build error: ");
        match self {
            Error::SQLBuildError(m) => {
                s.append(m.as_str());
            },
        }
        s
    }
}

} // verus!

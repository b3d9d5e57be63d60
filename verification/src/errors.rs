//! Error taxonomy of the harness: fatal binding failures raised while a
//! dynamic object is opened and resolved, and fatal usage failures raised
//! while the command line is read.  There is no retry policy anywhere: every
//! variant reflects a setup or usage mistake.

use vstd::prelude::*;

verus! {

/// A failure while turning a symbol table into a binding: either a dynamic
/// object could not be opened at all, or one required entry point was missing
/// from it.  Construction of a binding fails as a whole; no partial binding
/// is ever handed out.
pub enum BindingError {
    /// A dynamic object was not found or could not be opened at `path`.
    ObjectNotFound { path: String },
    /// The required entry point `symbol` was not found in its object.
    SymbolNotFound { symbol: String },
}

impl BindingError {
    /// A human-readable message; it names the offending path or symbol in
    /// full, so that a missing symbol is identifiable from the report alone.
    pub fn describe(&self) -> (m: String)
        ensures
            (self matches BindingError::ObjectNotFound { path }
                ==> m@ == "dynamic object not found: "@ + path@),
            (self matches BindingError::SymbolNotFound { symbol }
                ==> m@ == "symbol not found: "@ + symbol@),
    {
        match self {
            BindingError::ObjectNotFound { path } => {
                String::from_str("dynamic object not found: ").concat(path.as_str())
            },
            BindingError::SymbolNotFound { symbol } => {
                String::from_str("symbol not found: ").concat(symbol.as_str())
            },
        }
    }
}

/// A failure while reading the command line: the harness takes exactly one
/// positional argument, the name of a coordination scenario.
pub enum UsageError {
    /// The command line held `given` positional arguments instead of one.
    WrongArgumentCount { given: usize },
    /// The single positional argument named no known scenario.
    UnknownScenario { name: String },
}

impl UsageError {
    /// A human-readable message naming the invalid input.
    pub fn describe(&self) -> (m: String)
        ensures
            (self matches UsageError::WrongArgumentCount { given }
                ==> m@ == "expected exactly one scenario name"@),
            (self matches UsageError::UnknownScenario { name }
                ==> m@ == "unknown scenario: "@ + name@),
    {
        match self {
            UsageError::WrongArgumentCount { given: _ } => {
                String::from_str("expected exactly one scenario name")
            },
            UsageError::UnknownScenario { name } => {
                String::from_str("unknown scenario: ").concat(name.as_str())
            },
        }
    }
}

} // verus!

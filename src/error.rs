use vstd::prelude::*;

verus! {

/// Why an invocation could not be turned into a command line.
#[derive(Debug, PartialEq, Eq)]
pub enum CaiError {
    /// The invocation names no alias.
    MissingCommand,
    /// No entry of the mapping has this alias as its key.
    UnknownAlias(String),
    /// The configuration file does not exist or could not be read.
    ConfigNotFound,
    /// The configuration file is not a flat mapping from strings to strings.
    ConfigMalformed,
}

} // verus!

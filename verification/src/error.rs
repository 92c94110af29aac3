//! What can go wrong.

use vstd::prelude::*;

verus! {

/// Why captured output could not be turned into an index.
#[derive(Debug, Clone, Copy, PartialEq, Eq, Structural)]
pub enum ParseError {
    /// The bytes are not a JSON document.
    Syntax,
    /// The document is JSON, but not of the shape the tool prints.
    Shape,
}

/// Why a run of the tool gave no answer.
#[derive(Debug)]
pub enum FlakeShowError<E> {
    /// The tool could not be started; `E` is what the launcher reported.
    Launch(E),
    /// The tool ran and succeeded, but what it printed could not be read.
    Parse(ParseError),
}

} // verus!

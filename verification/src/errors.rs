use vstd::prelude::*;

verus! {

/// The error taxonomy of the importer. Invalid headers are not errors:
/// the pipeline treats them as missing and closes gracefully.
#[derive(Clone, Debug, PartialEq, Eq)]
pub enum ImportError {
    /// The peer-to-peer transport failed.
    Transport(String),
    /// The consensus evaluator's own machinery failed (not a rejected seal).
    ConsensusEvaluator(String),
    /// Executing or committing a block failed.
    Executor(String),
    /// Internal task or channel plumbing failed.
    Internal(String),
}

} // verus!

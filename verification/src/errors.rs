//! The error taxonomy of the derivation engine. Every failure is detected
//! while deriving and aborts emission for the offending declaration; no
//! partial artifact is ever produced.

use vstd::prelude::*;

verus! {

/// A failure detected while deriving a mirror type.
#[derive(Debug, Clone, PartialEq, Eq)]
pub enum DeriveError {
    /// A directive does not have its required shape, or its name is unknown.
    /// Holds the offending directive name and the expected shape.
    DirectiveSyntax { directive: String, expected: String },
    /// Container directives that may not occur together. Holds the names of
    /// every directive conflicting with the raw-reinterpretation marker, so
    /// that all conflicts surface at once.
    IllegalDirectiveCombination { conflicting: Vec<String> },
    /// A field type of a shape the rewriter does not handle.
    UnsupportedFieldType { kind: UnsupportedKind },
    /// A generic binding whose length differs from the declaration's own
    /// list of generic type parameters.
    GenericArityMismatch { expected: usize, found: usize },
    /// An override directive whose argument is not a usable expression.
    MalformedOverrideExpression { directive: String },
    /// A conversion override used on a declaration with no linked source.
    MissingLinkedSource,
}

/// A type-expression shape the rewriter refuses rather than guesses about.
#[derive(Debug, Clone, Copy, PartialEq, Eq, Structural)]
pub enum UnsupportedKind {
    RawPointer,
    FunctionPointer,
    TraitObject,
    Inferred,
    MacroProduced,
    Never,
}

impl DeriveError {
    /// A short description of the failure, for diagnostics.
    pub fn message(&self) -> (r: String)
        ensures
            r@.len() > 0,
    {
        proof {
            reveal_strlit("malformed directive");
            reveal_strlit("conflicting container directives");
            reveal_strlit("unsupported field type shape");
            reveal_strlit("generic binding arity mismatch");
            reveal_strlit("malformed override expression");
            reveal_strlit("conversion override without a linked source type");
        }
        match self {
            DeriveError::DirectiveSyntax { .. } => "malformed directive".to_owned(),
            DeriveError::IllegalDirectiveCombination { .. } => "conflicting container directives"
                .to_owned(),
            DeriveError::UnsupportedFieldType { .. } => "unsupported field type shape".to_owned(),
            DeriveError::GenericArityMismatch { .. } => "generic binding arity mismatch"
                .to_owned(),
            DeriveError::MalformedOverrideExpression { .. } => "malformed override expression"
                .to_owned(),
            DeriveError::MissingLinkedSource => "conversion override without a linked source type"
                .to_owned(),
        }
    }
}

} // verus!

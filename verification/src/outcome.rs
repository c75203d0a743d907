use vstd::prelude::*;

verus! {

/// Why a parse attempt did not produce a value.
#[derive(Clone, Copy, Debug, Hash, PartialEq, Eq, Structural)]
pub enum ParseErrorKind {
    /// The input at the given position does not fit the grammar rule; an
    /// enclosing alternation is free to try its next branch.
    NoMatch,
    /// A numeric width field was not a decimal number fitting 16 bits.
    MalformedWidth,
    /// A table reference carried an alias where the statement forbids one.
    AliasNotAllowed,
}

/// A failed parse: either a structured failure at an input position, or a
/// report that at least `n` more bytes are needed before the rule can decide.
#[derive(Clone, Copy, Debug, Hash, PartialEq, Eq, Structural)]
pub enum ParseFail {
    Failure(ParseErrorKind, usize),
    Incomplete(usize),
}

/// The mathematical outcome of a grammar rule applied to an input at a
/// position: success carries the position of the unconsumed remainder and the
/// parsed value.
pub enum SpecOutcome<V> {
    Success(int, V),
    Failure(ParseErrorKind, int),
    Incomplete(int),
}

/// The outcome that an executable parse result denotes, with positions
/// widened and the value abstracted to its view.
pub open spec fn outcome_of<T: DeepView>(r: Result<(usize, T), ParseFail>) -> SpecOutcome<
    T::V,
> {
    match r {
        Ok((j, v)) => SpecOutcome::Success(j as int, v.deep_view()),
        Err(ParseFail::Failure(k, p)) => SpecOutcome::Failure(k, p as int),
        Err(ParseFail::Incomplete(n)) => SpecOutcome::Incomplete(n as int),
    }
}

/// Ordered alternation: the second branch is consulted exactly when the first
/// fails recoverably; hard failures and incompleteness are propagated.
pub open spec fn alt_outcome<V>(a: SpecOutcome<V>, b: SpecOutcome<V>) -> SpecOutcome<V> {
    match a {
        SpecOutcome::Failure(k, p) => if k == ParseErrorKind::NoMatch {
            b
        } else {
            a
        },
        _ => a,
    }
}

} // verus!

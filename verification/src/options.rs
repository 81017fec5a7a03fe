//! What a division is computed for, and how it treats a zero denominator.

use vstd::prelude::*;

verus! {

/// The statistic that a division computes.
#[derive(Clone, Copy, Debug, PartialEq, Eq, Structural)]
pub enum Metric {
    /// The F-beta score with beta = 0.5.
    F05,
    /// The F-beta score with beta = 1.
    F1,
    /// True positives over predicted positives.
    Precision,
    /// True positives over actual positives.
    Recall,
}

/// Which count the denominator of a division stands for.
#[derive(Clone, Copy, Debug, PartialEq, Eq, Structural)]
pub enum Modifier {
    /// The number of samples predicted to be of the class.
    Predicted,
    /// The number of samples that are of the class.
    True,
}

/// How the scores of the classes are combined.
#[derive(Clone, Copy, Debug, PartialEq, Eq, Structural)]
pub enum Average {
    /// Not at all: one score per class.
    PerClass,
    /// The counts are summed over the classes, then scored once.
    Micro,
    /// The unweighted mean of the scores of the classes.
    Macro,
    /// The mean of the scores of the classes, each weighted by its support.
    Weighted,
}

/// What a division does when a denominator is zero.
#[derive(Clone, Copy, Debug, PartialEq, Eq, Structural)]
pub enum DivisionByZeroStrategy {
    /// The quotient at that place is the fallback value, zero.
    ReplaceWithFallback,
    /// The division fails.
    ReturnError,
}

impl Default for DivisionByZeroStrategy {
    fn default() -> (s: Self)
        ensures
            s == DivisionByZeroStrategy::ReplaceWithFallback,
    {
        DivisionByZeroStrategy::ReplaceWithFallback
    }
}

} // verus!

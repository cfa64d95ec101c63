//! The remaining-match budget shared by every kind of rule.

use vstd::prelude::*;

verus! {

/// How many more times a rule may match. A rule without a lifetime is
/// unlimited; `Matches(0)` is exhausted and must never match again.
#[derive(Debug, Clone, Copy, PartialEq, Eq, Structural)]
pub enum RuleLifetime {
    Matches(u64),
}

} // verus!

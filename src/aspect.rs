//! Aspects: independently written bundles of synchronization rules.
use vstd::prelude::*;
use crate::rules::{ExecuteOn, Operation, Transform};
use crate::variable::{Variable, VariableKey};

verus! {

/// A rule as an aspect states it, on variables.
pub struct AspectRule {
    pub phase: ExecuteOn,
    pub source: Variable,
    pub operation: Operation,
    pub destination: Variable,
}

/// What identifies an aspect rule.
pub struct RuleSpec {
    pub phase: ExecuteOn,
    pub source: VariableKey,
    pub operation: Operation,
    pub destination: VariableKey,
}

impl View for AspectRule {
    type V = RuleSpec;

    open spec fn view(&self) -> RuleSpec {
        RuleSpec {
            phase: self.phase,
            source: self.source@,
            operation: self.operation,
            destination: self.destination@,
        }
    }
}

/// A write-only collection of rules: rules can be added, never read back
/// or removed, so aspects cannot depend on one another.
pub struct Aspect {
    rules: Vec<AspectRule>,
}

impl Aspect {
    /// The rules added so far, in order.
    pub closed spec fn rules(&self) -> Seq<RuleSpec> {
        self.rules@.map_values(|r: AspectRule| r@)
    }

    pub fn new() -> (r: Aspect)
        ensures
            r.rules() == Seq::<RuleSpec>::empty(),
    {
        let r = Aspect { rules: Vec::new() };
        assert(r.rules() =~= Seq::<RuleSpec>::empty());
        r
    }

    /// Adds a rule that writes the value of `source` to `destination`.
    pub fn copy(&mut self, phase: ExecuteOn, source: Variable, destination: Variable)
        ensures
            final(self).rules() == old(self).rules().push(
                RuleSpec { phase, source: source@, operation: Operation::Copy, destination: destination@ },
            ),
    {
        self.rules.push(AspectRule { phase, source, operation: Operation::Copy, destination });
        assert(self.rules() =~= old(self).rules().push(
            RuleSpec { phase, source: source@, operation: Operation::Copy, destination: destination@ },
        ));
    }

    /// Adds a rule that writes `transform` of the value of `source` to
    /// `destination`.
    pub fn map(&mut self, phase: ExecuteOn, source: Variable, transform: Transform, destination: Variable)
        ensures
            final(self).rules() == old(self).rules().push(
                RuleSpec { phase, source: source@, operation: Operation::Mapped(transform), destination: destination@ },
            ),
    {
        self.rules.push(AspectRule { phase, source, operation: Operation::Mapped(transform), destination });
        assert(self.rules() =~= old(self).rules().push(
            RuleSpec { phase, source: source@, operation: Operation::Mapped(transform), destination: destination@ },
        ));
    }

    /// Hands the rules over, in order.
    pub(crate) fn into_rules(self) -> (r: Vec<AspectRule>)
        ensures
            r@.map_values(|x: AspectRule| x@) == self.rules(),
    {
        self.rules
    }
}

} // verus!

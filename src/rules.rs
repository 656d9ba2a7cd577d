//! Synchronization rules and the engine that applies one phase of them.
use vstd::prelude::*;
use crate::store::VariableStore;

verus! {

/// When a rule runs relative to the model step.
#[derive(Clone, Copy, Debug, PartialEq, Eq, Structural)]
pub enum ExecuteOn {
    PreTick,
    PostTick,
}

/// A pure numeric function applied by a map rule.
#[derive(Clone, Copy, Debug, PartialEq, Eq, Structural)]
pub enum Transform {
    /// The value above zero, zero otherwise.
    PositivePart,
    /// One above zero, zero otherwise.
    PositiveIndicator,
    /// One for zero, zero otherwise.
    LogicalNot,
}

pub open spec fn transform_spec(t: Transform, value: i64) -> i64 {
    match t {
        Transform::PositivePart => if value > 0 { value } else { 0 },
        Transform::PositiveIndicator => if value > 0 { 1 } else { 0 },
        Transform::LogicalNot => if value == 0 { 1 } else { 0 },
    }
}

impl Transform {
    pub fn apply(&self, value: i64) -> (r: i64)
        ensures
            r == transform_spec(*self, value),
    {
        match self {
            Transform::PositivePart => if value > 0 { value } else { 0 },
            Transform::PositiveIndicator => if value > 0 { 1 } else { 0 },
            Transform::LogicalNot => if value == 0 { 1 } else { 0 },
        }
    }
}

/// What a rule writes: the source value verbatim, or transformed.
#[derive(Clone, Copy, Debug, PartialEq, Eq, Structural)]
pub enum Operation {
    Copy,
    Mapped(Transform),
}

pub open spec fn operation_spec(op: Operation, value: i64) -> i64 {
    match op {
        Operation::Copy => value,
        Operation::Mapped(t) => transform_spec(t, value),
    }
}

/// A rule whose variables are resolved to store identifiers.
#[derive(Clone, Copy, Debug, PartialEq, Eq, Structural)]
pub struct ResolvedRule {
    pub source: usize,
    pub operation: Operation,
    pub destination: usize,
}

impl ResolvedRule {
    pub open spec fn fits(&self, n: nat) -> bool {
        self.source < n && self.destination < n
    }

    /// The value this rule writes when its source holds `value`.
    pub fn evaluate(&self, value: i64) -> (r: i64)
        ensures
            r == operation_spec(self.operation, value),
    {
        match self.operation {
            Operation::Copy => value,
            Operation::Mapped(t) => t.apply(value),
        }
    }
}

/// Every rule addresses storage of `n` cells.
pub open spec fn rules_fit(rules: Seq<ResolvedRule>, n: nat) -> bool {
    forall|i: int| 0 <= i < rules.len() ==> (#[trigger] rules[i]).fits(n)
}

/// No two rules write the same destination.
pub open spec fn destinations_distinct(rules: Seq<ResolvedRule>) -> bool {
    forall|i: int, j: int|
        0 <= i < rules.len() && 0 <= j < rules.len() && i != j ==> rules[i].destination != rules[j].destination
}

/// Whether two rules write the same destination.
pub fn has_conflict(rules: &Vec<ResolvedRule>) -> (r: bool)
    ensures
        r == !destinations_distinct(rules@),
{
    let mut i: usize = 0;
    while i < rules.len()
        invariant
            i <= rules@.len(),
            forall|a: int, b: int|
                0 <= a < i && 0 <= b < rules@.len() && a != b ==> rules@[a].destination != rules@[b].destination,
        decreases rules@.len() - i,
    {
        let mut j: usize = 0;
        while j < rules.len()
            invariant
                i < rules@.len(),
                j <= rules@.len(),
                forall|b: int| 0 <= b < j && b != i ==> rules@[i as int].destination != rules@[b].destination,
            decreases rules@.len() - j,
        {
            if j != i && rules[i].destination == rules[j].destination {
                return true;
            }
            j = j + 1;
        }
        i = i + 1;
    }
    false
}

/// The values after applying `rules` in order to `current`, where every rule
/// reads its source in `start`, the values at the start of the phase.
pub open spec fn apply_rules(start: Seq<i64>, current: Seq<i64>, rules: Seq<ResolvedRule>) -> Seq<i64>
    decreases rules.len(),
{
    if rules.len() == 0 {
        current
    } else {
        let r = rules.last();
        apply_rules(start, current, rules.drop_last()).update(
            r.destination as int,
            operation_spec(r.operation, start[r.source as int]),
        )
    }
}

/// The values after one phase run on `start`.
pub open spec fn phase_result(start: Seq<i64>, rules: Seq<ResolvedRule>) -> Seq<i64> {
    apply_rules(start, start, rules)
}

proof fn lemma_apply_rules_len(start: Seq<i64>, current: Seq<i64>, rules: Seq<ResolvedRule>)
    requires
        rules_fit(rules, current.len()),
    ensures
        apply_rules(start, current, rules).len() == current.len(),
    decreases rules.len(),
{
    if rules.len() > 0 {
        assert(rules_fit(rules.drop_last(), current.len()));
        lemma_apply_rules_len(start, current, rules.drop_last());
    }
}

/// A cell that no rule writes keeps its value, and a rule's destination
/// holds what that rule computes from the start of the phase, whatever the
/// other rules of the phase do, as long as no two of them share a destination.
pub proof fn lemma_phase_result(start: Seq<i64>, rules: Seq<ResolvedRule>, cell: int)
    requires
        rules_fit(rules, start.len()),
        destinations_distinct(rules),
        0 <= cell < start.len(),
    ensures
        phase_result(start, rules).len() == start.len(),
        (forall|i: int| 0 <= i < rules.len() ==> rules[i].destination != cell) ==> phase_result(start, rules)[cell] == start[cell],
        forall|i: int|
            0 <= i < rules.len() && rules[i].destination == cell ==> phase_result(start, rules)[cell]
                == operation_spec(rules[i].operation, start[rules[i].source as int]),
    decreases rules.len(),
{
    lemma_apply_rules_len(start, start, rules);
    if rules.len() > 0 {
        let prefix = rules.drop_last();
        assert(rules_fit(prefix, start.len()));
        assert(destinations_distinct(prefix));
        lemma_phase_result(start, prefix, cell);
        assert forall|i: int| 0 <= i < rules.len() && rules[i].destination == cell implies phase_result(start, rules)[cell]
            == operation_spec(rules[i].operation, start[rules[i].source as int]) by {
            if i < rules.len() - 1 {
                assert(prefix[i] == rules[i]);
            }
        }
        if forall|i: int| 0 <= i < rules.len() ==> rules[i].destination != cell {
            assert(rules.last().destination != cell);
            assert forall|i: int| 0 <= i < prefix.len() implies prefix[i].destination != cell by {
                assert(prefix[i] == rules[i]);
            }
        }
    }
}

/// Applies one phase of `rules` to `store`: every rule reads its source as it
/// was when the phase began. `snapshot` is scratch space.
pub fn run_phase(store: &mut VariableStore, rules: &Vec<ResolvedRule>, snapshot: &mut Vec<i64>)
    requires
        old(store).wf(),
        rules_fit(rules@, old(store).keys().len()),
    ensures
        final(store).wf(),
        final(store).keys() == old(store).keys(),
        final(store).values() == phase_result(old(store).values(), rules@),
{
    store.copy_values_into(snapshot);
    let ghost start = snapshot@;
    let mut i: usize = 0;
    while i < rules.len()
        invariant
            store.wf(),
            store.keys() == old(store).keys(),
            start == old(store).values(),
            snapshot@ == start,
            start.len() == store.keys().len(),
            rules_fit(rules@, start.len()),
            i <= rules@.len(),
            store.values() == apply_rules(start, start, rules@.subrange(0, i as int)),
        decreases rules@.len() - i,
    {
        let rule = rules[i];
        assert(rule.fits(start.len()));
        let value = rule.evaluate(snapshot[rule.source]);
        store.write(rule.destination, value);
        proof {
            let next = rules@.subrange(0, i + 1);
            assert(next.drop_last() =~= rules@.subrange(0, i as int));
            assert(next.last() == rule);
        }
        i = i + 1;
    }
    assert(rules@.subrange(0, rules@.len() as int) =~= rules@);
}

} // verus!

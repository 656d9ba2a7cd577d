//! Storage for the values of all registered variables.
use vstd::prelude::*;
use crate::variable::{position_of, Variable, VariableKey};

verus! {

/// Every registered variable with its current value; a variable's identifier
/// is its position.
pub struct VariableStore {
    variables: Vec<Variable>,
    values: Vec<i64>,
}

/// The keys are pairwise distinct.
pub open spec fn keys_unique(keys: Seq<VariableKey>) -> bool {
    forall|i: int, j: int| 0 <= i < keys.len() && 0 <= j < keys.len() && i != j ==> keys[i] != keys[j]
}

/// `after` holds the variables of `before` under the same identifiers and
/// with the same values, then new ones with value zero.
pub open spec fn store_extends(before: VariableStore, after: VariableStore) -> bool {
    &&& before.keys().len() <= after.keys().len()
    &&& after.keys().len() == after.values().len()
    &&& after.keys().subrange(0, before.keys().len() as int) == before.keys()
    &&& after.values().subrange(0, before.keys().len() as int) == before.values()
    &&& forall|i: int| before.keys().len() <= i < after.values().len() ==> after.values()[i] == 0
}

/// Extending is transitive, and keeps every registered key.
pub proof fn lemma_extends_trans(a: VariableStore, b: VariableStore, c: VariableStore)
    requires
        a.wf(),
        store_extends(a, b),
        store_extends(b, c),
    ensures
        store_extends(a, c),
{
    assert(c.keys().subrange(0, a.keys().len() as int) =~= b.keys().subrange(0, a.keys().len() as int));
    assert(c.values().subrange(0, a.keys().len() as int) =~= b.values().subrange(0, a.keys().len() as int));
    assert forall|i: int| a.keys().len() <= i < c.values().len() implies c.values()[i] == 0 by {
        if i < b.keys().len() {
            assert(c.values()[i] == c.values().subrange(0, b.keys().len() as int)[i]);
        }
    }
}

/// A key registered before an extension stays registered, under the same
/// identifier.
pub proof fn lemma_extends_keys(a: VariableStore, b: VariableStore, i: int)
    requires
        store_extends(a, b),
        0 <= i < a.keys().len(),
    ensures
        b.keys()[i] == a.keys()[i],
        b.has(a.keys()[i]),
{
    assert(b.keys()[i] == b.keys().subrange(0, a.keys().len() as int)[i]);
}

impl VariableStore {
    /// The registered keys, by identifier.
    pub closed spec fn keys(&self) -> Seq<VariableKey> {
        self.variables@.map_values(|v: Variable| v@)
    }

    /// The current values, by identifier.
    pub closed spec fn values(&self) -> Seq<i64> {
        self.values@
    }

    pub open spec fn wf(&self) -> bool {
        &&& self.keys().len() == self.values().len()
        &&& keys_unique(self.keys())
    }

    /// Whether `k` is registered.
    pub open spec fn has(&self, k: VariableKey) -> bool {
        self.keys().contains(k)
    }

    /// An empty store.
    pub fn new() -> (r: VariableStore)
        ensures
            r.wf(),
            r.keys() == Seq::<VariableKey>::empty(),
    {
        let r = VariableStore { variables: Vec::new(), values: Vec::new() };
        assert(r.keys() =~= Seq::<VariableKey>::empty());
        r
    }

    /// Number of registered variables.
    pub fn len(&self) -> (r: usize)
        requires
            self.wf(),
        ensures
            r == self.keys().len(),
    {
        self.values.len()
    }

    /// The identifier of the variable denoted by `v`, if it is registered.
    pub fn identifier(&self, v: &Variable) -> (r: Option<usize>)
        requires
            self.wf(),
        ensures
            match r {
                Some(i) => i < self.keys().len() && self.keys()[i as int] == v@,
                None => !self.has(v@),
            },
    {
        let r = position_of(&self.variables, v);
        match r {
            Some(i) => {}
            None => {
                assert forall|j: int| 0 <= j < self.keys().len() implies self.keys()[j] != v@ by {
                    assert(self.variables@[j]@ != v@);
                }
            }
        }
        r
    }

    /// Registers `v` with value zero unless it is registered already, and
    /// returns its identifier.
    pub fn register(&mut self, v: &Variable) -> (r: usize)
        requires
            old(self).wf(),
            old(self).keys().len() < usize::MAX,
        ensures
            final(self).wf(),
            r < final(self).keys().len(),
            final(self).keys()[r as int] == v@,
            store_extends(*old(self), *final(self)),
            old(self).has(v@) ==> *final(self) == *old(self),
            !old(self).has(v@) ==> {
                &&& final(self).keys() == old(self).keys().push(v@)
                &&& final(self).values() == old(self).values().push(0)
            },
    {
        match self.identifier(v) {
            Some(i) => {
                assert(self.keys().subrange(0, self.keys().len() as int) =~= self.keys());
                assert(self.values().subrange(0, self.keys().len() as int) =~= self.values());
                i
            },
            None => {
                let ghost k = v@;
                let i = self.values.len();
                self.variables.push(v.duplicate());
                self.values.push(0);
                assert(self.keys() =~= old(self).keys().push(k));
                assert(self.keys().subrange(0, old(self).keys().len() as int) =~= old(self).keys());
                assert(self.values().subrange(0, old(self).keys().len() as int) =~= old(self).values());
                i
            }
        }
    }

    /// The registered variables, by identifier.
    pub fn variables(&self) -> (r: &Vec<Variable>)
        ensures
            r@.map_values(|v: Variable| v@) == self.keys(),
    {
        &self.variables
    }

    /// The value of the variable with identifier `id`.
    pub fn read(&self, id: usize) -> (r: i64)
        requires
            self.wf(),
            id < self.keys().len(),
        ensures
            r == self.values()[id as int],
    {
        self.values[id]
    }

    /// Sets the value of the variable with identifier `id`.
    pub fn write(&mut self, id: usize, value: i64)
        requires
            old(self).wf(),
            id < old(self).keys().len(),
        ensures
            final(self).wf(),
            final(self).keys() == old(self).keys(),
            final(self).values() == old(self).values().update(id as int, value),
    {
        self.values.set(id, value);
    }

    /// Overwrites `buf` with the current values.
    pub fn copy_values_into(&self, buf: &mut Vec<i64>)
        requires
            self.wf(),
        ensures
            final(buf)@ == self.values(),
    {
        buf.clear();
        let mut i: usize = 0;
        while i < self.values.len()
            invariant
                i <= self.values@.len(),
                buf@ == self.values@.subrange(0, i as int),
            decreases self.values@.len() - i,
        {
            buf.push(self.values[i]);
            i = i + 1;
            assert(buf@ =~= self.values@.subrange(0, i as int));
        }
        assert(buf@ =~= self.values@);
    }
}

} // verus!

//! Accumulates wiring, failures, provided variables and aspects, validates
//! them, and builds the simulation.
use vstd::prelude::*;
use crate::aspect::{Aspect, AspectRule, RuleSpec};
use crate::error::BridgeError;
use crate::failures::{codes_unique, has_duplicate_code, FailureState, FailureType};
use crate::rules::{destinations_distinct, has_conflict, rules_fit, ExecuteOn, ResolvedRule};
use crate::simulation::{Aircraft, ElectricalBusBinding, Simulation};
use crate::store::{keys_unique, lemma_extends_keys, lemma_extends_trans, store_extends, VariableStore};
use crate::variable::{Variable, VariableKey};

verus! {

/// The rules of `rules` that run in `phase`, in order.
pub open spec fn rules_of(rules: Seq<(ExecuteOn, ResolvedRule)>, phase: ExecuteOn) -> Seq<ResolvedRule>
    decreases rules.len(),
{
    if rules.len() == 0 {
        Seq::empty()
    } else if rules.last().0 == phase {
        rules_of(rules.drop_last(), phase).push(rules.last().1)
    } else {
        rules_of(rules.drop_last(), phase)
    }
}

/// `resolved` is `spec` with its variables resolved through `keys`.
pub open spec fn resolves(keys: Seq<VariableKey>, resolved: (ExecuteOn, ResolvedRule), spec: RuleSpec) -> bool {
    &&& resolved.0 == spec.phase
    &&& resolved.1.operation == spec.operation
    &&& resolved.1.source < keys.len()
    &&& resolved.1.destination < keys.len()
    &&& keys[resolved.1.source as int] == spec.source
    &&& keys[resolved.1.destination as int] == spec.destination
}

/// Some rule of `specs` names `k` as its source or its destination.
pub open spec fn names(specs: Seq<RuleSpec>, k: VariableKey) -> bool {
    exists|j: int| 0 <= j < specs.len() && (specs[j].source == k || specs[j].destination == k)
}

/// The names bound are pairwise distinct.
pub open spec fn names_unique(buses: Seq<(Seq<char>, usize)>) -> bool {
    forall|i: int, j: int| 0 <= i < buses.len() && 0 <= j < buses.len() && i != j ==> buses[i].0 != buses[j].0
}

/// Whether some bus is bound under `name`.
pub open spec fn bus_named(buses: Seq<(Seq<char>, usize)>, name: Seq<char>) -> bool {
    exists|i: int| 0 <= i < buses.len() && buses[i].0 == name
}

/// Configuration of a simulation, checked as it is given.
pub struct SimulationBuilder {
    host_index_limit: usize,
    store: VariableStore,
    provided: Vec<Variable>,
    buses: Vec<ElectricalBusBinding>,
    apu: Option<ElectricalBusBinding>,
    failures: Vec<(u64, FailureType)>,
    rules: Vec<(ExecuteOn, ResolvedRule)>,
}

impl SimulationBuilder {
    /// Host indices below this bound are addressable.
    pub closed spec fn host_index_limit(&self) -> usize {
        self.host_index_limit
    }

    /// Every variable that the provided variables and the rules name.
    pub closed spec fn store(&self) -> VariableStore {
        self.store
    }

    /// The host variables provided to the model, in order.
    pub closed spec fn provided(&self) -> Seq<VariableKey> {
        self.provided@.map_values(|v: Variable| v@)
    }

    /// The electrical buses, in order.
    pub closed spec fn buses(&self) -> Seq<(Seq<char>, usize)> {
        self.buses@.map_values(|b: ElectricalBusBinding| b@)
    }

    /// The auxiliary power unit, if one is bound.
    pub closed spec fn apu(&self) -> Option<(Seq<char>, usize)> {
        match self.apu {
            Some(b) => Some(b@),
            None => None,
        }
    }

    /// The failure bindings, in order.
    pub closed spec fn failures(&self) -> Seq<(u64, FailureType)> {
        self.failures@
    }

    /// The rules with their phases, in registration order.
    pub closed spec fn rules(&self) -> Seq<(ExecuteOn, ResolvedRule)> {
        self.rules@
    }

    /// Wiring, failures and rules are as in `other`.
    pub open spec fn same_except_store_and_provided(&self, other: &SimulationBuilder) -> bool {
        &&& self.host_index_limit() == other.host_index_limit()
        &&& self.buses() == other.buses()
        &&& self.apu() == other.apu()
        &&& self.failures() == other.failures()
        &&& self.rules() == other.rules()
    }

    pub open spec fn wf(&self) -> bool {
        &&& self.store().wf()
        &&& keys_unique(self.provided())
        &&& forall|i: int| 0 <= i < self.provided().len() ==> self.store().has(#[trigger] self.provided()[i])
        &&& names_unique(self.buses())
        &&& forall|i: int| 0 <= i < self.buses().len() ==> (#[trigger] self.buses()[i]).1 < self.host_index_limit()
        &&& self.apu() matches Some(a) ==> a.1 < self.host_index_limit()
        &&& codes_unique(self.failures())
        &&& forall|i: int| 0 <= i < self.rules().len() ==> (#[trigger] self.rules()[i]).1.fits(self.store().keys().len())
    }

    /// An empty configuration for a host whose indices below
    /// `host_index_limit` are addressable.
    pub fn new(host_index_limit: usize) -> (r: SimulationBuilder)
        ensures
            r.wf(),
            r.host_index_limit() == host_index_limit,
            r.store().keys().len() == 0,
            r.provided().len() == 0,
            r.buses().len() == 0,
            r.apu() is None,
            r.failures().len() == 0,
            r.rules().len() == 0,
    {
        SimulationBuilder {
            host_index_limit,
            store: VariableStore::new(),
            provided: Vec::new(),
            buses: Vec::new(),
            apu: None,
            failures: Vec::new(),
            rules: Vec::new(),
        }
    }

    /// Provides the host variable (`name`, `unit`, `index`) to the model.
    /// Providing one twice fails, and leaves the configuration as it was.
    pub fn provides_variable(&mut self, name: &str, unit: &str, index: usize) -> (r: Result<(), BridgeError>)
        requires
            old(self).wf(),
            old(self).store().keys().len() < usize::MAX,
        ensures
            final(self).wf(),
            old(self).provided().contains(VariableKey::Aircraft(name@, unit@, index)) ==> {
                &&& r == Err::<(), BridgeError>(BridgeError::DuplicateVariable)
                &&& *final(self) == *old(self)
            },
            !old(self).provided().contains(VariableKey::Aircraft(name@, unit@, index)) ==> {
                &&& r is Ok
                &&& final(self).provided() == old(self).provided().push(VariableKey::Aircraft(name@, unit@, index))
                &&& final(self).provided().contains(VariableKey::Aircraft(name@, unit@, index))
                &&& final(self).store().has(VariableKey::Aircraft(name@, unit@, index))
                &&& store_extends(old(self).store(), final(self).store())
                &&& final(self).store().keys().len() <= old(self).store().keys().len() + 1
                &&& final(self).same_except_store_and_provided(old(self))
            },
    {
        let v = Variable::aircraft(name, unit, index);
        let mut i: usize = 0;
        while i < self.provided.len()
            invariant
                self.wf(),
                *self == *old(self),
                v@ == VariableKey::Aircraft(name@, unit@, index),
                i <= self.provided@.len(),
                forall|j: int| 0 <= j < i ==> self.provided()[j] != v@,
            decreases self.provided@.len() - i,
        {
            if self.provided[i].same_as(&v) {
                assert(self.provided()[i as int] == v@);
                assert(old(self).provided().contains(v@));
                return Err(BridgeError::DuplicateVariable);
            }
            i = i + 1;
        }
        let ghost k = v@;
        self.store.register(&v);
        self.provided.push(v);
        proof {
            assert(self.provided() =~= old(self).provided().push(k));
            assert(self.provided()[old(self).provided().len() as int] == k);
            assert forall|i: int| 0 <= i < self.provided().len() implies self.store().has(#[trigger] self.provided()[i]) by {
                if i < old(self).provided().len() {
                    assert(old(self).store().has(old(self).provided()[i]));
                    let j = choose|j: int| 0 <= j < old(self).store().keys().len() && old(self).store().keys()[j] == old(self).provided()[i];
                    lemma_extends_keys(old(self).store(), self.store(), j);
                }
            }
            assert forall|a: int, b: int| 0 <= a < self.provided().len() && 0 <= b < self.provided().len() && a != b
                implies self.provided()[a] != self.provided()[b] by {
                if a < old(self).provided().len() && b < old(self).provided().len() {
                } else if a < old(self).provided().len() {
                    assert(old(self).provided()[a] != k);
                } else {
                    assert(old(self).provided()[b] != k);
                }
            }
            assert forall|i: int| 0 <= i < self.rules().len() implies (#[trigger] self.rules()[i]).1.fits(self.store().keys().len()) by {
                assert(old(self).rules()[i].1.fits(old(self).store().keys().len()));
            }
        }
        Ok(())
    }

    /// Binds the electrical bus `name` to `host_index`. An index that the
    /// host cannot address, or a name already bound, fails and changes
    /// nothing.
    pub fn with_electrical_bus(&mut self, name: &str, host_index: usize) -> (r: Result<(), BridgeError>)
        requires
            old(self).wf(),
        ensures
            final(self).wf(),
            host_index >= old(self).host_index_limit() ==> r == Err::<(), BridgeError>(BridgeError::InvalidHostIndex),
            host_index < old(self).host_index_limit() && bus_named(old(self).buses(), name@) ==> r == Err::<(), BridgeError>(
                BridgeError::DuplicateElectricalBinding,
            ),
            r is Err <==> (host_index >= old(self).host_index_limit() || bus_named(old(self).buses(), name@)),
            r is Err ==> *final(self) == *old(self),
            r is Ok ==> {
                &&& final(self).buses() == old(self).buses().push((name@, host_index))
                &&& final(self).host_index_limit() == old(self).host_index_limit()
                &&& final(self).store() == old(self).store()
                &&& final(self).provided() == old(self).provided()
                &&& final(self).apu() == old(self).apu()
                &&& final(self).failures() == old(self).failures()
                &&& final(self).rules() == old(self).rules()
            },
    {
        if host_index >= self.host_index_limit {
            return Err(BridgeError::InvalidHostIndex);
        }
        let owned = name.to_owned();
        let mut i: usize = 0;
        while i < self.buses.len()
            invariant
                self.wf(),
                *self == *old(self),
                owned@ == name@,
                host_index < self.host_index_limit(),
                i <= self.buses@.len(),
                forall|j: int| 0 <= j < i ==> self.buses()[j].0 != name@,
            decreases self.buses@.len() - i,
        {
            if self.buses[i].name == owned {
                assert(self.buses()[i as int].0 == name@);
                return Err(BridgeError::DuplicateElectricalBinding);
            }
            i = i + 1;
        }
        self.buses.push(ElectricalBusBinding { name: owned, host_index });
        proof {
            assert(self.buses() =~= old(self).buses().push((name@, host_index)));
            assert forall|a: int, b: int| 0 <= a < self.buses().len() && 0 <= b < self.buses().len() && a != b
                implies self.buses()[a].0 != self.buses()[b].0 by {
                if a < old(self).buses().len() && b < old(self).buses().len() {
                } else if a < old(self).buses().len() {
                    assert(old(self).buses()[a].0 != name@);
                } else {
                    assert(old(self).buses()[b].0 != name@);
                }
            }
            assert(self.provided() == old(self).provided());
            assert(self.rules() == old(self).rules());
            assert forall|i: int| 0 <= i < self.buses().len() implies (#[trigger] self.buses()[i]).1 < self.host_index_limit() by {
                if i < old(self).buses().len() {
                    assert(old(self).buses()[i].1 < old(self).host_index_limit());
                }
            }
        }
        Ok(())
    }

    /// Binds the auxiliary power unit `name` to `host_index`. An index that
    /// the host cannot address, or a second unit, fails and changes nothing.
    pub fn with_auxiliary_power_unit(&mut self, name: &str, host_index: usize) -> (r: Result<(), BridgeError>)
        requires
            old(self).wf(),
        ensures
            final(self).wf(),
            host_index >= old(self).host_index_limit() ==> r == Err::<(), BridgeError>(BridgeError::InvalidHostIndex),
            host_index < old(self).host_index_limit() && old(self).apu() is Some ==> r == Err::<(), BridgeError>(
                BridgeError::DuplicateElectricalBinding,
            ),
            r is Err <==> (host_index >= old(self).host_index_limit() || old(self).apu() is Some),
            r is Err ==> *final(self) == *old(self),
            r is Ok ==> {
                &&& final(self).apu() == Some((name@, host_index))
                &&& final(self).host_index_limit() == old(self).host_index_limit()
                &&& final(self).store() == old(self).store()
                &&& final(self).provided() == old(self).provided()
                &&& final(self).buses() == old(self).buses()
                &&& final(self).failures() == old(self).failures()
                &&& final(self).rules() == old(self).rules()
            },
    {
        if host_index >= self.host_index_limit {
            return Err(BridgeError::InvalidHostIndex);
        }
        if self.apu.is_some() {
            return Err(BridgeError::DuplicateElectricalBinding);
        }
        self.apu = Some(ElectricalBusBinding { name: name.to_owned(), host_index });
        assert(self.provided() == old(self).provided());
        assert(self.rules() == old(self).rules());
        assert(self.buses() == old(self).buses());
        Ok(())
    }

    /// Adds `failures` to the failure bindings. Two bindings with one code,
    /// among them or with those already there, fail and change nothing.
    pub fn with_failures(&mut self, failures: Vec<(u64, FailureType)>) -> (r: Result<(), BridgeError>)
        requires
            old(self).wf(),
        ensures
            final(self).wf(),
            r is Err <==> !codes_unique(old(self).failures() + failures@),
            r is Err ==> {
                &&& r == Err::<(), BridgeError>(BridgeError::DuplicateFailureCode)
                &&& *final(self) == *old(self)
            },
            r is Ok ==> {
                &&& final(self).failures() == old(self).failures() + failures@
                &&& final(self).host_index_limit() == old(self).host_index_limit()
                &&& final(self).store() == old(self).store()
                &&& final(self).provided() == old(self).provided()
                &&& final(self).buses() == old(self).buses()
                &&& final(self).apu() == old(self).apu()
                &&& final(self).rules() == old(self).rules()
            },
    {
        let mut all: Vec<(u64, FailureType)> = Vec::new();
        let mut i: usize = 0;
        while i < self.failures.len()
            invariant
                self.wf(),
                *self == *old(self),
                i <= self.failures@.len(),
                all@ == self.failures@.subrange(0, i as int),
            decreases self.failures@.len() - i,
        {
            all.push(self.failures[i]);
            i = i + 1;
            assert(all@ =~= self.failures@.subrange(0, i as int));
        }
        let mut j: usize = 0;
        while j < failures.len()
            invariant
                self.wf(),
                *self == *old(self),
                j <= failures@.len(),
                all@ == self.failures@ + failures@.subrange(0, j as int),
            decreases failures@.len() - j,
        {
            all.push(failures[j]);
            j = j + 1;
            assert(all@ =~= self.failures@ + failures@.subrange(0, j as int));
        }
        assert(failures@.subrange(0, failures@.len() as int) =~= failures@);
        if has_duplicate_code(&all) {
            return Err(BridgeError::DuplicateFailureCode);
        }
        self.failures = all;
        assert(self.provided() == old(self).provided());
        assert(self.rules() == old(self).rules());
        assert(self.buses() == old(self).buses());
        Ok(())
    }

    /// Adds the rules of `aspect`, in order, registering every variable they
    /// name that is not registered yet.
    pub fn with_aspect(&mut self, aspect: Aspect)
        requires
            old(self).wf(),
            old(self).store().keys().len() + 2 * aspect.rules().len() < usize::MAX,
        ensures
            final(self).wf(),
            final(self).rules().len() == old(self).rules().len() + aspect.rules().len(),
            final(self).rules().subrange(0, old(self).rules().len() as int) == old(self).rules(),
            forall|j: int|
                0 <= j < aspect.rules().len() ==> resolves(
                    final(self).store().keys(),
                    #[trigger] final(self).rules()[old(self).rules().len() + j],
                    aspect.rules()[j],
                ),
            store_extends(old(self).store(), final(self).store()),
            forall|i: int|
                old(self).store().keys().len() <= i < final(self).store().keys().len() ==> names(
                    aspect.rules(),
                    #[trigger] final(self).store().keys()[i],
                ),
            final(self).host_index_limit() == old(self).host_index_limit(),
            final(self).provided() == old(self).provided(),
            final(self).buses() == old(self).buses(),
            final(self).apu() == old(self).apu(),
            final(self).failures() == old(self).failures(),
    {
        let ghost specs = aspect.rules();
        let ghost start = self.store();
        let ghost n0 = self.rules@.len();
        let rules = aspect.into_rules();
        assert(rules@.len() == specs.len());
        assert(start.keys().subrange(0, start.keys().len() as int) =~= start.keys());
        assert(start.values().subrange(0, start.keys().len() as int) =~= start.values());
        assert(self.rules().subrange(0, n0 as int) =~= old(self).rules());
        let mut i: usize = 0;
        while i < rules.len()
            invariant
                rules@.map_values(|x: AspectRule| x@) == specs,
                start == old(self).store(),
                n0 == old(self).rules().len(),
                self.wf(),
                i <= rules@.len(),
                self.store().keys().len() <= start.keys().len() + 2 * i,
                start.keys().len() + 2 * specs.len() < usize::MAX,
                store_extends(start, self.store()),
                self.rules().len() == n0 + i,
                self.rules().subrange(0, n0 as int) == old(self).rules(),
                forall|j: int| 0 <= j < i ==> resolves(self.store().keys(), #[trigger] self.rules()[n0 + j], specs[j]),
                forall|k: int|
                    start.keys().len() <= k < self.store().keys().len() ==> names(specs, #[trigger] self.store().keys()[k]),
                self.host_index_limit() == old(self).host_index_limit(),
                self.provided() == old(self).provided(),
                self.buses() == old(self).buses(),
                self.apu() == old(self).apu(),
                self.failures() == old(self).failures(),
            decreases rules@.len() - i,
        {
            let rule = &rules[i];
            assert(rule@ == specs[i as int]);
            let ghost before = self.store();
            let ghost rules_before = self.rules();
            let source = self.store.register(&rule.source);
            let ghost middle = self.store();
            let destination = self.store.register(&rule.destination);
            let ghost after = self.store();
            self.rules.push((rule.phase, ResolvedRule { source, operation: rule.operation, destination }));
            proof {
                lemma_extends_trans(before, middle, after);
                lemma_extends_trans(start, before, after);
                lemma_extends_keys(middle, after, source as int);
                assert forall|j: int| 0 <= j < i + 1 implies resolves(after.keys(), #[trigger] self.rules()[n0 + j], specs[j]) by {
                    if j < i {
                        let r = rules_before[n0 + j];
                        assert(self.rules()[n0 + j] == r);
                        lemma_extends_keys(before, after, r.1.source as int);
                        lemma_extends_keys(before, after, r.1.destination as int);
                    }
                }
                assert(self.rules().subrange(0, n0 as int) =~= rules_before.subrange(0, n0 as int));
                assert forall|k: int| start.keys().len() <= k < after.keys().len() implies names(specs, #[trigger] after.keys()[k]) by {
                    if k < before.keys().len() {
                        lemma_extends_keys(before, after, k);
                    } else if k < middle.keys().len() {
                        lemma_extends_keys(middle, after, k);
                        assert(specs[i as int].source == middle.keys()[k]);
                    } else {
                        assert(specs[i as int].destination == after.keys()[k]);
                    }
                }
                assert forall|p: int| 0 <= p < self.provided().len() implies after.has(#[trigger] self.provided()[p]) by {
                    assert(before.has(self.provided()[p]));
                    let q = choose|q: int| 0 <= q < before.keys().len() && before.keys()[q] == self.provided()[p];
                    lemma_extends_keys(before, after, q);
                }
                assert forall|p: int| 0 <= p < self.rules().len() implies (#[trigger] self.rules()[p]).1.fits(after.keys().len()) by {
                    if p < rules_before.len() {
                        assert(self.rules()[p] == rules_before[p]);
                        assert(rules_before[p].1.fits(before.keys().len()));
                    }
                }
            }
            i = i + 1;
        }
    }

    /// Checks that no two rules of one phase write the same destination,
    /// then makes the model with `factory`, once, and returns the simulation.
    /// On a conflict the factory is never called.
    pub fn build<M: Aircraft, F: FnOnce(&VariableStore) -> M>(self, factory: F) -> (r: Result<Simulation<M>, BridgeError>)
        requires
            self.wf(),
            factory.requires((&self.store(),)),
        ensures
            r is Err <==> !(destinations_distinct(rules_of(self.rules(), ExecuteOn::PreTick)) && destinations_distinct(
                rules_of(self.rules(), ExecuteOn::PostTick),
            )),
            r is Err ==> r == Err::<Simulation<M>, BridgeError>(BridgeError::ConflictingDestination),
            r matches Ok(sim) ==> {
                &&& sim.wf()
                &&& sim.store() == self.store()
                &&& sim.provided() == self.provided()
                &&& sim.buses() == self.buses()
                &&& sim.apu() == self.apu()
                &&& sim.failures().table() == self.failures()
                &&& forall|i: int| 0 <= i < sim.failures().active().len() ==> !sim.failures().active()[i]
                &&& sim.pre_tick() == rules_of(self.rules(), ExecuteOn::PreTick)
                &&& sim.post_tick() == rules_of(self.rules(), ExecuteOn::PostTick)
                &&& factory.ensures((&self.store(),), sim.owned_model())
            },
    {
        let mut pre_tick: Vec<ResolvedRule> = Vec::new();
        let mut post_tick: Vec<ResolvedRule> = Vec::new();
        let mut i: usize = 0;
        while i < self.rules.len()
            invariant
                self.wf(),
                i <= self.rules@.len(),
                pre_tick@ == rules_of(self.rules@.subrange(0, i as int), ExecuteOn::PreTick),
                post_tick@ == rules_of(self.rules@.subrange(0, i as int), ExecuteOn::PostTick),
                rules_fit(pre_tick@, self.store().keys().len()),
                rules_fit(post_tick@, self.store().keys().len()),
            decreases self.rules@.len() - i,
        {
            let (phase, rule) = self.rules[i];
            assert(self.rules()[i as int].1.fits(self.store().keys().len()));
            proof {
                let next = self.rules@.subrange(0, i + 1);
                assert(next.drop_last() =~= self.rules@.subrange(0, i as int));
                assert(next.last() == (phase, rule));
            }
            match phase {
                ExecuteOn::PreTick => pre_tick.push(rule),
                ExecuteOn::PostTick => post_tick.push(rule),
            }
            i = i + 1;
        }
        assert(self.rules@.subrange(0, self.rules@.len() as int) =~= self.rules@);
        if has_conflict(&pre_tick) || has_conflict(&post_tick) {
            return Err(BridgeError::ConflictingDestination);
        }
        let model = factory(&self.store);
        let failures = FailureState::new(self.failures);
        Ok(Simulation::assemble(self.store, self.provided, self.buses, self.apu, failures, pre_tick, post_tick, model))
    }
}

/// Once a host variable is provided, a later `provides_variable` of the same
/// name, unit and index finds it among the provided variables (and so fails
/// with `DuplicateVariable`, changing nothing), while every variable provided
/// before keeps its place.
pub proof fn lemma_provided_stays(
    before: SimulationBuilder,
    after: SimulationBuilder,
    name: Seq<char>,
    unit: Seq<char>,
    index: usize,
)
    requires
        after.provided() == before.provided().push(VariableKey::Aircraft(name, unit, index)),
    ensures
        after.provided().contains(VariableKey::Aircraft(name, unit, index)),
        after.provided().subrange(0, before.provided().len() as int) == before.provided(),
{
    let k = VariableKey::Aircraft(name, unit, index);
    assert(after.provided()[before.provided().len() as int] == k);
    assert(after.provided().subrange(0, before.provided().len() as int) =~= before.provided());
}

/// However providing calls were made, every provided host variable is
/// provided once and has exactly one storage cell.
pub proof fn lemma_one_cell_per_provided(b: SimulationBuilder, p: int)
    requires
        b.wf(),
        0 <= p < b.provided().len(),
    ensures
        forall|q: int| 0 <= q < b.provided().len() && b.provided()[q] == b.provided()[p] ==> q == p,
        exists|c: int| 0 <= c < b.store().keys().len() && b.store().keys()[c] == b.provided()[p],
        forall|c: int, d: int|
            0 <= c < b.store().keys().len() && 0 <= d < b.store().keys().len() && b.store().keys()[c] == b.provided()[p]
                && b.store().keys()[d] == b.provided()[p] ==> c == d,
{
    assert(b.store().has(b.provided()[p]));
}

} // verus!
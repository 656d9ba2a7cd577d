//! The finalized simulation and its per-event driver.
use vstd::prelude::*;
use crate::error::BridgeError;
use crate::failures::{lookup_spec, FailureState, FailureType};
use crate::rules::{destinations_distinct, phase_result, rules_fit, run_phase, ResolvedRule};
use crate::store::VariableStore;
use crate::variable::{Variable, VariableKey};

verus! {

/// A logical electrical bus, or the auxiliary power unit, bound to a host
/// index.
#[derive(Clone, Debug)]
pub struct ElectricalBusBinding {
    pub name: String,
    pub host_index: usize,
}

impl View for ElectricalBusBinding {
    type V = (Seq<char>, usize);

    open spec fn view(&self) -> (Seq<char>, usize) {
        (self.name@, self.host_index)
    }
}

/// The aircraft systems model that a simulation owns and steps.
pub trait Aircraft {
    /// Advances the model by `delta_millis`, reading the values of `store`,
    /// and returns the writes it makes, as (identifier, value) pairs.
    fn step(&mut self, delta_millis: u64, store: &VariableStore, failures: &FailureState) -> Result<
        Vec<(usize, i64)>,
        BridgeError,
    >;
}

/// What the host delivers, one at a time.
#[derive(Clone, Copy, Debug, PartialEq, Eq, Structural)]
pub enum SimulationEvent {
    /// Simulated time advanced by `delta_millis`.
    Tick { delta_millis: u64 },
    /// A request to activate the failure with this external code.
    ActivateFailure(u64),
    /// A request to deactivate the failure with this external code.
    DeactivateFailure(u64),
}

/// Every write addresses storage of `n` cells.
pub open spec fn writes_fit(writes: Seq<(usize, i64)>, n: nat) -> bool {
    forall|i: int| 0 <= i < writes.len() ==> (#[trigger] writes[i]).0 < n
}

/// The values after the writes are made in order.
pub open spec fn apply_writes(values: Seq<i64>, writes: Seq<(usize, i64)>) -> Seq<i64>
    decreases writes.len(),
{
    if writes.len() == 0 {
        values
    } else {
        apply_writes(values, writes.drop_last()).update(writes.last().0 as int, writes.last().1)
    }
}

/// The values after one event cycle: the pre-tick rules on `values`, then
/// the model's `writes`, then the post-tick rules.
pub open spec fn event_cycle(
    values: Seq<i64>,
    pre_tick: Seq<ResolvedRule>,
    writes: Seq<(usize, i64)>,
    post_tick: Seq<ResolvedRule>,
) -> Seq<i64> {
    phase_result(apply_writes(phase_result(values, pre_tick), writes), post_tick)
}

/// The simulation: variable storage, wiring, failures, rules split by phase,
/// and the model it owns.
pub struct Simulation<M> {
    store: VariableStore,
    provided: Vec<Variable>,
    buses: Vec<ElectricalBusBinding>,
    apu: Option<ElectricalBusBinding>,
    failures: FailureState,
    pre_tick: Vec<ResolvedRule>,
    post_tick: Vec<ResolvedRule>,
    snapshot: Vec<i64>,
    model: M,
}

impl<M: Aircraft> Simulation<M> {
    pub closed spec fn store(&self) -> VariableStore {
        self.store
    }

    pub closed spec fn provided(&self) -> Seq<VariableKey> {
        self.provided@.map_values(|v: Variable| v@)
    }

    pub closed spec fn buses(&self) -> Seq<(Seq<char>, usize)> {
        self.buses@.map_values(|b: ElectricalBusBinding| b@)
    }

    pub closed spec fn apu(&self) -> Option<(Seq<char>, usize)> {
        match self.apu {
            Some(b) => Some(b@),
            None => None,
        }
    }

    pub closed spec fn failures(&self) -> FailureState {
        self.failures
    }

    pub closed spec fn pre_tick(&self) -> Seq<ResolvedRule> {
        self.pre_tick@
    }

    pub closed spec fn post_tick(&self) -> Seq<ResolvedRule> {
        self.post_tick@
    }

    pub closed spec fn owned_model(&self) -> M {
        self.model
    }

    pub open spec fn wf(&self) -> bool {
        &&& self.store().wf()
        &&& self.failures().wf()
        &&& rules_fit(self.pre_tick(), self.store().keys().len())
        &&& rules_fit(self.post_tick(), self.store().keys().len())
        &&& destinations_distinct(self.pre_tick())
        &&& destinations_distinct(self.post_tick())
    }

    /// `values` is what one full event cycle can leave: the pre-tick rules
    /// on the current values, then some writes of the model, then the
    /// post-tick rules.
    pub open spec fn completes_cycle(&self, values: Seq<i64>) -> bool {
        exists|writes: Seq<(usize, i64)>|
            writes_fit(writes, self.store().keys().len()) && values == event_cycle(
                self.store().values(),
                self.pre_tick(),
                writes,
                self.post_tick(),
            )
    }

    /// Everything but the values and the failure activity are as in `other`.
    pub open spec fn same_shape(&self, other: &Self) -> bool {
        &&& self.store().keys() == other.store().keys()
        &&& self.provided() == other.provided()
        &&& self.buses() == other.buses()
        &&& self.apu() == other.apu()
        &&& self.failures().table() == other.failures().table()
        &&& self.pre_tick() == other.pre_tick()
        &&& self.post_tick() == other.post_tick()
    }

    pub(crate) fn assemble(
        store: VariableStore,
        provided: Vec<Variable>,
        buses: Vec<ElectricalBusBinding>,
        apu: Option<ElectricalBusBinding>,
        failures: FailureState,
        pre_tick: Vec<ResolvedRule>,
        post_tick: Vec<ResolvedRule>,
        model: M,
    ) -> (r: Simulation<M>)
        ensures
            r.store() == store,
            r.provided() == provided@.map_values(|v: Variable| v@),
            r.buses() == buses@.map_values(|b: ElectricalBusBinding| b@),
            r.apu() == (match apu {
                Some(b) => Some(b@),
                None => None,
            }),
            r.failures() == failures,
            r.pre_tick() == pre_tick@,
            r.post_tick() == post_tick@,
            r.owned_model() == model,
    {
        Simulation { store, provided, buses, apu, failures, pre_tick, post_tick, snapshot: Vec::new(), model }
    }
}

/// Whether every write addresses one of `n` cells.
fn writes_in_range(writes: &Vec<(usize, i64)>, n: usize) -> (r: bool)
    ensures
        r == writes_fit(writes@, n as nat),
{
    let mut i: usize = 0;
    while i < writes.len()
        invariant
            i <= writes@.len(),
            forall|j: int| 0 <= j < i ==> (#[trigger] writes@[j]).0 < n,
        decreases writes@.len() - i,
    {
        if writes[i].0 >= n {
            return false;
        }
        i = i + 1;
    }
    true
}

/// Makes the writes in order.
fn make_writes(store: &mut VariableStore, writes: &Vec<(usize, i64)>)
    requires
        old(store).wf(),
        writes_fit(writes@, old(store).keys().len()),
    ensures
        final(store).wf(),
        final(store).keys() == old(store).keys(),
        final(store).values() == apply_writes(old(store).values(), writes@),
{
    let mut i: usize = 0;
    while i < writes.len()
        invariant
            store.wf(),
            store.keys() == old(store).keys(),
            writes_fit(writes@, store.keys().len()),
            i <= writes@.len(),
            store.values() == apply_writes(old(store).values(), writes@.subrange(0, i as int)),
        decreases writes@.len() - i,
    {
        let w = writes[i];
        assert(w.0 < store.keys().len());
        store.write(w.0, w.1);
        proof {
            let next = writes@.subrange(0, i + 1);
            assert(next.drop_last() =~= writes@.subrange(0, i as int));
            assert(next.last() == w);
        }
        i = i + 1;
    }
    assert(writes@.subrange(0, writes@.len() as int) =~= writes@);
}

impl<M: Aircraft> Simulation<M> {
    /// Runs one event cycle: the pre-tick rules, one step of the model, the
    /// model's writes, and the post-tick rules, in that order. A model error,
    /// or a write to an unknown identifier, ends the cycle with that error.
    pub fn tick(&mut self, delta_millis: u64) -> (r: Result<(), BridgeError>)
        requires
            old(self).wf(),
        ensures
            final(self).wf(),
            final(self).same_shape(old(self)),
            final(self).failures() == old(self).failures(),
            r is Ok ==> old(self).completes_cycle(final(self).store().values()),
    {
        run_phase(&mut self.store, &self.pre_tick, &mut self.snapshot);
        let writes = match self.model.step(delta_millis, &self.store, &self.failures) {
            Ok(w) => w,
            Err(e) => return Err(e),
        };
        self.finish_cycle(&writes)
    }

    /// Ends an event cycle with the model's `writes`: makes them in order,
    /// then runs the post-tick rules. A write to an identifier that is not
    /// registered fails before any write is made.
    pub fn finish_cycle(&mut self, writes: &Vec<(usize, i64)>) -> (r: Result<(), BridgeError>)
        requires
            old(self).wf(),
        ensures
            final(self).wf(),
            final(self).same_shape(old(self)),
            final(self).failures() == old(self).failures(),
            r is Err <==> !writes_fit(writes@, old(self).store().keys().len()),
            r is Err ==> {
                &&& r == Err::<(), BridgeError>(BridgeError::UnknownVariable)
                &&& final(self).store() == old(self).store()
            },
            r is Ok ==> final(self).store().values() == phase_result(
                apply_writes(old(self).store().values(), writes@),
                old(self).post_tick(),
            ),
    {
        if !writes_in_range(writes, self.store.len()) {
            return Err(BridgeError::UnknownVariable);
        }
        make_writes(&mut self.store, writes);
        run_phase(&mut self.store, &self.post_tick, &mut self.snapshot);
        Ok(())
    }

    /// Handles one host event. A failure request with an unknown code is
    /// dropped; any other request changes only the failure activity.
    pub fn handle(&mut self, event: SimulationEvent) -> (r: Result<(), BridgeError>)
        requires
            old(self).wf(),
        ensures
            final(self).wf(),
            final(self).same_shape(old(self)),
            match event {
                SimulationEvent::Tick { delta_millis } => {
                    &&& final(self).failures() == old(self).failures()
                    &&& r is Ok ==> old(self).completes_cycle(final(self).store().values())
                },
                SimulationEvent::ActivateFailure(code) => {
                    &&& r is Ok
                    &&& final(self).store() == old(self).store()
                    &&& final(self).failures().active() == old(self).failures().requested(code, true)
                },
                SimulationEvent::DeactivateFailure(code) => {
                    &&& r is Ok
                    &&& final(self).store() == old(self).store()
                    &&& final(self).failures().active() == old(self).failures().requested(code, false)
                },
            },
    {
        match event {
            SimulationEvent::Tick { delta_millis } => self.tick(delta_millis),
            SimulationEvent::ActivateFailure(code) => {
                let _ = self.failures.set_active(code, true);
                Ok(())
            },
            SimulationEvent::DeactivateFailure(code) => {
                let _ = self.failures.set_active(code, false);
                Ok(())
            },
        }
    }

    /// The current value of the variable denoted by `v`, if it is registered.
    pub fn value(&self, v: &Variable) -> (r: Option<i64>)
        requires
            self.wf(),
        ensures
            r is None <==> !self.store().has(v@),
            forall|i: int|
                0 <= i < self.store().keys().len() && self.store().keys()[i] == v@ ==> r == Some(
                    self.store().values()[i],
                ),
    {
        match self.store.identifier(v) {
            Some(i) => Some(self.store.read(i)),
            None => None,
        }
    }

    /// Sets the value of the variable denoted by `v`; one that is not
    /// registered fails and changes nothing.
    pub fn set_value(&mut self, v: &Variable, value: i64) -> (r: Result<(), BridgeError>)
        requires
            old(self).wf(),
        ensures
            final(self).wf(),
            final(self).same_shape(old(self)),
            final(self).failures() == old(self).failures(),
            !old(self).store().has(v@) ==> {
                &&& r == Err::<(), BridgeError>(BridgeError::UnknownVariable)
                &&& final(self).store() == old(self).store()
            },
            forall|i: int|
                0 <= i < old(self).store().keys().len() && old(self).store().keys()[i] == v@ ==> {
                    &&& r is Ok
                    &&& final(self).store().values() == old(self).store().values().update(i, value)
                },
    {
        match self.store.identifier(v) {
            Some(i) => {
                self.store.write(i, value);
                Ok(())
            },
            None => Err(BridgeError::UnknownVariable),
        }
    }

    /// The registered variables, by identifier.
    pub fn variables(&self) -> (r: &Vec<Variable>)
        ensures
            r@.map_values(|v: Variable| v@) == self.store().keys(),
    {
        self.store.variables()
    }

    /// The host variables provided to the model.
    pub fn provided_variables(&self) -> (r: &Vec<Variable>)
        ensures
            r@.map_values(|v: Variable| v@) == self.provided(),
    {
        &self.provided
    }

    /// The electrical bus bindings.
    pub fn electrical_buses(&self) -> (r: &Vec<ElectricalBusBinding>)
        ensures
            r@.map_values(|b: ElectricalBusBinding| b@) == self.buses(),
    {
        &self.buses
    }

    /// The auxiliary power unit binding, if any.
    pub fn auxiliary_power_unit(&self) -> (r: &Option<ElectricalBusBinding>)
        ensures
            self.apu() == (match r {
                Some(b) => Some(b@),
                None => None,
            }),
    {
        &self.apu
    }

    /// The failure kind bound to `code`; looking it up changes nothing.
    pub fn failure_kind(&self, code: u64) -> (r: Result<FailureType, BridgeError>)
        requires
            self.wf(),
        ensures
            match lookup_spec(self.failures().table(), code) {
                Some(k) => r == Ok::<FailureType, BridgeError>(k),
                None => r == Err::<FailureType, BridgeError>(BridgeError::UnknownFailureCode),
            },
    {
        self.failures.kind_of(code)
    }

    /// Activates the failure bound to `code` and returns its kind. An
    /// unknown code fails and changes nothing.
    pub fn activate_failure(&mut self, code: u64) -> (r: Result<FailureType, BridgeError>)
        requires
            old(self).wf(),
        ensures
            final(self).wf(),
            final(self).same_shape(old(self)),
            final(self).store() == old(self).store(),
            match lookup_spec(old(self).failures().table(), code) {
                Some(k) => r == Ok::<FailureType, BridgeError>(k),
                None => r == Err::<FailureType, BridgeError>(BridgeError::UnknownFailureCode),
            },
            final(self).failures().active() == old(self).failures().requested(code, true),
            forall|i: int|
                0 <= i < old(self).failures().table().len() && old(self).failures().table()[i].0 == code
                    ==> final(self).failures().active()[i] == true,
    {
        self.failures.set_active(code, true)
    }

    /// Deactivates the failure bound to `code` and returns its kind. An
    /// unknown code fails and changes nothing.
    pub fn deactivate_failure(&mut self, code: u64) -> (r: Result<FailureType, BridgeError>)
        requires
            old(self).wf(),
        ensures
            final(self).wf(),
            final(self).same_shape(old(self)),
            final(self).store() == old(self).store(),
            match lookup_spec(old(self).failures().table(), code) {
                Some(k) => r == Ok::<FailureType, BridgeError>(k),
                None => r == Err::<FailureType, BridgeError>(BridgeError::UnknownFailureCode),
            },
            final(self).failures().active() == old(self).failures().requested(code, false),
            forall|i: int|
                0 <= i < old(self).failures().table().len() && old(self).failures().table()[i].0 == code
                    ==> final(self).failures().active()[i] == false,
    {
        self.failures.set_active(code, false)
    }

    /// Whether a failure of kind `kind` is active.
    pub fn is_failure_active(&self, kind: FailureType) -> (r: bool)
        requires
            self.wf(),
        ensures
            r == exists|i: int|
                0 <= i < self.failures().table().len() && self.failures().active()[i] && self.failures().table()[i].1 == kind,
    {
        self.failures.is_active(kind)
    }

    /// The model.
    pub fn model(&self) -> (r: &M)
        ensures
            *r == self.owned_model(),
    {
        &self.model
    }
}

/// Events are handled one after the other: when two event cycles run in
/// turn, the second starts from the values that the first left complete, so
/// the result is the first cycle's pre-tick rules, model writes and post-tick
/// rules, then the second's.
pub proof fn lemma_cycles_in_turn<M: Aircraft>(first: Simulation<M>, second: Simulation<M>, third: Simulation<M>)
    requires
        second.same_shape(&first),
        first.completes_cycle(second.store().values()),
        second.completes_cycle(third.store().values()),
    ensures
        exists|w1: Seq<(usize, i64)>, w2: Seq<(usize, i64)>|
            writes_fit(w1, first.store().keys().len()) && writes_fit(w2, first.store().keys().len())
                && third.store().values() == event_cycle(
                event_cycle(first.store().values(), first.pre_tick(), w1, first.post_tick()),
                first.pre_tick(),
                w2,
                first.post_tick(),
            ),
{
    let w1 = choose|w: Seq<(usize, i64)>|
        writes_fit(w, first.store().keys().len()) && second.store().values() == event_cycle(
            first.store().values(),
            first.pre_tick(),
            w,
            first.post_tick(),
        );
    let w2 = choose|w: Seq<(usize, i64)>|
        writes_fit(w, second.store().keys().len()) && third.store().values() == event_cycle(
            second.store().values(),
            second.pre_tick(),
            w,
            second.post_tick(),
        );
    assert(writes_fit(w1, first.store().keys().len()) && writes_fit(w2, first.store().keys().len())
        && third.store().values() == event_cycle(
        event_cycle(first.store().values(), first.pre_tick(), w1, first.post_tick()),
        first.pre_tick(),
        w2,
        first.post_tick(),
    ));
}

} // verus!
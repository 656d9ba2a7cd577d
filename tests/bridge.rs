use a320_systems_wasm::{
    Aircraft, Aspect, BridgeError, ExecuteOn, FailureState, FailureType, HydraulicColor, Simulation,
    SimulationBuilder, SimulationEvent, Transform, Variable, VariableStore,
};
use std::cell::Cell;

/// A model that writes nothing.
struct Idle;

impl Aircraft for Idle {
    fn step(
        &mut self,
        _delta_millis: u64,
        _store: &VariableStore,
        _failures: &FailureState,
    ) -> Result<Vec<(usize, i64)>, BridgeError> {
        Ok(Vec::new())
    }
}

/// A model that writes its input plus one to its output.
struct Incrementer {
    input: usize,
    output: usize,
    steps: u64,
}

impl Aircraft for Incrementer {
    fn step(
        &mut self,
        _delta_millis: u64,
        store: &VariableStore,
        _failures: &FailureState,
    ) -> Result<Vec<(usize, i64)>, BridgeError> {
        self.steps += 1;
        Ok(vec![(self.output, store.read(self.input) + 1)])
    }
}

/// A model whose step always fails.
struct Broken;

impl Aircraft for Broken {
    fn step(
        &mut self,
        _delta_millis: u64,
        _store: &VariableStore,
        _failures: &FailureState,
    ) -> Result<Vec<(usize, i64)>, BridgeError> {
        Err(BridgeError::StepFailed)
    }
}

/// A model that writes to an identifier nobody registered.
struct Stray;

impl Aircraft for Stray {
    fn step(
        &mut self,
        _delta_millis: u64,
        store: &VariableStore,
        _failures: &FailureState,
    ) -> Result<Vec<(usize, i64)>, BridgeError> {
        Ok(vec![(store.len(), 5)])
    }
}

/// A model that reports how many failures of one kind are active.
struct FailureWatcher {
    output: usize,
}

impl Aircraft for FailureWatcher {
    fn step(
        &mut self,
        _delta_millis: u64,
        _store: &VariableStore,
        failures: &FailureState,
    ) -> Result<Vec<(usize, i64)>, BridgeError> {
        let leak = failures.is_active(FailureType::ReservoirLeak(HydraulicColor::Green));
        Ok(vec![(self.output, if leak { 1 } else { 0 })])
    }
}

fn tick() -> SimulationEvent {
    SimulationEvent::Tick { delta_millis: 16 }
}

fn idle_simulation(builder: SimulationBuilder) -> Simulation<Idle> {
    builder.build(|_| Idle).unwrap()
}

#[test]
fn copy_rule_reaches_aspect_variable_after_one_event() {
    let mut builder = SimulationBuilder::new(32);
    let mut aspect = Aspect::new();
    aspect.copy(ExecuteOn::PreTick, Variable::aircraft("SWITCH", "Bool", 1), Variable::aspect("RELAY"));
    builder.with_aspect(aspect);
    let mut sim = idle_simulation(builder);
    sim.set_value(&Variable::aircraft("SWITCH", "Bool", 1), 1).unwrap();
    assert_eq!(sim.value(&Variable::aspect("RELAY")), Some(0));
    sim.handle(tick()).unwrap();
    assert_eq!(sim.value(&Variable::aspect("RELAY")), Some(1));
}

#[test]
fn failure_activation_by_code() {
    let mut builder = SimulationBuilder::new(32);
    builder
        .with_failures(vec![(29_000, FailureType::ReservoirLeak(HydraulicColor::Green))])
        .unwrap();
    let mut sim = idle_simulation(builder);
    let green = FailureType::ReservoirLeak(HydraulicColor::Green);
    assert!(!sim.is_failure_active(green));
    assert_eq!(sim.activate_failure(29_000), Ok(green));
    assert!(sim.is_failure_active(green));
    assert_eq!(sim.activate_failure(99_999), Err(BridgeError::UnknownFailureCode));
    assert!(sim.is_failure_active(green));
    assert_eq!(sim.deactivate_failure(99_999), Err(BridgeError::UnknownFailureCode));
    assert!(sim.is_failure_active(green));
    assert_eq!(sim.deactivate_failure(29_000), Ok(green));
    assert!(!sim.is_failure_active(green));
}

#[test]
fn failure_lookup_is_pure() {
    let mut builder = SimulationBuilder::new(32);
    builder
        .with_failures(vec![
            (24_000, FailureType::TransformerRectifier(1)),
            (29_002, FailureType::ReservoirLeak(HydraulicColor::Yellow)),
        ])
        .unwrap();
    let sim = idle_simulation(builder);
    assert_eq!(sim.failure_kind(99_999), Err(BridgeError::UnknownFailureCode));
    assert_eq!(sim.failure_kind(99_999), Err(BridgeError::UnknownFailureCode));
    assert_eq!(sim.failure_kind(24_000), Ok(FailureType::TransformerRectifier(1)));
    assert_eq!(sim.failure_kind(29_002), Ok(FailureType::ReservoirLeak(HydraulicColor::Yellow)));
    assert!(!sim.is_failure_active(FailureType::TransformerRectifier(1)));
}

#[test]
fn unknown_failure_event_is_dropped() {
    let mut builder = SimulationBuilder::new(32);
    builder
        .with_failures(vec![(29_000, FailureType::ReservoirLeak(HydraulicColor::Green))])
        .unwrap();
    let mut sim = idle_simulation(builder);
    assert_eq!(sim.handle(SimulationEvent::ActivateFailure(99_999)), Ok(()));
    assert!(!sim.is_failure_active(FailureType::ReservoirLeak(HydraulicColor::Green)));
    assert_eq!(sim.handle(SimulationEvent::ActivateFailure(29_000)), Ok(()));
    assert!(sim.is_failure_active(FailureType::ReservoirLeak(HydraulicColor::Green)));
    assert_eq!(sim.handle(SimulationEvent::DeactivateFailure(29_000)), Ok(()));
    assert!(!sim.is_failure_active(FailureType::ReservoirLeak(HydraulicColor::Green)));
}

#[test]
fn model_sees_active_failures() {
    let mut builder = SimulationBuilder::new(32);
    builder
        .with_failures(vec![(29_000, FailureType::ReservoirLeak(HydraulicColor::Green))])
        .unwrap();
    let mut aspect = Aspect::new();
    aspect.copy(ExecuteOn::PostTick, Variable::aspect("LEAK"), Variable::aspect("LEAK_SHOWN"));
    builder.with_aspect(aspect);
    let mut sim = builder
        .build(|store| FailureWatcher { output: store.identifier(&Variable::aspect("LEAK")).unwrap() })
        .unwrap();
    sim.handle(tick()).unwrap();
    assert_eq!(sim.value(&Variable::aspect("LEAK_SHOWN")), Some(0));
    sim.handle(SimulationEvent::ActivateFailure(29_000)).unwrap();
    sim.handle(tick()).unwrap();
    assert_eq!(sim.value(&Variable::aspect("LEAK_SHOWN")), Some(1));
}

#[test]
fn duplicate_provided_variable_is_refused() {
    let mut builder = SimulationBuilder::new(32);
    assert_eq!(builder.provides_variable("AIRSPEED", "Knots", 0), Ok(()));
    assert_eq!(builder.provides_variable("AIRSPEED", "Knots", 0), Err(BridgeError::DuplicateVariable));
    assert_eq!(builder.provides_variable("AIRSPEED", "Knots", 1), Ok(()));
    assert_eq!(builder.provides_variable("AIRSPEED", "Mach", 0), Ok(()));
    let sim = idle_simulation(builder);
    let provided = sim.provided_variables();
    assert_eq!(provided.len(), 3);
    assert!(provided[0].same_as(&Variable::aircraft("AIRSPEED", "Knots", 0)));
    assert_eq!(sim.value(&Variable::aircraft("AIRSPEED", "Knots", 0)), Some(0));
}

#[test]
fn duplicate_provided_variable_stops_before_build() {
    let mut builder = SimulationBuilder::new(32);
    let first = builder.provides_variable("AIRSPEED", "Knots", 0);
    let second = builder.provides_variable("AIRSPEED", "Knots", 0);
    assert_eq!(first, Ok(()));
    assert_eq!(second, Err(BridgeError::DuplicateVariable));
}

#[test]
fn map_and_copy_to_one_destination_conflict() {
    let mut builder = SimulationBuilder::new(32);
    let mut aspect = Aspect::new();
    aspect.map(ExecuteOn::PreTick, Variable::aircraft("A", "Number", 0), Transform::PositivePart, Variable::aspect("D"));
    builder.with_aspect(aspect);
    let mut other = Aspect::new();
    other.copy(ExecuteOn::PreTick, Variable::aircraft("B", "Number", 0), Variable::aspect("D"));
    builder.with_aspect(other);
    let made = Cell::new(false);
    let result = builder.build(|_| {
        made.set(true);
        Idle
    });
    assert!(matches!(result, Err(BridgeError::ConflictingDestination)));
    assert!(!made.get());
}

#[test]
fn one_destination_in_two_phases_is_accepted() {
    let mut builder = SimulationBuilder::new(32);
    let mut aspect = Aspect::new();
    aspect.copy(ExecuteOn::PreTick, Variable::aircraft("A", "Number", 0), Variable::aspect("D"));
    aspect.copy(ExecuteOn::PostTick, Variable::aircraft("B", "Number", 0), Variable::aspect("D"));
    builder.with_aspect(aspect);
    let made = Cell::new(0);
    let result = builder.build(|_| {
        made.set(made.get() + 1);
        Idle
    });
    assert!(result.is_ok());
    assert_eq!(made.get(), 1);
}

#[test]
fn threshold_map_rule() {
    let mut builder = SimulationBuilder::new(32);
    let mut aspect = Aspect::new();
    aspect.map(ExecuteOn::PreTick, Variable::aircraft("SOURCE", "Number", 0), Transform::PositivePart, Variable::aspect("DEST"));
    builder.with_aspect(aspect);
    let mut sim = idle_simulation(builder);
    let source = Variable::aircraft("SOURCE", "Number", 0);
    sim.set_value(&source, -1).unwrap();
    sim.handle(tick()).unwrap();
    assert_eq!(sim.value(&Variable::aspect("DEST")), Some(0));
    sim.set_value(&source, 2).unwrap();
    sim.handle(tick()).unwrap();
    assert_eq!(sim.value(&Variable::aspect("DEST")), Some(2));
}

#[test]
fn transforms_give_exact_values() {
    assert_eq!(Transform::PositivePart.apply(-1), 0);
    assert_eq!(Transform::PositivePart.apply(0), 0);
    assert_eq!(Transform::PositivePart.apply(2), 2);
    assert_eq!(Transform::PositiveIndicator.apply(-3), 0);
    assert_eq!(Transform::PositiveIndicator.apply(0), 0);
    assert_eq!(Transform::PositiveIndicator.apply(7), 1);
    assert_eq!(Transform::LogicalNot.apply(0), 1);
    assert_eq!(Transform::LogicalNot.apply(1), 0);
    assert_eq!(Transform::LogicalNot.apply(-4), 0);
}

#[test]
fn door_request_indicator() {
    let mut builder = SimulationBuilder::new(32);
    let mut aspect = Aspect::new();
    let point = Variable::aircraft("INTERACTIVE POINT OPEN", "Position", 5);
    aspect.map(ExecuteOn::PreTick, point.duplicate(), Transform::PositiveIndicator, Variable::aspect("FWD_DOOR_CARGO_OPEN_REQ"));
    builder.with_aspect(aspect);
    let mut sim = idle_simulation(builder);
    sim.set_value(&point, 40).unwrap();
    sim.handle(tick()).unwrap();
    assert_eq!(sim.value(&Variable::aspect("FWD_DOOR_CARGO_OPEN_REQ")), Some(1));
    sim.set_value(&point, 0).unwrap();
    sim.handle(tick()).unwrap();
    assert_eq!(sim.value(&Variable::aspect("FWD_DOOR_CARGO_OPEN_REQ")), Some(0));
}

#[test]
fn rules_read_phase_start_values() {
    let mut builder = SimulationBuilder::new(32);
    let mut aspect = Aspect::new();
    aspect.copy(ExecuteOn::PreTick, Variable::aspect("A"), Variable::aspect("B"));
    aspect.copy(ExecuteOn::PreTick, Variable::aspect("B"), Variable::aspect("A"));
    aspect.copy(ExecuteOn::PreTick, Variable::aspect("B"), Variable::aspect("C"));
    builder.with_aspect(aspect);
    let mut sim = idle_simulation(builder);
    sim.set_value(&Variable::aspect("A"), 3).unwrap();
    sim.set_value(&Variable::aspect("B"), 8).unwrap();
    sim.handle(tick()).unwrap();
    assert_eq!(sim.value(&Variable::aspect("A")), Some(8));
    assert_eq!(sim.value(&Variable::aspect("B")), Some(3));
    assert_eq!(sim.value(&Variable::aspect("C")), Some(8));
}

#[test]
fn events_complete_in_order() {
    let mut builder = SimulationBuilder::new(32);
    let mut aspect = Aspect::new();
    aspect.copy(ExecuteOn::PreTick, Variable::aircraft("IN", "Number", 0), Variable::aspect("MODEL_IN"));
    aspect.copy(ExecuteOn::PostTick, Variable::aspect("MODEL_OUT"), Variable::aspect("SHOWN"));
    aspect.copy(ExecuteOn::PreTick, Variable::aspect("SHOWN"), Variable::aspect("PREVIOUS"));
    builder.with_aspect(aspect);
    let mut sim = builder
        .build(|store| Incrementer {
            input: store.identifier(&Variable::aspect("MODEL_IN")).unwrap(),
            output: store.identifier(&Variable::aspect("MODEL_OUT")).unwrap(),
            steps: 0,
        })
        .unwrap();
    let input = Variable::aircraft("IN", "Number", 0);
    sim.set_value(&input, 10).unwrap();
    sim.handle(tick()).unwrap();
    assert_eq!(sim.value(&Variable::aspect("MODEL_IN")), Some(10));
    assert_eq!(sim.value(&Variable::aspect("SHOWN")), Some(11));
    assert_eq!(sim.value(&Variable::aspect("PREVIOUS")), Some(0));
    sim.set_value(&input, 20).unwrap();
    sim.handle(tick()).unwrap();
    assert_eq!(sim.value(&Variable::aspect("SHOWN")), Some(21));
    assert_eq!(sim.value(&Variable::aspect("PREVIOUS")), Some(11));
    assert_eq!(sim.model().steps, 2);
}

#[test]
fn step_error_is_propagated() {
    let builder = SimulationBuilder::new(32);
    let mut sim = builder.build(|_| Broken).unwrap();
    assert_eq!(sim.handle(tick()), Err(BridgeError::StepFailed));
}

#[test]
fn write_to_unknown_identifier_fails() {
    let mut builder = SimulationBuilder::new(32);
    builder.provides_variable("A", "Number", 0).unwrap();
    let mut sim = builder.build(|_| Stray).unwrap();
    assert_eq!(sim.handle(tick()), Err(BridgeError::UnknownVariable));
}

#[test]
fn unknown_variable_cannot_be_set() {
    let builder = SimulationBuilder::new(32);
    let mut sim = idle_simulation(builder);
    assert_eq!(sim.set_value(&Variable::aspect("NOWHERE"), 1), Err(BridgeError::UnknownVariable));
    assert_eq!(sim.value(&Variable::aspect("NOWHERE")), None);
}

#[test]
fn electrical_wiring() {
    let mut builder = SimulationBuilder::new(16);
    assert_eq!(builder.with_electrical_bus("AC_1", 2), Ok(()));
    assert_eq!(builder.with_electrical_bus("DC_GND_FLT_SVC", 15), Ok(()));
    assert_eq!(builder.with_electrical_bus("AC_2", 16), Err(BridgeError::InvalidHostIndex));
    assert_eq!(builder.with_electrical_bus("AC_1", 3), Err(BridgeError::DuplicateElectricalBinding));
    assert_eq!(builder.with_auxiliary_power_unit("OVHD_APU_START_PB_IS_AVAILABLE", 99), Err(BridgeError::InvalidHostIndex));
    assert_eq!(builder.with_auxiliary_power_unit("OVHD_APU_START_PB_IS_AVAILABLE", 8), Ok(()));
    assert_eq!(builder.with_auxiliary_power_unit("OTHER", 9), Err(BridgeError::DuplicateElectricalBinding));
    let sim = idle_simulation(builder);
    let buses = sim.electrical_buses();
    assert_eq!(buses.len(), 2);
    assert_eq!(buses[0].name, "AC_1");
    assert_eq!(buses[0].host_index, 2);
    assert_eq!(buses[1].name, "DC_GND_FLT_SVC");
    let apu = sim.auxiliary_power_unit().as_ref().unwrap();
    assert_eq!(apu.name, "OVHD_APU_START_PB_IS_AVAILABLE");
    assert_eq!(apu.host_index, 8);
}

#[test]
fn duplicate_failure_codes_are_refused() {
    let mut builder = SimulationBuilder::new(32);
    assert_eq!(
        builder.with_failures(vec![
            (24_000, FailureType::TransformerRectifier(1)),
            (24_000, FailureType::TransformerRectifier(2)),
        ]),
        Err(BridgeError::DuplicateFailureCode)
    );
    assert_eq!(builder.with_failures(vec![(24_000, FailureType::TransformerRectifier(1))]), Ok(()));
    assert_eq!(
        builder.with_failures(vec![(24_000, FailureType::ReservoirAirLeak(HydraulicColor::Blue))]),
        Err(BridgeError::DuplicateFailureCode)
    );
    assert_eq!(builder.with_failures(Vec::new()), Ok(()));
    let sim = idle_simulation(builder);
    assert_eq!(sim.failure_kind(24_000), Ok(FailureType::TransformerRectifier(1)));
}

#[test]
fn variables_are_shared_between_aspects() {
    let mut builder = SimulationBuilder::new(32);
    builder.provides_variable("EXTERNAL POWER AVAILABLE", "Bool", 1).unwrap();
    let mut aspect = Aspect::new();
    aspect.copy(
        ExecuteOn::PreTick,
        Variable::aircraft("EXTERNAL POWER AVAILABLE", "Bool", 1),
        Variable::aspect("OVHD_ELEC_EXT_PWR_PB_IS_AVAILABLE"),
    );
    builder.with_aspect(aspect);
    let sim = idle_simulation(builder);
    assert_eq!(sim.variables().len(), 2);
}

#[test]
fn finish_cycle_makes_writes_then_post_tick_rules() {
    let mut builder = SimulationBuilder::new(32);
    let mut aspect = Aspect::new();
    aspect.copy(ExecuteOn::PostTick, Variable::aspect("OUT"), Variable::aspect("SHOWN"));
    aspect.map(ExecuteOn::PreTick, Variable::aspect("OUT"), Transform::LogicalNot, Variable::aspect("IDLE"));
    builder.with_aspect(aspect);
    let mut sim = idle_simulation(builder);
    let out = sim.variables().iter().position(|v| v.same_as(&Variable::aspect("OUT"))).unwrap();
    assert_eq!(sim.finish_cycle(&vec![(out, 4), (out, 9)]), Ok(()));
    assert_eq!(sim.value(&Variable::aspect("OUT")), Some(9));
    assert_eq!(sim.value(&Variable::aspect("SHOWN")), Some(9));
    assert_eq!(sim.value(&Variable::aspect("IDLE")), Some(0));
}

#[test]
fn finish_cycle_refuses_unknown_identifier_before_writing() {
    let mut builder = SimulationBuilder::new(32);
    let mut aspect = Aspect::new();
    aspect.copy(ExecuteOn::PostTick, Variable::aspect("OUT"), Variable::aspect("SHOWN"));
    builder.with_aspect(aspect);
    let mut sim = idle_simulation(builder);
    let count = sim.variables().len();
    assert_eq!(sim.finish_cycle(&vec![(0, 5), (count, 1)]), Err(BridgeError::UnknownVariable));
    assert_eq!(sim.value(&Variable::aspect("OUT")), Some(0));
    assert_eq!(sim.value(&Variable::aspect("SHOWN")), Some(0));
}

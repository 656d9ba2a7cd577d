use a320_systems_wasm::{
    a320_aspect, a320_builder, Aircraft, BridgeError, FailureState, FailureType, HydraulicColor, SimulationEvent,
    Variable, VariableStore,
};

struct Idle;

impl Aircraft for Idle {
    fn step(
        &mut self,
        _delta_millis: u64,
        _store: &VariableStore,
        _failures: &FailureState,
    ) -> Result<Vec<(usize, i64)>, BridgeError> {
        Ok(Vec::new())
    }
}

#[test]
fn a320_configuration_builds() {
    let builder = a320_builder(16).unwrap();
    let sim = builder.build(|_| Idle).unwrap();
    let buses = sim.electrical_buses();
    assert_eq!(buses.len(), 14);
    assert_eq!(buses[0].name, "AC_1");
    assert_eq!(buses[0].host_index, 2);
    assert_eq!(buses[13].name, "DC_GND_FLT_SVC");
    assert_eq!(buses[13].host_index, 15);
    let apu = sim.auxiliary_power_unit().as_ref().unwrap();
    assert_eq!(apu.name, "OVHD_APU_START_PB_IS_AVAILABLE");
    assert_eq!(apu.host_index, 8);
    assert_eq!(sim.provided_variables().len(), 43);
    assert!(sim.provided_variables()[42].same_as(&Variable::aircraft("VELOCITY WORLD Y", "feet per minute", 0)));
}

#[test]
fn a320_configuration_needs_addressable_indices() {
    assert!(matches!(a320_builder(15), Err(BridgeError::InvalidHostIndex)));
    assert!(matches!(a320_builder(0), Err(BridgeError::InvalidHostIndex)));
    assert!(matches!(a320_builder(8), Err(BridgeError::InvalidHostIndex)));
    assert!(a320_builder(usize::MAX).is_ok());
}

#[test]
fn a320_failure_codes() {
    let sim = a320_builder(16).unwrap().build(|_| Idle).unwrap();
    assert_eq!(sim.failure_kind(24_000), Ok(FailureType::TransformerRectifier(1)));
    assert_eq!(sim.failure_kind(24_002), Ok(FailureType::TransformerRectifier(3)));
    assert_eq!(sim.failure_kind(29_000), Ok(FailureType::ReservoirLeak(HydraulicColor::Green)));
    assert_eq!(sim.failure_kind(29_004), Ok(FailureType::ReservoirAirLeak(HydraulicColor::Blue)));
    assert_eq!(sim.failure_kind(29_008), Ok(FailureType::ReservoirReturnLeak(HydraulicColor::Yellow)));
    assert_eq!(sim.failure_kind(29_009), Err(BridgeError::UnknownFailureCode));
    assert_eq!(sim.failure_kind(99_999), Err(BridgeError::UnknownFailureCode));
}

#[test]
fn a320_aspect_carries_switches_and_door_request() {
    let mut sim = a320_builder(16).unwrap().build(|_| Idle).unwrap();
    sim.set_value(&Variable::aircraft("APU GENERATOR SWITCH", "Bool", 0), 1).unwrap();
    sim.set_value(&Variable::aircraft("EXTERNAL POWER AVAILABLE", "Bool", 1), 1).unwrap();
    sim.set_value(&Variable::aircraft("INTERACTIVE POINT OPEN", "Position", 5), 70).unwrap();
    sim.handle(SimulationEvent::Tick { delta_millis: 16 }).unwrap();
    assert_eq!(sim.value(&Variable::aspect("OVHD_ELEC_APU_GEN_PB_IS_ON")), Some(1));
    assert_eq!(sim.value(&Variable::aspect("OVHD_ELEC_EXT_PWR_PB_IS_AVAILABLE")), Some(1));
    assert_eq!(sim.value(&Variable::aspect("OVHD_ELEC_EXT_PWR_PB_IS_ON")), Some(0));
    assert_eq!(sim.value(&Variable::aspect("FWD_DOOR_CARGO_OPEN_REQ")), Some(1));
    sim.set_value(&Variable::aircraft("INTERACTIVE POINT OPEN", "Position", 5), 0).unwrap();
    sim.handle(SimulationEvent::Tick { delta_millis: 16 }).unwrap();
    assert_eq!(sim.value(&Variable::aspect("FWD_DOOR_CARGO_OPEN_REQ")), Some(0));
}

#[test]
fn a320_aspect_has_eight_rules() {
    let mut builder = a320_systems_wasm::SimulationBuilder::new(4);
    builder.with_aspect(a320_aspect());
    let sim = builder.build(|_| Idle).unwrap();
    assert_eq!(sim.variables().len(), 16);
}

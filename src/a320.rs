//! The A320's configuration of the bridge: its electrical wiring, failure
//! codes, the host variables its systems read, and the aspect that carries
//! overhead switches and door requests into the systems.
use vstd::prelude::*;
use crate::aspect::{Aspect, RuleSpec};
use crate::builder::{bus_named, names_unique, resolves, SimulationBuilder};
use crate::error::BridgeError;
use crate::failures::{codes_unique, FailureType, HydraulicColor};
use crate::rules::{ExecuteOn, Operation, Transform};
use crate::store::keys_unique;
use crate::variable::{Variable, VariableKey};

verus! {

/// Host index of the auxiliary power unit.
pub const APU_HOST_INDEX: usize = 8;

/// The electrical buses and their host indices.
pub open spec fn a320_buses() -> Seq<(Seq<char>, usize)> {
    seq![
        ("AC_1"@, 2usize),
        ("AC_2"@, 3usize),
        ("AC_ESS"@, 4usize),
        ("AC_ESS_SHED"@, 5usize),
        ("AC_STAT_INV"@, 6usize),
        ("AC_GND_FLT_SVC"@, 14usize),
        ("DC_1"@, 7usize),
        ("DC_2"@, 8usize),
        ("DC_ESS"@, 9usize),
        ("DC_ESS_SHED"@, 10usize),
        ("DC_BAT"@, 11usize),
        ("DC_HOT_1"@, 12usize),
        ("DC_HOT_2"@, 13usize),
        ("DC_GND_FLT_SVC"@, 15usize),
    ]
}

/// The auxiliary power unit binding.
pub open spec fn a320_apu() -> (Seq<char>, usize) {
    ("OVHD_APU_START_PB_IS_AVAILABLE"@, APU_HOST_INDEX)
}

/// The failure codes and the kinds they stand for.
pub open spec fn a320_failures() -> Seq<(u64, FailureType)> {
    seq![
        (24000u64, FailureType::TransformerRectifier(1usize)),
        (24001u64, FailureType::TransformerRectifier(2usize)),
        (24002u64, FailureType::TransformerRectifier(3usize)),
        (29000u64, FailureType::ReservoirLeak(HydraulicColor::Green)),
        (29001u64, FailureType::ReservoirLeak(HydraulicColor::Blue)),
        (29002u64, FailureType::ReservoirLeak(HydraulicColor::Yellow)),
        (29003u64, FailureType::ReservoirAirLeak(HydraulicColor::Green)),
        (29004u64, FailureType::ReservoirAirLeak(HydraulicColor::Blue)),
        (29005u64, FailureType::ReservoirAirLeak(HydraulicColor::Yellow)),
        (29006u64, FailureType::ReservoirReturnLeak(HydraulicColor::Green)),
        (29007u64, FailureType::ReservoirReturnLeak(HydraulicColor::Blue)),
        (29008u64, FailureType::ReservoirReturnLeak(HydraulicColor::Yellow)),
    ]
}

/// The host variables that the systems read.
pub open spec fn a320_provided() -> Seq<VariableKey> {
    seq![
        VariableKey::Aircraft("ACCELERATION BODY X"@, "feet per second squared"@, 0usize),
        VariableKey::Aircraft("ACCELERATION BODY Y"@, "feet per second squared"@, 0usize),
        VariableKey::Aircraft("ACCELERATION BODY Z"@, "feet per second squared"@, 0usize),
        VariableKey::Aircraft("AIRSPEED INDICATED"@, "Knots"@, 0usize),
        VariableKey::Aircraft("AIRSPEED MACH"@, "Mach"@, 0usize),
        VariableKey::Aircraft("AIRSPEED TRUE"@, "Knots"@, 0usize),
        VariableKey::Aircraft("AMBIENT PRESSURE"@, "inHg"@, 0usize),
        VariableKey::Aircraft("AMBIENT TEMPERATURE"@, "celsius"@, 0usize),
        VariableKey::Aircraft("AMBIENT WIND DIRECTION"@, "Degrees"@, 0usize),
        VariableKey::Aircraft("AMBIENT WIND VELOCITY"@, "Knots"@, 0usize),
        VariableKey::Aircraft("ANTISKID BRAKES ACTIVE"@, "Bool"@, 0usize),
        VariableKey::Aircraft("EXTERNAL POWER AVAILABLE"@, "Bool"@, 1usize),
        VariableKey::Aircraft("FUEL TANK LEFT MAIN QUANTITY"@, "Pounds"@, 0usize),
        VariableKey::Aircraft("GEAR ANIMATION POSITION"@, "Percent"@, 0usize),
        VariableKey::Aircraft("GEAR ANIMATION POSITION"@, "Percent"@, 1usize),
        VariableKey::Aircraft("GEAR ANIMATION POSITION"@, "Percent"@, 2usize),
        VariableKey::Aircraft("GEAR CENTER POSITION"@, "Percent"@, 0usize),
        VariableKey::Aircraft("GEAR LEFT POSITION"@, "Percent"@, 0usize),
        VariableKey::Aircraft("GEAR RIGHT POSITION"@, "Percent"@, 0usize),
        VariableKey::Aircraft("GEAR HANDLE POSITION"@, "Bool"@, 0usize),
        VariableKey::Aircraft("GENERAL ENG STARTER ACTIVE"@, "Bool"@, 1usize),
        VariableKey::Aircraft("GENERAL ENG STARTER ACTIVE"@, "Bool"@, 2usize),
        VariableKey::Aircraft("GPS GROUND SPEED"@, "Knots"@, 0usize),
        VariableKey::Aircraft("GPS GROUND MAGNETIC TRACK"@, "Degrees"@, 0usize),
        VariableKey::Aircraft("INDICATED ALTITUDE"@, "Feet"@, 0usize),
        VariableKey::Aircraft("PLANE PITCH DEGREES"@, "Degrees"@, 0usize),
        VariableKey::Aircraft("PLANE BANK DEGREES"@, "Degrees"@, 0usize),
        VariableKey::Aircraft("PLANE HEADING DEGREES MAGNETIC"@, "Degrees"@, 0usize),
        VariableKey::Aircraft("PLANE LATITUDE"@, "degree latitude"@, 0usize),
        VariableKey::Aircraft("PLANE LONGITUDE"@, "degree longitude"@, 0usize),
        VariableKey::Aircraft("PUSHBACK STATE"@, "Enum"@, 0usize),
        VariableKey::Aircraft("PUSHBACK ANGLE"@, "Radians"@, 0usize),
        VariableKey::Aircraft("SEA LEVEL PRESSURE"@, "Millibars"@, 0usize),
        VariableKey::Aircraft("SIM ON GROUND"@, "Bool"@, 0usize),
        VariableKey::Aircraft("TOTAL AIR TEMPERATURE"@, "celsius"@, 0usize),
        VariableKey::Aircraft("TRAILING EDGE FLAPS LEFT PERCENT"@, "Percent"@, 0usize),
        VariableKey::Aircraft("TRAILING EDGE FLAPS RIGHT PERCENT"@, "Percent"@, 0usize),
        VariableKey::Aircraft("TURB ENG CORRECTED N1"@, "Percent"@, 1usize),
        VariableKey::Aircraft("TURB ENG CORRECTED N1"@, "Percent"@, 2usize),
        VariableKey::Aircraft("TURB ENG CORRECTED N2"@, "Percent"@, 1usize),
        VariableKey::Aircraft("TURB ENG CORRECTED N2"@, "Percent"@, 2usize),
        VariableKey::Aircraft("UNLIMITED FUEL"@, "Bool"@, 0usize),
        VariableKey::Aircraft("VELOCITY WORLD Y"@, "feet per minute"@, 0usize),
    ]
}

/// The rules of the overhead and door aspect.
pub open spec fn a320_rules() -> Seq<RuleSpec> {
    seq![
        RuleSpec {
            phase: ExecuteOn::PreTick,
            source: VariableKey::Aircraft("APU GENERATOR SWITCH"@, "Bool"@, 0usize),
            operation: Operation::Copy,
            destination: VariableKey::Aspect("OVHD_ELEC_APU_GEN_PB_IS_ON"@),
        },
        RuleSpec {
            phase: ExecuteOn::PreTick,
            source: VariableKey::Aircraft("BLEED AIR ENGINE"@, "Bool"@, 1usize),
            operation: Operation::Copy,
            destination: VariableKey::Aspect("OVHD_PNEU_ENG_1_BLEED_PB_IS_AUTO"@),
        },
        RuleSpec {
            phase: ExecuteOn::PreTick,
            source: VariableKey::Aircraft("BLEED AIR ENGINE"@, "Bool"@, 2usize),
            operation: Operation::Copy,
            destination: VariableKey::Aspect("OVHD_PNEU_ENG_2_BLEED_PB_IS_AUTO"@),
        },
        RuleSpec {
            phase: ExecuteOn::PreTick,
            source: VariableKey::Aircraft("EXTERNAL POWER AVAILABLE"@, "Bool"@, 1usize),
            operation: Operation::Copy,
            destination: VariableKey::Aspect("OVHD_ELEC_EXT_PWR_PB_IS_AVAILABLE"@),
        },
        RuleSpec {
            phase: ExecuteOn::PreTick,
            source: VariableKey::Aircraft("EXTERNAL POWER ON"@, "Bool"@, 1usize),
            operation: Operation::Copy,
            destination: VariableKey::Aspect("OVHD_ELEC_EXT_PWR_PB_IS_ON"@),
        },
        RuleSpec {
            phase: ExecuteOn::PreTick,
            source: VariableKey::Aircraft("GENERAL ENG MASTER ALTERNATOR"@, "Bool"@, 1usize),
            operation: Operation::Copy,
            destination: VariableKey::Aspect("OVHD_ELEC_ENG_GEN_1_PB_IS_ON"@),
        },
        RuleSpec {
            phase: ExecuteOn::PreTick,
            source: VariableKey::Aircraft("GENERAL ENG MASTER ALTERNATOR"@, "Bool"@, 2usize),
            operation: Operation::Copy,
            destination: VariableKey::Aspect("OVHD_ELEC_ENG_GEN_2_PB_IS_ON"@),
        },
        RuleSpec {
            phase: ExecuteOn::PreTick,
            source: VariableKey::Aircraft("INTERACTIVE POINT OPEN"@, "Position"@, 5usize),
            operation: Operation::Mapped(Transform::PositiveIndicator),
            destination: VariableKey::Aspect("FWD_DOOR_CARGO_OPEN_REQ"@),
        },
    ]
}

/// The configuration is acceptable to a host whose indices below
/// `host_index_limit` are addressable.
pub open spec fn a320_valid(host_index_limit: usize) -> bool {
    &&& forall|i: int| 0 <= i < a320_buses().len() ==> (#[trigger] a320_buses()[i]).1 < host_index_limit
    &&& names_unique(a320_buses())
    &&& APU_HOST_INDEX < host_index_limit
    &&& codes_unique(a320_failures())
    &&& keys_unique(a320_provided())
}

fn bus_table() -> (r: Vec<(&'static str, usize)>)
    ensures
        r@.map_values(|p: (&'static str, usize)| (p.0@, p.1)) == a320_buses(),
{
    let r = vec![
        ("AC_1", 2usize),
        ("AC_2", 3usize),
        ("AC_ESS", 4usize),
        ("AC_ESS_SHED", 5usize),
        ("AC_STAT_INV", 6usize),
        ("AC_GND_FLT_SVC", 14usize),
        ("DC_1", 7usize),
        ("DC_2", 8usize),
        ("DC_ESS", 9usize),
        ("DC_ESS_SHED", 10usize),
        ("DC_BAT", 11usize),
        ("DC_HOT_1", 12usize),
        ("DC_HOT_2", 13usize),
        ("DC_GND_FLT_SVC", 15usize),
    ];
    assert(r@.map_values(|p: (&'static str, usize)| (p.0@, p.1)) =~= a320_buses());
    r
}

fn failure_table() -> (r: Vec<(u64, FailureType)>)
    ensures
        r@ == a320_failures(),
{
    let r = vec![
        (24000u64, FailureType::TransformerRectifier(1usize)),
        (24001u64, FailureType::TransformerRectifier(2usize)),
        (24002u64, FailureType::TransformerRectifier(3usize)),
        (29000u64, FailureType::ReservoirLeak(HydraulicColor::Green)),
        (29001u64, FailureType::ReservoirLeak(HydraulicColor::Blue)),
        (29002u64, FailureType::ReservoirLeak(HydraulicColor::Yellow)),
        (29003u64, FailureType::ReservoirAirLeak(HydraulicColor::Green)),
        (29004u64, FailureType::ReservoirAirLeak(HydraulicColor::Blue)),
        (29005u64, FailureType::ReservoirAirLeak(HydraulicColor::Yellow)),
        (29006u64, FailureType::ReservoirReturnLeak(HydraulicColor::Green)),
        (29007u64, FailureType::ReservoirReturnLeak(HydraulicColor::Blue)),
        (29008u64, FailureType::ReservoirReturnLeak(HydraulicColor::Yellow)),
    ];
    assert(r@ =~= a320_failures());
    r
}

fn provided_table() -> (r: Vec<(&'static str, &'static str, usize)>)
    ensures
        r@.map_values(|p: (&'static str, &'static str, usize)| VariableKey::Aircraft(p.0@, p.1@, p.2)) == a320_provided(),
{
    let r = vec![
        ("ACCELERATION BODY X", "feet per second squared", 0usize),
        ("ACCELERATION BODY Y", "feet per second squared", 0usize),
        ("ACCELERATION BODY Z", "feet per second squared", 0usize),
        ("AIRSPEED INDICATED", "Knots", 0usize),
        ("AIRSPEED MACH", "Mach", 0usize),
        ("AIRSPEED TRUE", "Knots", 0usize),
        ("AMBIENT PRESSURE", "inHg", 0usize),
        ("AMBIENT TEMPERATURE", "celsius", 0usize),
        ("AMBIENT WIND DIRECTION", "Degrees", 0usize),
        ("AMBIENT WIND VELOCITY", "Knots", 0usize),
        ("ANTISKID BRAKES ACTIVE", "Bool", 0usize),
        ("EXTERNAL POWER AVAILABLE", "Bool", 1usize),
        ("FUEL TANK LEFT MAIN QUANTITY", "Pounds", 0usize),
        ("GEAR ANIMATION POSITION", "Percent", 0usize),
        ("GEAR ANIMATION POSITION", "Percent", 1usize),
        ("GEAR ANIMATION POSITION", "Percent", 2usize),
        ("GEAR CENTER POSITION", "Percent", 0usize),
        ("GEAR LEFT POSITION", "Percent", 0usize),
        ("GEAR RIGHT POSITION", "Percent", 0usize),
        ("GEAR HANDLE POSITION", "Bool", 0usize),
        ("GENERAL ENG STARTER ACTIVE", "Bool", 1usize),
        ("GENERAL ENG STARTER ACTIVE", "Bool", 2usize),
        ("GPS GROUND SPEED", "Knots", 0usize),
        ("GPS GROUND MAGNETIC TRACK", "Degrees", 0usize),
        ("INDICATED ALTITUDE", "Feet", 0usize),
        ("PLANE PITCH DEGREES", "Degrees", 0usize),
        ("PLANE BANK DEGREES", "Degrees", 0usize),
        ("PLANE HEADING DEGREES MAGNETIC", "Degrees", 0usize),
        ("PLANE LATITUDE", "degree latitude", 0usize),
        ("PLANE LONGITUDE", "degree longitude", 0usize),
        ("PUSHBACK STATE", "Enum", 0usize),
        ("PUSHBACK ANGLE", "Radians", 0usize),
        ("SEA LEVEL PRESSURE", "Millibars", 0usize),
        ("SIM ON GROUND", "Bool", 0usize),
        ("TOTAL AIR TEMPERATURE", "celsius", 0usize),
        ("TRAILING EDGE FLAPS LEFT PERCENT", "Percent", 0usize),
        ("TRAILING EDGE FLAPS RIGHT PERCENT", "Percent", 0usize),
        ("TURB ENG CORRECTED N1", "Percent", 1usize),
        ("TURB ENG CORRECTED N1", "Percent", 2usize),
        ("TURB ENG CORRECTED N2", "Percent", 1usize),
        ("TURB ENG CORRECTED N2", "Percent", 2usize),
        ("UNLIMITED FUEL", "Bool", 0usize),
        ("VELOCITY WORLD Y", "feet per minute", 0usize),
    ];
    assert(r@.map_values(|p: (&'static str, &'static str, usize)| VariableKey::Aircraft(p.0@, p.1@, p.2))
        =~= a320_provided());
    r
}

/// The aspect that copies overhead switch positions into the systems and
/// turns the forward cargo door's opening into a request.
pub fn a320_aspect() -> (r: Aspect)
    ensures
        r.rules() == a320_rules(),
{
    let mut aspect = Aspect::new();
    aspect.copy(
        ExecuteOn::PreTick,
        Variable::aircraft("APU GENERATOR SWITCH", "Bool", 0),
        Variable::aspect("OVHD_ELEC_APU_GEN_PB_IS_ON"),
    );
    aspect.copy(
        ExecuteOn::PreTick,
        Variable::aircraft("BLEED AIR ENGINE", "Bool", 1),
        Variable::aspect("OVHD_PNEU_ENG_1_BLEED_PB_IS_AUTO"),
    );
    aspect.copy(
        ExecuteOn::PreTick,
        Variable::aircraft("BLEED AIR ENGINE", "Bool", 2),
        Variable::aspect("OVHD_PNEU_ENG_2_BLEED_PB_IS_AUTO"),
    );
    aspect.copy(
        ExecuteOn::PreTick,
        Variable::aircraft("EXTERNAL POWER AVAILABLE", "Bool", 1),
        Variable::aspect("OVHD_ELEC_EXT_PWR_PB_IS_AVAILABLE"),
    );
    aspect.copy(
        ExecuteOn::PreTick,
        Variable::aircraft("EXTERNAL POWER ON", "Bool", 1),
        Variable::aspect("OVHD_ELEC_EXT_PWR_PB_IS_ON"),
    );
    aspect.copy(
        ExecuteOn::PreTick,
        Variable::aircraft("GENERAL ENG MASTER ALTERNATOR", "Bool", 1),
        Variable::aspect("OVHD_ELEC_ENG_GEN_1_PB_IS_ON"),
    );
    aspect.copy(
        ExecuteOn::PreTick,
        Variable::aircraft("GENERAL ENG MASTER ALTERNATOR", "Bool", 2),
        Variable::aspect("OVHD_ELEC_ENG_GEN_2_PB_IS_ON"),
    );
    aspect.map(
        ExecuteOn::PreTick,
        Variable::aircraft("INTERACTIVE POINT OPEN", "Position", 5),
        Transform::PositiveIndicator,
        Variable::aspect("FWD_DOOR_CARGO_OPEN_REQ"),
    );
    assert(aspect.rules() =~= a320_rules());
    aspect
}

/// The A320's configuration, for a host whose indices below
/// `host_index_limit` are addressable. It succeeds exactly when that
/// configuration is valid for the host, and then holds the A320's wiring,
/// failures, provided variables and aspect rules.
pub fn a320_builder(host_index_limit: usize) -> (r: Result<SimulationBuilder, BridgeError>)
    ensures
        r is Ok <==> a320_valid(host_index_limit),
        r is Ok <==> host_index_limit > 15,
        r is Err ==> r == Err::<SimulationBuilder, BridgeError>(BridgeError::InvalidHostIndex),
        r matches Ok(b) ==> {
            &&& b.wf()
            &&& b.host_index_limit() == host_index_limit
            &&& b.buses() == a320_buses()
            &&& b.apu() == Some(a320_apu())
            &&& b.failures() == a320_failures()
            &&& b.provided() == a320_provided()
            &&& b.rules().len() == a320_rules().len()
            &&& forall|j: int| 0 <= j < a320_rules().len() ==> resolves(b.store().keys(), #[trigger] b.rules()[j], a320_rules()[j])
        },
{
    proof {
        lemma_a320_tables_distinct();
        lemma_a320_valid(host_index_limit);
    }
    let mut builder = SimulationBuilder::new(host_index_limit);
    let buses = bus_table();
    let ghost bus_spec = a320_buses();
    let mut i: usize = 0;
    while i < buses.len()
        invariant
            buses@.map_values(|p: (&'static str, usize)| (p.0@, p.1)) == bus_spec,
            bus_spec == a320_buses(),
            names_unique(bus_spec),
            a320_valid(host_index_limit) <==> host_index_limit > 15,
            i <= buses@.len(),
            builder.wf(),
            builder.host_index_limit() == host_index_limit,
            builder.buses() == bus_spec.subrange(0, i as int),
            forall|j: int| 0 <= j < i ==> (#[trigger] bus_spec[j]).1 < host_index_limit,
            builder.store().keys().len() == 0,
            builder.provided().len() == 0,
            builder.apu() is None,
            builder.failures().len() == 0,
            builder.rules().len() == 0,
        decreases buses@.len() - i,
    {
        let (name, index) = buses[i];
        assert(bus_spec[i as int] == (name@, index));
        match builder.with_electrical_bus(name, index) {
            Ok(()) => {
                assert(builder.buses() =~= bus_spec.subrange(0, i + 1));
            },
            Err(e) => {
                proof {
                    if index < host_index_limit {
                        let prefix = bus_spec.subrange(0, i as int);
                        assert(bus_named(prefix, name@));
                        let j = choose|j: int| 0 <= j < prefix.len() && prefix[j].0 == name@;
                        assert(bus_spec[j].0 == bus_spec[i as int].0);
                    }
                    assert(a320_buses()[i as int].1 >= host_index_limit);
                }
                return Err(e);
            },
        }
        i = i + 1;
    }
    assert(bus_spec.subrange(0, bus_spec.len() as int) =~= bus_spec);
    builder.with_auxiliary_power_unit("OVHD_APU_START_PB_IS_AVAILABLE", APU_HOST_INDEX)?;
    let failures = failure_table();
    assert(Seq::<(u64, FailureType)>::empty() + failures@ =~= failures@);
    builder.with_failures(failures)?;
    let provided = provided_table();
    let ghost provided_spec = a320_provided();
    let mut k: usize = 0;
    while k < provided.len()
        invariant
            provided@.map_values(|p: (&'static str, &'static str, usize)| VariableKey::Aircraft(p.0@, p.1@, p.2))
                == provided_spec,
            provided_spec == a320_provided(),
            keys_unique(provided_spec),
            host_index_limit > 15,
            a320_valid(host_index_limit) ==> keys_unique(provided_spec),
            names_unique(a320_buses()),
            forall|j: int| 0 <= j < a320_buses().len() ==> (#[trigger] a320_buses()[j]).1 < host_index_limit,
            APU_HOST_INDEX < host_index_limit,
            codes_unique(a320_failures()),
            k <= provided@.len(),
            builder.wf(),
            builder.host_index_limit() == host_index_limit,
            builder.buses() == a320_buses(),
            builder.apu() == Some(a320_apu()),
            builder.failures() == a320_failures(),
            builder.provided() == provided_spec.subrange(0, k as int),
            builder.store().keys().len() <= k,
            builder.rules().len() == 0,
        decreases provided@.len() - k,
    {
        let (name, unit, index) = provided[k];
        assert(provided_spec[k as int] == VariableKey::Aircraft(name@, unit@, index));
        match builder.provides_variable(name, unit, index) {
            Ok(()) => {
                assert(builder.provided() =~= provided_spec.subrange(0, k + 1));
            },
            Err(e) => {
                proof {
                    let prefix = provided_spec.subrange(0, k as int);
                    let j = choose|j: int| 0 <= j < prefix.len() && prefix[j] == VariableKey::Aircraft(name@, unit@, index);
                    assert(provided_spec[j] == provided_spec[k as int]);
                }
                return Err(e);
            },
        }
        k = k + 1;
    }
    assert(provided_spec.subrange(0, provided_spec.len() as int) =~= provided_spec);
    let aspect = a320_aspect();
    let ghost rules_spec = aspect.rules();
    builder.with_aspect(aspect);
    assert forall|j: int| 0 <= j < a320_rules().len() implies resolves(builder.store().keys(), #[trigger] builder.rules()[j], a320_rules()[j]) by {
        assert(builder.rules()[0 + j] == builder.rules()[j]);
    }
    Ok(builder)
}

/// No element of `s` below position `n` equals `x`.
pub open spec fn absent_below<T>(s: Seq<T>, n: int, x: T) -> bool
    decreases n,
{
    if n <= 0 {
        true
    } else {
        s[n - 1] != x && absent_below(s, n - 1, x)
    }
}

/// The elements of `s` below position `n` are pairwise distinct.
pub open spec fn distinct_below<T>(s: Seq<T>, n: int) -> bool
    decreases n,
{
    if n <= 0 {
        true
    } else {
        absent_below(s, n - 1, s[n - 1]) && distinct_below(s, n - 1)
    }
}

proof fn lemma_absent_below<T>(s: Seq<T>, n: int, x: T)
    requires
        0 <= n <= s.len(),
        absent_below(s, n, x),
    ensures
        forall|j: int| 0 <= j < n ==> s[j] != x,
    decreases n,
{
    if n > 0 {
        lemma_absent_below(s, n - 1, x);
    }
}

proof fn lemma_distinct_below<T>(s: Seq<T>, n: int)
    requires
        0 <= n <= s.len(),
        distinct_below(s, n),
    ensures
        forall|i: int, j: int| 0 <= i < n && 0 <= j < n && i != j ==> s[i] != s[j],
    decreases n,
{
    if n > 0 {
        lemma_distinct_below(s, n - 1);
        lemma_absent_below(s, n - 1, s[n - 1]);
    }
}

/// The A320's tables have no repeated bus name, failure code or provided
/// variable.
pub proof fn lemma_a320_tables_distinct()
    ensures
        names_unique(a320_buses()),
        codes_unique(a320_failures()),
        keys_unique(a320_provided()),
{
    reveal_strlit("ACCELERATION BODY X");
    reveal_strlit("ACCELERATION BODY Y");
    reveal_strlit("ACCELERATION BODY Z");
    reveal_strlit("AC_1");
    reveal_strlit("AC_2");
    reveal_strlit("AC_ESS");
    reveal_strlit("AC_ESS_SHED");
    reveal_strlit("AC_GND_FLT_SVC");
    reveal_strlit("AC_STAT_INV");
    reveal_strlit("AIRSPEED INDICATED");
    reveal_strlit("AIRSPEED MACH");
    reveal_strlit("AIRSPEED TRUE");
    reveal_strlit("AMBIENT PRESSURE");
    reveal_strlit("AMBIENT TEMPERATURE");
    reveal_strlit("AMBIENT WIND DIRECTION");
    reveal_strlit("AMBIENT WIND VELOCITY");
    reveal_strlit("ANTISKID BRAKES ACTIVE");
    reveal_strlit("Bool");
    reveal_strlit("DC_1");
    reveal_strlit("DC_2");
    reveal_strlit("DC_BAT");
    reveal_strlit("DC_ESS");
    reveal_strlit("DC_ESS_SHED");
    reveal_strlit("DC_GND_FLT_SVC");
    reveal_strlit("DC_HOT_1");
    reveal_strlit("DC_HOT_2");
    reveal_strlit("Degrees");
    reveal_strlit("EXTERNAL POWER AVAILABLE");
    reveal_strlit("Enum");
    reveal_strlit("FUEL TANK LEFT MAIN QUANTITY");
    reveal_strlit("Feet");
    reveal_strlit("GEAR ANIMATION POSITION");
    reveal_strlit("GEAR CENTER POSITION");
    reveal_strlit("GEAR HANDLE POSITION");
    reveal_strlit("GEAR LEFT POSITION");
    reveal_strlit("GEAR RIGHT POSITION");
    reveal_strlit("GENERAL ENG STARTER ACTIVE");
    reveal_strlit("GPS GROUND MAGNETIC TRACK");
    reveal_strlit("GPS GROUND SPEED");
    reveal_strlit("INDICATED ALTITUDE");
    reveal_strlit("Knots");
    reveal_strlit("Mach");
    reveal_strlit("Millibars");
    reveal_strlit("PLANE BANK DEGREES");
    reveal_strlit("PLANE HEADING DEGREES MAGNETIC");
    reveal_strlit("PLANE LATITUDE");
    reveal_strlit("PLANE LONGITUDE");
    reveal_strlit("PLANE PITCH DEGREES");
    reveal_strlit("PUSHBACK ANGLE");
    reveal_strlit("PUSHBACK STATE");
    reveal_strlit("Percent");
    reveal_strlit("Pounds");
    reveal_strlit("Radians");
    reveal_strlit("SEA LEVEL PRESSURE");
    reveal_strlit("SIM ON GROUND");
    reveal_strlit("TOTAL AIR TEMPERATURE");
    reveal_strlit("TRAILING EDGE FLAPS LEFT PERCENT");
    reveal_strlit("TRAILING EDGE FLAPS RIGHT PERCENT");
    reveal_strlit("TURB ENG CORRECTED N1");
    reveal_strlit("TURB ENG CORRECTED N2");
    reveal_strlit("UNLIMITED FUEL");
    reveal_strlit("VELOCITY WORLD Y");
    reveal_strlit("celsius");
    reveal_strlit("degree latitude");
    reveal_strlit("degree longitude");
    reveal_strlit("feet per minute");
    reveal_strlit("feet per second squared");
    reveal_strlit("inHg");
    assert("ACCELERATION BODY X"@[18] == 'X');
    assert("ACCELERATION BODY Y"@[18] == 'Y');
    assert("ACCELERATION BODY Z"@[18] == 'Z');
    assert("AC_1"@[0] == 'A');
    assert("AC_1"@[3] == '1');
    assert("AC_2"@[0] == 'A');
    assert("AC_2"@[3] == '2');
    assert("AC_ESS"@[0] == 'A');
    assert("AC_ESS_SHED"@[0] == 'A');
    assert("AC_ESS_SHED"@[3] == 'E');
    assert("AC_GND_FLT_SVC"@[0] == 'A');
    assert("AC_STAT_INV"@[0] == 'A');
    assert("AC_STAT_INV"@[3] == 'S');
    assert("Bool"@[0] == 'B');
    assert("DC_1"@[0] == 'D');
    assert("DC_1"@[3] == '1');
    assert("DC_2"@[0] == 'D');
    assert("DC_2"@[3] == '2');
    assert("DC_BAT"@[0] == 'D');
    assert("DC_BAT"@[3] == 'B');
    assert("DC_ESS"@[0] == 'D');
    assert("DC_ESS"@[3] == 'E');
    assert("DC_ESS_SHED"@[0] == 'D');
    assert("DC_GND_FLT_SVC"@[0] == 'D');
    assert("DC_HOT_1"@[7] == '1');
    assert("DC_HOT_2"@[7] == '2');
    assert("Degrees"@[0] == 'D');
    assert("Enum"@[0] == 'E');
    assert("Feet"@[0] == 'F');
    assert("Mach"@[0] == 'M');
    assert("Percent"@[0] == 'P');
    assert("Radians"@[0] == 'R');
    assert("TURB ENG CORRECTED N1"@[20] == '1');
    assert("TURB ENG CORRECTED N2"@[20] == '2');
    assert("celsius"@[0] == 'c');
    assert("degree latitude"@[0] == 'd');
    assert("feet per minute"@[0] == 'f');
    assert("inHg"@[0] == 'i');
    assert("AC_1"@.len() == 4);
    assert("AC_2"@.len() == 4);
    assert("AC_ESS"@.len() == 6);
    assert("AC_ESS_SHED"@.len() == 11);
    assert("AC_GND_FLT_SVC"@.len() == 14);
    assert("AC_STAT_INV"@.len() == 11);
    assert("AIRSPEED INDICATED"@.len() == 18);
    assert("AIRSPEED TRUE"@.len() == 13);
    assert("AMBIENT TEMPERATURE"@.len() == 19);
    assert("AMBIENT WIND DIRECTION"@.len() == 22);
    assert("AMBIENT WIND VELOCITY"@.len() == 21);
    assert("ANTISKID BRAKES ACTIVE"@.len() == 22);
    assert("Bool"@.len() == 4);
    assert("DC_1"@.len() == 4);
    assert("DC_2"@.len() == 4);
    assert("DC_BAT"@.len() == 6);
    assert("DC_ESS"@.len() == 6);
    assert("DC_ESS_SHED"@.len() == 11);
    assert("DC_GND_FLT_SVC"@.len() == 14);
    assert("DC_HOT_1"@.len() == 8);
    assert("DC_HOT_2"@.len() == 8);
    assert("Degrees"@.len() == 7);
    assert("EXTERNAL POWER AVAILABLE"@.len() == 24);
    assert("Enum"@.len() == 4);
    assert("Feet"@.len() == 4);
    assert("GEAR ANIMATION POSITION"@.len() == 23);
    assert("GEAR CENTER POSITION"@.len() == 20);
    assert("GEAR HANDLE POSITION"@.len() == 20);
    assert("GEAR LEFT POSITION"@.len() == 18);
    assert("GEAR RIGHT POSITION"@.len() == 19);
    assert("GENERAL ENG STARTER ACTIVE"@.len() == 26);
    assert("GPS GROUND MAGNETIC TRACK"@.len() == 25);
    assert("GPS GROUND SPEED"@.len() == 16);
    assert("Knots"@.len() == 5);
    assert("Mach"@.len() == 4);
    assert("Millibars"@.len() == 9);
    assert("PLANE BANK DEGREES"@.len() == 18);
    assert("PLANE HEADING DEGREES MAGNETIC"@.len() == 30);
    assert("PLANE PITCH DEGREES"@.len() == 19);
    assert("Percent"@.len() == 7);
    assert("Pounds"@.len() == 6);
    assert("Radians"@.len() == 7);
    assert("SIM ON GROUND"@.len() == 13);
    assert("TOTAL AIR TEMPERATURE"@.len() == 21);
    assert("TRAILING EDGE FLAPS LEFT PERCENT"@.len() == 32);
    assert("TRAILING EDGE FLAPS RIGHT PERCENT"@.len() == 33);
    assert("TURB ENG CORRECTED N1"@.len() == 21);
    assert("TURB ENG CORRECTED N2"@.len() == 21);
    assert("UNLIMITED FUEL"@.len() == 14);
    assert("celsius"@.len() == 7);
    assert("degree latitude"@.len() == 15);
    assert("degree longitude"@.len() == 16);
    assert("feet per minute"@.len() == 15);
    assert("feet per second squared"@.len() == 23);
    assert("inHg"@.len() == 4);
    let names = a320_buses().map_values(|b: (Seq<char>, usize)| b.0);
    assert(distinct_below(names, 14)) by {
        reveal_with_fuel(distinct_below, 15);
        reveal_with_fuel(absent_below, 15);
    }
    lemma_distinct_below(names, 14);
    assert(names_unique(a320_buses())) by {
        assert forall|i: int, j: int| 0 <= i < 14 && 0 <= j < 14 && i != j implies a320_buses()[i].0 != a320_buses()[j].0 by {
            assert(names[i] == a320_buses()[i].0 && names[j] == a320_buses()[j].0);
        }
    }
    assert(distinct_below(a320_provided(), 43)) by {
        reveal_with_fuel(distinct_below, 44);
        reveal_with_fuel(absent_below, 44);
    }
    lemma_distinct_below(a320_provided(), 43);
    let codes = a320_failures().map_values(|f: (u64, FailureType)| f.0);
    assert(distinct_below(codes, 12)) by {
        reveal_with_fuel(distinct_below, 13);
        reveal_with_fuel(absent_below, 13);
    }
    lemma_distinct_below(codes, 12);
    assert(codes_unique(a320_failures())) by {
        assert forall|i: int, j: int| 0 <= i < 12 && 0 <= j < 12 && i != j implies a320_failures()[i].0 != a320_failures()[j].0 by {
            assert(codes[i] == a320_failures()[i].0 && codes[j] == a320_failures()[j].0);
        }
    }
}

/// The A320's configuration is valid exactly for hosts that address every
/// index it uses.
pub proof fn lemma_a320_valid(host_index_limit: usize)
    ensures
        a320_valid(host_index_limit) <==> host_index_limit > 15,
{
    lemma_a320_tables_distinct();
    if host_index_limit > 15 {
        assert forall|i: int| 0 <= i < a320_buses().len() implies (#[trigger] a320_buses()[i]).1 < host_index_limit by {}
    } else {
        assert(a320_buses()[13].1 == 15);
    }
}

} // verus!

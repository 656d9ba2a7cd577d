//! Failure kinds of the systems model and the table that maps external codes
//! onto them.
use vstd::prelude::*;
use crate::error::BridgeError;

verus! {

/// Colour of a hydraulic circuit.
#[derive(Clone, Copy, Debug, PartialEq, Eq, Structural)]
pub enum HydraulicColor {
    Green,
    Blue,
    Yellow,
}

/// A failure that the systems model can suffer.
#[derive(Clone, Copy, Debug, PartialEq, Eq, Structural)]
pub enum FailureType {
    TransformerRectifier(usize),
    ReservoirLeak(HydraulicColor),
    ReservoirAirLeak(HydraulicColor),
    ReservoirReturnLeak(HydraulicColor),
}

/// No two entries share an external code.
pub open spec fn codes_unique(table: Seq<(u64, FailureType)>) -> bool {
    forall|i: int, j: int| 0 <= i < table.len() && 0 <= j < table.len() && i != j ==> table[i].0 != table[j].0
}

/// Whether some entry has the external code `code`.
pub open spec fn has_code(table: Seq<(u64, FailureType)>, code: u64) -> bool {
    exists|i: int| 0 <= i < table.len() && table[i].0 == code
}

/// Position of the entry with code `code`, if any.
pub fn find_code(table: &Vec<(u64, FailureType)>, code: u64) -> (r: Option<usize>)
    ensures
        match r {
            Some(i) => i < table@.len() && table@[i as int].0 == code,
            None => !has_code(table@, code),
        },
{
    let mut i: usize = 0;
    while i < table.len()
        invariant
            i <= table@.len(),
            forall|j: int| 0 <= j < i ==> table@[j].0 != code,
        decreases table@.len() - i,
    {
        if table[i].0 == code {
            return Some(i);
        }
        i = i + 1;
    }
    None
}

/// Whether two entries share an external code.
pub fn has_duplicate_code(table: &Vec<(u64, FailureType)>) -> (r: bool)
    ensures
        r == !codes_unique(table@),
{
    let mut i: usize = 0;
    while i < table.len()
        invariant
            i <= table@.len(),
            forall|a: int, b: int| 0 <= a < i && 0 <= b < table@.len() && a != b ==> table@[a].0 != table@[b].0,
        decreases table@.len() - i,
    {
        let mut j: usize = 0;
        while j < table.len()
            invariant
                i < table@.len(),
                j <= table@.len(),
                forall|b: int| 0 <= b < j && b != i ==> table@[i as int].0 != table@[b].0,
            decreases table@.len() - j,
        {
            if j != i && table[i].0 == table[j].0 {
                return true;
            }
            j = j + 1;
        }
        i = i + 1;
    }
    false
}

/// The failure kind bound to `code`, if any.
pub open spec fn lookup_spec(table: Seq<(u64, FailureType)>, code: u64) -> Option<FailureType> {
    if has_code(table, code) {
        Some(table[choose|i: int| 0 <= i < table.len() && table[i].0 == code].1)
    } else {
        None
    }
}

proof fn lemma_lookup_at(table: Seq<(u64, FailureType)>, code: u64, i: int)
    requires
        codes_unique(table),
        0 <= i < table.len(),
        table[i].0 == code,
    ensures
        lookup_spec(table, code) == Some(table[i].1),
{
    let j = choose|j: int| 0 <= j < table.len() && table[j].0 == code;
    assert(j == i);
}

/// The failure bindings and which of them are active.
pub struct FailureState {
    table: Vec<(u64, FailureType)>,
    active: Vec<bool>,
}

impl FailureState {
    /// The bindings of external codes to failure kinds, in order.
    pub closed spec fn table(&self) -> Seq<(u64, FailureType)> {
        self.table@
    }

    /// Whether each binding is active, by position.
    pub closed spec fn active(&self) -> Seq<bool> {
        self.active@
    }

    pub open spec fn wf(&self) -> bool {
        &&& codes_unique(self.table())
        &&& self.active().len() == self.table().len()
    }

    /// The activity after a request to set the failure with code `code` to
    /// `on`: unchanged when no binding has that code.
    pub open spec fn requested(&self, code: u64, on: bool) -> Seq<bool> {
        if has_code(self.table(), code) {
            self.active().update(choose|i: int| 0 <= i < self.table().len() && self.table()[i].0 == code, on)
        } else {
            self.active()
        }
    }

    /// The bindings of `table`, none of them active.
    pub fn new(table: Vec<(u64, FailureType)>) -> (r: FailureState)
        requires
            codes_unique(table@),
        ensures
            r.wf(),
            r.table() == table@,
            forall|i: int| 0 <= i < r.active().len() ==> !r.active()[i],
    {
        let mut active: Vec<bool> = Vec::new();
        let mut i: usize = 0;
        while i < table.len()
            invariant
                i <= table@.len(),
                active@.len() == i,
                forall|j: int| 0 <= j < i ==> !active@[j],
            decreases table@.len() - i,
        {
            active.push(false);
            i = i + 1;
        }
        FailureState { table, active }
    }

    /// The failure kind bound to `code`; looking it up changes nothing.
    pub fn kind_of(&self, code: u64) -> (r: Result<FailureType, BridgeError>)
        requires
            self.wf(),
        ensures
            match lookup_spec(self.table(), code) {
                Some(k) => r == Ok::<FailureType, BridgeError>(k),
                None => r == Err::<FailureType, BridgeError>(BridgeError::UnknownFailureCode),
            },
    {
        match find_code(&self.table, code) {
            Some(i) => {
                proof { lemma_lookup_at(self.table@, code, i as int); }
                Ok(self.table[i].1)
            },
            None => Err(BridgeError::UnknownFailureCode),
        }
    }

    /// Marks the failure bound to `code` active (`on`) or inactive, and
    /// returns its kind. An unknown code changes nothing.
    pub fn set_active(&mut self, code: u64, on: bool) -> (r: Result<FailureType, BridgeError>)
        requires
            old(self).wf(),
        ensures
            final(self).wf(),
            final(self).table() == old(self).table(),
            !has_code(old(self).table(), code) ==> {
                &&& r == Err::<FailureType, BridgeError>(BridgeError::UnknownFailureCode)
                &&& final(self).active() == old(self).active()
            },
            match lookup_spec(old(self).table(), code) {
                Some(k) => r == Ok::<FailureType, BridgeError>(k),
                None => r == Err::<FailureType, BridgeError>(BridgeError::UnknownFailureCode),
            },
            final(self).active() == old(self).requested(code, on),
            forall|i: int| 0 <= i < old(self).table().len() && old(self).table()[i].0 == code ==> final(self).active()[i] == on,
    {
        match find_code(&self.table, code) {
            Some(i) => {
                proof { lemma_lookup_at(self.table@, code, i as int); }
                let ghost j = choose|j: int| 0 <= j < self.table@.len() && self.table@[j].0 == code;
                assert(j == i);
                self.active.set(i, on);
                Ok(self.table[i].1)
            },
            None => Err(BridgeError::UnknownFailureCode),
        }
    }

    /// Whether some active binding has kind `kind`.
    pub fn is_active(&self, kind: FailureType) -> (r: bool)
        requires
            self.wf(),
        ensures
            r == exists|i: int| 0 <= i < self.table().len() && self.active()[i] && self.table()[i].1 == kind,
    {
        let mut i: usize = 0;
        while i < self.table.len()
            invariant
                self.wf(),
                i <= self.table@.len(),
                forall|j: int| 0 <= j < i ==> !(self.active@[j] && self.table@[j].1 == kind),
            decreases self.table@.len() - i,
        {
            if self.active[i] && self.table[i].1 == kind {
                return true;
            }
            i = i + 1;
        }
        false
    }
}

/// Looking up a code that no binding has finds nothing, and a request to
/// activate or deactivate it leaves every failure as it was.
pub proof fn lemma_unknown_code(state: FailureState, code: u64, on: bool)
    requires
        state.wf(),
        !has_code(state.table(), code),
    ensures
        lookup_spec(state.table(), code) is None,
        state.requested(code, on) == state.active(),
{
}

/// The lookup of a code depends on the table alone: two states with the same
/// bindings give the same answer, whatever is active.
pub proof fn lemma_lookup_depends_on_table(a: FailureState, b: FailureState, code: u64)
    requires
        a.table() == b.table(),
    ensures
        lookup_spec(a.table(), code) == lookup_spec(b.table(), code),
{
}

} // verus!

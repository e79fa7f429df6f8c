use vstd::prelude::*;

use crate::codex::CallId;
use crate::machine::{loadable, WITNESS_REGISTERS};
use crate::state::{CellAddr, StateCell, StateData};

verus! {

/// Identifier binding operations to one contract.
#[derive(Copy, Clone, Eq, PartialOrd, Ord, Hash, Debug)]
pub struct ContractId(pub [u8; 32]);

impl PartialEq for ContractId {
    fn eq(&self, other: &ContractId) -> (same: bool) {
        let mut i: usize = 0;
        while i < 32
            invariant
                i <= 32,
                forall|k: int| 0 <= k < i ==> self.0[k] == other.0[k],
            decreases 32 - i,
        {
            if self.0[i] != other.0[i] {
                return false;
            }
            i += 1;
        }
        assert(self.0 =~= other.0);
        true
    }
}

impl vstd::std_specs::cmp::PartialEqSpecImpl for ContractId {
    open spec fn obeys_eq_spec() -> bool {
        true
    }

    open spec fn eq_spec(&self, other: &ContractId) -> bool {
        self.0 == other.0
    }
}

/// A memory cell consumed by an operation, with the witness satisfying the lock of the cell.
#[derive(Clone, PartialEq, Eq, Debug)]
pub struct Input {
    pub addr: CellAddr,
    pub witness: StateData,
}

/// A candidate state transition of one contract.
#[derive(Clone, PartialEq, Eq, Debug)]
pub struct Operation {
    pub contract_id: ContractId,
    pub call_id: CallId,
    pub destroying: Vec<Input>,
    pub destructible: Vec<StateCell>,
    pub immutable: Vec<StateData>,
}

impl Input {
    /// Whether the witness can be put into the witness registers of a machine over the field of
    /// the given order.
    pub fn witness_loadable(&self, field_order: u128) -> (ok: bool)
        ensures
            ok == loadable(self.witness@, field_order),
    {
        let mut no: u8 = 0;
        while no < WITNESS_REGISTERS
            invariant
                no <= WITNESS_REGISTERS,
                forall|i: int| 0 <= i < self.witness@.len() && i < no ==> self.witness@[i] < field_order,
            decreases WITNESS_REGISTERS - no,
        {
            if let Some(el) = self.witness.get(no) {
                if el >= field_order {
                    return false;
                }
            }
            no += 1;
        }
        true
    }
}

impl Operation {
    /// Whether the witness of every input can be put into the witness registers of a machine
    /// over the field of the given order: the elements which go into a register are elements of
    /// that field.
    pub open spec fn witnesses_loadable(&self, field_order: u128) -> bool {
        forall|i: int|
            0 <= i < self.destroying@.len() ==> loadable(
                (#[trigger] self.destroying@[i]).witness@,
                field_order,
            )
    }

    /// Tests [`Operation::witnesses_loadable`].
    pub fn has_loadable_witnesses(&self, field_order: u128) -> (ok: bool)
        ensures
            ok == self.witnesses_loadable(field_order),
    {
        let mut no: usize = 0;
        while no < self.destroying.len()
            invariant
                no <= self.destroying@.len(),
                forall|i: int|
                    0 <= i < no ==> loadable(
                        (#[trigger] self.destroying@[i]).witness@,
                        field_order,
                    ),
            decreases self.destroying@.len() - no,
        {
            if !self.destroying[no].witness_loadable(field_order) {
                return false;
            }
            no += 1;
        }
        true
    }
}

} // verus!

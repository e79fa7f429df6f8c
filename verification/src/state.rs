use aluvm::LibSite;
use vstd::prelude::*;

verus! {

/// Address of a memory cell: the operation which created the cell and the position of the cell
/// among the outputs of that operation.
#[derive(Copy, Clone, PartialEq, Eq, PartialOrd, Ord, Hash, Debug)]
pub struct CellAddr {
    pub opid: [u8; 32],
    pub pos: u16,
}

/// State payload: a sequence of finite-field elements.
#[derive(Clone, PartialEq, Eq, PartialOrd, Ord, Hash, Debug, Default)]
pub struct StateData {
    pub elements: Vec<u128>,
}

impl View for StateData {
    type V = Seq<u128>;

    open spec fn view(&self) -> Seq<u128> {
        self.elements@
    }
}

impl StateData {
    /// The payload made of the given field elements.
    pub fn new(elements: Vec<u128>) -> (data: StateData)
        ensures
            data@ == elements@,
    {
        StateData { elements }
    }

    /// The number of field elements in the payload.
    pub fn len(&self) -> (len: usize)
        ensures
            len == self@.len(),
    {
        self.elements.len()
    }

    /// The field element at position `pos`, if the payload is that long.
    pub fn get(&self, pos: u8) -> (el: Option<u128>)
        ensures
            el == if (pos as int) < self@.len() {
                Some(self@[pos as int])
            } else {
                None
            },
    {
        let index = pos as usize;
        if index < self.elements.len() {
            Some(self.elements[index])
        } else {
            None
        }
    }
}

/// Read-once memory cell: a payload which may be guarded by a lock script.
#[derive(Clone, PartialEq, Eq, Hash, Debug)]
pub struct StateCell {
    pub data: StateData,
    pub lock: Option<LibSite>,
}

} // verus!

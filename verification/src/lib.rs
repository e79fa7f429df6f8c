pub mod codex;
pub mod laws;
pub mod machine;
pub mod operation;
pub mod state;

pub use codex::{
    AccessId, Bounded, CallError, CallId, Codex, Executor, LibRepo, Memory, Outcome, Prepared, Verifiers,
    VmContext,
};
pub use operation::{ContractId, Input, Operation};
pub use state::{CellAddr, StateCell, StateData};

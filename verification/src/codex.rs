use aluvm::{CoreConfig, Lib, LibId, LibSite};
use amplify::confinement::{Confined, TinyOrdMap};
use commit_verify::ReservedBytes;
use vstd::prelude::*;

use crate::machine::{loadable, script_end, Machine};
use crate::operation::{ContractId, Input, Operation};
use crate::state::{CellAddr, StateCell, StateData};

verus! {

/// Selects the verifier which governs an operation.
pub type CallId = u16;

/// Selects a way of access to the state of a contract.
pub type AccessId = u16;

/// The longest name of a codex, in bytes.
pub const NAME_MAX_LEN: usize = 255;

/// The longest name of the developer of a codex, in bytes.
pub const DEVELOPER_MAX_LEN: usize = 65535;

/// A string of at most `MAX` bytes.
///
/// Holds an `amplify::confinement::Confined<String, 0, MAX>`, of which Verus sees nothing; the
/// verification never reads it.
#[derive(PartialEq, Eq, PartialOrd, Ord, Hash, Debug)]
#[verifier::external_body]
pub struct Bounded<const MAX: usize>(pub Confined<String, 0, MAX>);

impl<const MAX: usize> Clone for Bounded<MAX> {
    /// Calls `Clone::clone` of the confined string: the copy is the same string.
    #[verifier::external_body]
    fn clone(&self) -> (copy: Bounded<MAX>)
        ensures
            copy == *self,
    {
        Bounded(self.0.clone())
    }
}

/// Bytes reserved for future use; they are carried and never read.
#[verifier::external_type_specification]
#[verifier::external_body]
pub struct ExReservedBytes<const LEN: usize, const VAL: u8>(ReservedBytes<LEN, VAL>);

/// The entry points of the verifier scripts of a codex by call id: at most 255 of them.
///
/// Holds an `amplify::confinement::TinyOrdMap<CallId, LibSite>`, of which Verus sees nothing:
/// the contracts speak of the map through [`verifier_sites`].
#[derive(PartialEq, Eq, PartialOrd, Ord, Hash, Debug)]
#[verifier::external_body]
pub struct Verifiers(pub TinyOrdMap<CallId, LibSite>);

/// What the map of verifiers holds: the entry point kept under each call id.
pub uninterp spec fn verifier_sites(verifiers: Verifiers) -> Map<CallId, LibSite>;

impl Verifiers {
    /// Calls `BTreeMap::get`, to which the confined map dereferences: the entry point kept
    /// under the call id, if there is one.
    #[verifier::external_body]
    pub(crate) fn get(&self, call_id: CallId) -> (site: Option<LibSite>)
        ensures
            site == if verifier_sites(*self).contains_key(call_id) {
                Some(verifier_sites(*self)[call_id])
            } else {
                None
            },
    {
        self.0.get(&call_id).copied()
    }
}

impl Clone for Verifiers {
    /// Calls `Clone::clone` of the confined map: the copy holds the same entries.
    #[verifier::external_body]
    fn clone(&self) -> (copy: Verifiers)
        ensures
            verifier_sites(copy) == verifier_sites(*self),
    {
        Verifiers(self.0.clone())
    }
}

/// Codex is a crucial part of a contract; it provides a set of commitments to the contract terms
/// and conditions expressed as a deterministic program able to run in SONIC computer model.
#[derive(PartialEq, Eq, PartialOrd, Ord, Hash, Debug)]
pub struct Codex {
    pub name: Bounded<NAME_MAX_LEN>,
    pub developer: Bounded<DEVELOPER_MAX_LEN>,
    pub version: ReservedBytes<2>,
    pub field_order: u128,
    pub input_config: CoreConfig,
    pub verification_config: CoreConfig,
    pub verifiers: Verifiers,
    /// Reserved for the future codex extensions
    pub reserved: ReservedBytes<8>,
}

/// How the run of a script ended: with success, or with failure and the value of the error
/// register, `None` where the script left that register unset.
#[derive(Copy, Clone, PartialEq, Eq, Debug)]
pub enum Outcome {
    Pass,
    Fail(Option<u128>),
}

/// The reason for which an operation is rejected.
#[derive(Copy, Clone, PartialEq, Eq, Debug)]
pub enum CallError {
    /// The operation does not belong to the expected contract.
    WrongContract { expected: ContractId, found: ContractId },
    /// The verifier of the operation is not present in the codex.
    NotFound(CallId),
    /// The operation references a read-once memory cell which is not defined.
    NoReadOnceInput(CellAddr),
    /// The operation references an immutable memory cell which is not defined.
    NoImmutableInput(CellAddr),
    /// The locking conditions of an input of the operation are not satisfied.
    Lock(Option<u128>),
    /// The verifier script failed with the given error code.
    Script(u128),
    /// The verifier script failed and gave no error code.
    ScriptUnspecified,
}

/// Capability-gated memory: the state which earlier operations have left.
///
/// Both accessors are lookups in one snapshot of the memory, which [`Memory::cell`] and
/// [`Memory::data`] stand for: within one verification the same address gives the same answer.
/// An implementation in plain Rust defines the two as the lookups themselves.
pub trait Memory {
    /// The read-once cell under the address in the snapshot.
    spec fn cell(&self, addr: CellAddr) -> Option<StateCell>;

    /// The immutable data under the address in the snapshot.
    spec fn data(&self, addr: CellAddr) -> Option<StateData>;

    /// The read-once cell under the address, if it is defined and not consumed yet.
    fn read_once(&self, addr: CellAddr) -> (cell: Option<StateCell>)
        ensures
            cell == self.cell(addr),
    ;

    /// The immutable data under the address, if there is any.
    fn immutable(&self, addr: CellAddr) -> (data: Option<StateData>)
        ensures
            data == self.data(addr),
    ;
}

/// The read-only environment of a verifier script: the state which the operation consumes and
/// the state which it produces, each in the order of the operation.
#[derive(Clone, PartialEq, Eq, Debug)]
pub struct VmContext<'ctx> {
    pub read_once_input: &'ctx [StateData],
    pub immutable_input: &'ctx [StateData],
    pub read_once_output: &'ctx [StateCell],
    pub immutable_output: &'ctx [StateData],
}

/// Resolves the identifier of a library to its code, for the virtual machine.
///
/// The repository is one set of libraries, which [`LibRepo::lib`] stands for: the same
/// identifier gives the same library. An implementation in plain Rust defines `lib` as the
/// lookup itself, and `safe` as what it knows of its code.
pub trait LibRepo {
    /// The library which the repository has under the identifier.
    spec fn lib(&self, lib_id: LibId) -> Option<Lib>;

    /// Whether a machine of the configuration and the field order, which has run nothing yet,
    /// comes to the end of a run at the entry point with the libraries of this repository
    /// without a panic, whatever its registers hold. For that, in particular:
    /// - the configuration sets a limit of complexity, without which a script which jumps to
    ///   itself never ends;
    /// - the field order is not zero;
    /// - no script which the run reaches writes a value which is not below the field order
    ///   into a register, by a constant or by negating zero: on such a value the machine
    ///   panics.
    spec fn safe(&self, config: CoreConfig, field_order: u128, entry_point: LibSite) -> bool;

    /// The library with the identifier, if the repository has it.
    fn get_lib(&self, lib_id: LibId) -> (lib: Option<&Lib>)
        ensures
            match lib {
                Some(lib) => self.lib(lib_id) == Some(*lib),
                None => self.lib(lib_id) is None,
            },
    ;
}

/// The virtual machine which runs verifier scripts, with the context of the operation as their
/// read-only environment.
pub trait Executor {
    /// Runs the script at the entry point on a fresh machine with the given configuration and
    /// field order, and tells how it ended.
    fn execute<R: LibRepo>(
        &self,
        config: CoreConfig,
        field_order: u128,
        entry_point: LibSite,
        context: &VmContext<'_>,
        repo: &R,
    ) -> Outcome;
}

/// What the first two phases of a verification hand to the verifier script.
#[derive(Debug)]
pub struct Prepared {
    /// Entry point of the verifier script.
    pub entry_point: LibSite,
    /// Data of the cells which the operation destroys, in the order of its inputs.
    pub read_once_input: Vec<StateData>,
    /// Immutable data under the addresses of those cells, in the same order.
    pub immutable_input: Vec<StateData>,
}

impl Outcome {
    /// The verdict on an input whose lock script ended like this.
    pub open spec fn lock_result(self) -> Result<(), CallError> {
        match self {
            Outcome::Pass => Ok(()),
            Outcome::Fail(code) => Err(CallError::Lock(code)),
        }
    }

    /// The verdict on an operation whose verifier script ended like this.
    pub open spec fn script_result(self) -> Result<(), CallError> {
        match self {
            Outcome::Pass => Ok(()),
            Outcome::Fail(Some(code)) => Err(CallError::Script(code)),
            Outcome::Fail(None) => Err(CallError::ScriptUnspecified),
        }
    }

    /// Turns the end of a lock script into the verdict on the input it guards.
    pub fn lock_verdict(self) -> (res: Result<(), CallError>)
        ensures
            res == self.lock_result(),
    {
        match self {
            Outcome::Pass => Ok(()),
            Outcome::Fail(code) => Err(CallError::Lock(code)),
        }
    }

    /// Turns the end of the verifier script into the verdict on the operation.
    pub fn script_verdict(self) -> (res: Result<(), CallError>)
        ensures
            res == self.script_result(),
    {
        match self {
            Outcome::Pass => Ok(()),
            Outcome::Fail(Some(code)) => Err(CallError::Script(code)),
            Outcome::Fail(None) => Err(CallError::ScriptUnspecified),
        }
    }
}

/// Skipping inputs with immutable data does not change the first missing one.
pub proof fn lemma_skip_present_data<M: Memory>(
    memory: &M,
    inputs: Seq<Input>,
    from: int,
    upto: int,
)
    requires
        0 <= from <= upto <= inputs.len(),
        forall|i: int| from <= i < upto ==> (#[trigger] memory.data(inputs[i].addr)) is Some,
    ensures
        first_missing_data(memory, inputs, from) == first_missing_data(memory, inputs, upto),
    decreases upto - from,
{
    if from < upto {
        assert(memory.data(inputs[from].addr) is Some);
        lemma_skip_present_data(memory, inputs, from + 1, upto);
    }
}

/// The first input at or after position `from` under whose address the memory has no immutable
/// data, as an error.
pub open spec fn first_missing_data<M: Memory>(memory: &M, inputs: Seq<Input>, from: int) -> Option<
    CallError,
>
    decreases inputs.len() - from,
{
    if from >= inputs.len() {
        None
    } else if memory.data(inputs[from].addr) is None {
        Some(CallError::NoImmutableInput(inputs[from].addr))
    } else {
        first_missing_data(memory, inputs, from + 1)
    }
}

/// The data of the cells under the addresses of the inputs, in the order of the inputs.
pub open spec fn read_once_inputs<M: Memory>(memory: &M, inputs: Seq<Input>) -> Seq<StateData> {
    Seq::new(inputs.len(), |i: int| memory.cell(inputs[i].addr).unwrap().data)
}

/// The immutable data under the addresses of the inputs, in the order of the inputs.
pub open spec fn immutable_inputs<M: Memory>(memory: &M, inputs: Seq<Input>) -> Seq<StateData> {
    Seq::new(inputs.len(), |i: int| memory.data(inputs[i].addr).unwrap())
}

/// The memory has immutable data under the address of every input before position `upto`.
pub open spec fn data_present<M: Memory>(memory: &M, inputs: Seq<Input>, upto: int) -> bool {
    forall|i: int| 0 <= i < upto ==> (#[trigger] memory.data(inputs[i].addr)) is Some
}

impl Prepared {
    /// Assembles the context of the verifier script: the inputs as they were gathered and the
    /// outputs of the operation, each in the order it has there.
    pub fn context<'ctx>(&'ctx self, operation: &'ctx Operation) -> (context: VmContext<'ctx>)
        ensures
            context.read_once_input@ == self.read_once_input@,
            context.immutable_input@ == self.immutable_input@,
            context.read_once_output@ == operation.destructible@,
            context.immutable_output@ == operation.immutable@,
    {
        VmContext {
            read_once_input: self.read_once_input.as_slice(),
            immutable_input: self.immutable_input.as_slice(),
            read_once_output: operation.destructible.as_slice(),
            immutable_output: operation.immutable.as_slice(),
        }
    }
}

impl Clone for Codex {
    fn clone(&self) -> (copy: Codex)
        ensures
            copy.name == self.name,
            copy.developer == self.developer,
            copy.version == self.version,
            copy.field_order == self.field_order,
            copy.input_config == self.input_config,
            copy.verification_config == self.verification_config,
            verifier_sites(copy.verifiers) == verifier_sites(self.verifiers),
            copy.reserved == self.reserved,
    {
        Codex {
            name: self.name.clone(),
            developer: self.developer.clone(),
            version: self.version,
            field_order: self.field_order,
            input_config: self.input_config,
            verification_config: self.verification_config,
            verifiers: self.verifiers.clone(),
            reserved: self.reserved,
        }
    }
}

impl Codex {
    /// How the lock script at `lock` ends for an input with the witness: the end of its run on
    /// a fresh machine of the input configuration and the field order of the codex, which
    /// holds the witness in its witness registers and nothing else.
    pub open spec fn lock_run<R: LibRepo>(
        &self,
        repo: &R,
        witness: Seq<u128>,
        lock: LibSite,
    ) -> Outcome {
        script_end(repo, self.input_config, self.field_order, witness, lock)
    }

    /// What stops the consumption of one input, if anything does: the cell is not in the memory,
    /// or it has a lock and the run of the lock script fails.
    pub open spec fn cell_fault<M: Memory, R: LibRepo>(
        &self,
        memory: &M,
        repo: &R,
        input: Input,
    ) -> Option<CallError> {
        match memory.cell(input.addr) {
            None => Some(CallError::NoReadOnceInput(input.addr)),
            Some(cell) => match cell.lock {
                None => None,
                Some(lock) => match self.lock_run(repo, input.witness@, lock) {
                    Outcome::Pass => None,
                    Outcome::Fail(code) => Some(CallError::Lock(code)),
                },
            },
        }
    }

    /// The fault of the first input at or after position `from` which has one.
    pub open spec fn first_cell_fault<M: Memory, R: LibRepo>(
        &self,
        memory: &M,
        repo: &R,
        inputs: Seq<Input>,
        from: int,
    ) -> Option<CallError>
        decreases inputs.len() - from,
    {
        if from >= inputs.len() {
            None
        } else {
            match self.cell_fault(memory, repo, inputs[from]) {
                Some(fault) => Some(fault),
                None => self.first_cell_fault(memory, repo, inputs, from + 1),
            }
        }
    }

    /// No input before position `upto` has a fault.
    pub open spec fn cells_pass<M: Memory, R: LibRepo>(
        &self,
        memory: &M,
        repo: &R,
        inputs: Seq<Input>,
        upto: int,
    ) -> bool {
        forall|i: int|
            0 <= i < upto ==> (#[trigger] self.cell_fault(memory, repo, inputs[i])) is None
    }

    /// Whether the lock of the cell of the input, if it has one, can be run: the witness goes
    /// into the witness registers, and the run comes to an end.
    pub open spec fn lock_runnable<M: Memory, R: LibRepo>(
        &self,
        memory: &M,
        repo: &R,
        input: Input,
    ) -> bool {
        match memory.cell(input.addr) {
            Some(cell) => match cell.lock {
                Some(lock) => {
                    &&& loadable(input.witness@, self.field_order)
                    &&& repo.safe(self.input_config, self.field_order, lock)
                },
                None => true,
            },
            None => true,
        }
    }

    /// Whether every lock script which the verification of the operation runs can be run: where
    /// the operation names the contract, the lock of each input before which no input has a
    /// fault.
    pub open spec fn runnable<M: Memory, R: LibRepo>(
        &self,
        contract_id: ContractId,
        operation: &Operation,
        memory: &M,
        repo: &R,
    ) -> bool {
        operation.contract_id == contract_id ==> forall|i: int|
            0 <= i < operation.destroying@.len() && #[trigger] self.cells_pass(
                memory,
                repo,
                operation.destroying@,
                i,
            ) ==> self.lock_runnable(memory, repo, operation.destroying@[i])
    }

    /// Every lock script of the verification can be run where the witness of every input goes
    /// into the witness registers and the repository holds the run of the lock of every cell
    /// of an input for safe.
    pub proof fn lemma_runnable<M: Memory, R: LibRepo>(
        &self,
        contract_id: ContractId,
        operation: &Operation,
        memory: &M,
        repo: &R,
    )
        requires
            operation.witnesses_loadable(self.field_order),
            forall|i: int|
                0 <= i < operation.destroying@.len() ==> (memory.cell(
                    (#[trigger] operation.destroying@[i]).addr,
                ) matches Some(cell) ==> (cell.lock matches Some(lock) ==> repo.safe(
                    self.input_config,
                    self.field_order,
                    lock,
                ))),
        ensures
            self.runnable(contract_id, operation, memory, repo),
    {
        assert forall|i: int| 0 <= i < operation.destroying@.len() implies self.lock_runnable(
            memory,
            repo,
            #[trigger] operation.destroying@[i],
        ) by {}
    }

    /// Skipping inputs without a fault does not change the first fault.
    pub proof fn lemma_skip_passing_cells<M: Memory, R: LibRepo>(
        &self,
        memory: &M,
        repo: &R,
        inputs: Seq<Input>,
        from: int,
        upto: int,
    )
        requires
            0 <= from <= upto <= inputs.len(),
            forall|i: int|
                from <= i < upto ==> (#[trigger] self.cell_fault(memory, repo, inputs[i]))
                    is None,
        ensures
            self.first_cell_fault(memory, repo, inputs, from) == self.first_cell_fault(
                memory,
                repo,
                inputs,
                upto,
            ),
        decreases upto - from,
    {
        if from < upto {
            assert(self.cell_fault(memory, repo, inputs[from]) is None);
            self.lemma_skip_passing_cells(memory, repo, inputs, from + 1, upto);
        }
    }

    /// The error with which the operation is rejected before the verifier script runs, if it is:
    /// by the identity check, by the first faulty input, by the first input without immutable
    /// data, or for want of a verifier, in this order.
    pub open spec fn rejection<M: Memory, R: LibRepo>(
        &self,
        contract_id: ContractId,
        operation: &Operation,
        memory: &M,
        repo: &R,
    ) -> Option<CallError> {
        if operation.contract_id != contract_id {
            Some(CallError::WrongContract { expected: contract_id, found: operation.contract_id })
        } else if self.first_cell_fault(memory, repo, operation.destroying@, 0) is Some {
            self.first_cell_fault(memory, repo, operation.destroying@, 0)
        } else if first_missing_data(memory, operation.destroying@, 0) is Some {
            first_missing_data(memory, operation.destroying@, 0)
        } else if !verifier_sites(self.verifiers).contains_key(operation.call_id) {
            Some(CallError::NotFound(operation.call_id))
        } else {
            None
        }
    }

    /// The result of the verification, given how the verifier script ends.
    pub open spec fn verdict<M: Memory, R: LibRepo>(
        &self,
        contract_id: ContractId,
        operation: &Operation,
        memory: &M,
        repo: &R,
        script_run: Outcome,
    ) -> Result<(), CallError> {
        match self.rejection(contract_id, operation, memory, repo) {
            Some(error) => Err(error),
            None => script_run.script_result(),
        }
    }

    /// Whether `res` is what the first two phases give: the rejection, with an error code of a
    /// lock which is an element of the field, or else the entry point of the verifier and the
    /// inputs in the order of the operation.
    pub open spec fn prepares<M: Memory, R: LibRepo>(
        &self,
        contract_id: ContractId,
        operation: &Operation,
        memory: &M,
        repo: &R,
        res: Result<Prepared, CallError>,
    ) -> bool {
        match res {
            Err(error) => {
                &&& self.rejection(contract_id, operation, memory, repo) == Some(error)
                &&& error matches CallError::Lock(Some(code)) ==> code < self.field_order
            },
            Ok(prepared) => {
                &&& self.rejection(contract_id, operation, memory, repo) is None
                &&& prepared.entry_point == verifier_sites(self.verifiers)[operation.call_id]
                &&& prepared.read_once_input@ == read_once_inputs(memory, operation.destroying@)
                &&& prepared.immutable_input@ == immutable_inputs(memory, operation.destroying@)
            },
        }
    }

    /// Whether `res` is a result of the verification where the verifier script ends as
    /// `script_run` tells: `res` is the verdict, an error code of a lock is an element of the
    /// field, and where the operation is not rejected beforehand, `script_run` is an end which
    /// the executor may give to the script at the entry point kept under the call id of the
    /// operation, run with the inputs from the memory and the outputs of the operation as its
    /// context, each in the order of the operation.
    pub open spec fn verifies<M: Memory, R: LibRepo, E: Executor>(
        &self,
        contract_id: ContractId,
        operation: &Operation,
        memory: &M,
        repo: &R,
        executor: &E,
        script_run: Outcome,
        res: Result<(), CallError>,
    ) -> bool {
        &&& res == self.verdict(contract_id, operation, memory, repo, script_run)
        &&& res matches Err(CallError::Lock(Some(code))) ==> code < self.field_order
        &&& self.rejection(contract_id, operation, memory, repo) is None ==> exists|
            context: VmContext,
        |
            {
                &&& context.read_once_input@ == read_once_inputs(memory, operation.destroying@)
                &&& context.immutable_input@ == immutable_inputs(memory, operation.destroying@)
                &&& context.read_once_output@ == operation.destructible@
                &&& context.immutable_output@ == operation.immutable@
                &&& #[trigger] call_ensures(
                    E::execute::<R>,
                    (
                        executor,
                        self.verification_config,
                        self.field_order,
                        verifier_sites(self.verifiers)[operation.call_id],
                        &context,
                        repo,
                    ),
                    script_run,
                )
            }
    }

    /// Runs the lock script of a cell on a fresh machine of the input configuration and the
    /// field order of the codex, with the witness in the witness registers, and tells how it
    /// ended. An error code which the script leaves is an element of the field of the codex.
    pub fn run_lock<R: LibRepo>(&self, witness: &StateData, lock: LibSite, repo: &R) -> (run:
        Outcome)
        requires
            loadable(witness@, self.field_order),
            repo.safe(self.input_config, self.field_order, lock),
        ensures
            run == self.lock_run(repo, witness@, lock),
            run matches Outcome::Fail(Some(code)) ==> code < self.field_order,
    {
        let mut vm = Machine::for_lock(self.input_config, self.field_order, witness);
        vm.run(lock, repo)
    }

    /// The first two phases of the verification: checks that the operation belongs to the
    /// contract, consumes its inputs in order, running the lock script of each cell which has
    /// one, gathers the immutable data under the same addresses, and finds the verifier.
    pub fn prepare<M: Memory, R: LibRepo>(
        &self,
        contract_id: ContractId,
        operation: &Operation,
        memory: &M,
        repo: &R,
    ) -> (res: Result<Prepared, CallError>)
        requires
            self.runnable(contract_id, operation, memory, repo),
        ensures
            self.prepares(contract_id, operation, memory, repo, res),
    {
        if operation.contract_id != contract_id {
            return Err(
                CallError::WrongContract { expected: contract_id, found: operation.contract_id },
            );
        }
        let count = operation.destroying.len();
        let ghost inputs = operation.destroying@;

        // Phase one: get inputs, verify access conditions
        let mut read_once_input: Vec<StateData> = Vec::new();
        let mut no: usize = 0;
        while no < count
            invariant
                no <= count,
                count == inputs.len(),
                inputs == operation.destroying@,
                operation.contract_id == contract_id,
                self.runnable(contract_id, operation, memory, repo),
                self.cells_pass(memory, repo, inputs, no as int),
                read_once_input@ == read_once_inputs(memory, inputs.take(no as int)),
            decreases count - no,
        {
            let input = &operation.destroying[no];
            assert(self.lock_runnable(memory, repo, inputs[no as int]));
            proof {
                self.lemma_skip_passing_cells(memory, repo, inputs, 0, no as int);
            }
            let cell = match memory.read_once(input.addr) {
                Some(cell) => cell,
                None => {
                    return Err(CallError::NoReadOnceInput(input.addr));
                },
            };
            // Verify that the lock script conditions are satisfied
            if let Some(lock) = cell.lock {
                if let Err(error) = self.run_lock(&input.witness, lock, repo).lock_verdict() {
                    return Err(error);
                }
            }
            read_once_input.push(cell.data);
            assert(self.cell_fault(memory, repo, inputs[no as int]) is None);
            assert(read_once_input@ =~= read_once_inputs(memory, inputs.take(no + 1)));
            no += 1;
        }
        assert(inputs.take(count as int) =~= inputs);
        proof {
            self.lemma_skip_passing_cells(memory, repo, inputs, 0, count as int);
        }

        let mut immutable_input: Vec<StateData> = Vec::new();
        let mut no: usize = 0;
        while no < count
            invariant
                no <= count,
                count == inputs.len(),
                inputs == operation.destroying@,
                operation.contract_id == contract_id,
                self.first_cell_fault(memory, repo, inputs, 0) is None,
                data_present(memory, inputs, no as int),
                immutable_input@ == immutable_inputs(memory, inputs.take(no as int)),
            decreases count - no,
        {
            let input = &operation.destroying[no];
            proof {
                lemma_skip_present_data(memory, inputs, 0, no as int);
            }
            let data = match memory.immutable(input.addr) {
                Some(data) => data,
                None => {
                    return Err(CallError::NoImmutableInput(input.addr));
                },
            };
            immutable_input.push(data);
            assert(immutable_input@ =~= immutable_inputs(memory, inputs.take(no + 1)));
            no += 1;
        }
        assert(inputs.take(count as int) =~= inputs);
        proof {
            lemma_skip_present_data(memory, inputs, 0, count as int);
        }

        // Phase 2: find the verifier of the operation
        match self.verifiers.get(operation.call_id) {
            Some(entry_point) => Ok(Prepared { entry_point, read_once_input, immutable_input }),
            None => Err(CallError::NotFound(operation.call_id)),
        }
    }

    /// Verifies the operation against the codex and the memory: prepares its inputs, runs the
    /// verifier script of its call id on the executor, with the inputs and the outputs of the
    /// operation as the context, and turns the end of the script into the verdict.
    pub fn verify<M: Memory, R: LibRepo, E: Executor>(
        &self,
        contract_id: ContractId,
        operation: &Operation,
        memory: &M,
        repo: &R,
        executor: &E,
    ) -> (res: Result<(), CallError>)
        requires
            self.runnable(contract_id, operation, memory, repo),
        ensures
            exists|script_run: Outcome| #[trigger]
                self.verifies(contract_id, operation, memory, repo, executor, script_run, res),
    {
        let prepared = match self.prepare(contract_id, operation, memory, repo) {
            Ok(prepared) => prepared,
            Err(error) => {
                assert(self.verifies(
                    contract_id,
                    operation,
                    memory,
                    repo,
                    executor,
                    Outcome::Pass,
                    Err(error),
                ));
                return Err(error);
            },
        };
        let context = prepared.context(operation);
        let script_run = executor.execute(
            self.verification_config,
            self.field_order,
            prepared.entry_point,
            &context,
            repo,
        );
        proof {
            assert(call_ensures(
                E::execute::<R>,
                (
                    executor,
                    self.verification_config,
                    self.field_order,
                    verifier_sites(self.verifiers)[operation.call_id],
                    &context,
                    repo,
                ),
                script_run,
            ));
            assert(self.verifies(
                contract_id,
                operation,
                memory,
                repo,
                executor,
                script_run,
                script_run.script_result(),
            ));
        }
        script_run.script_verdict()
    }
}

} // verus!

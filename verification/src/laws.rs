use aluvm::LibSite;
use vstd::prelude::*;

use crate::codex::{
    data_present, first_missing_data, lemma_skip_present_data, verifier_sites, CallError, Codex,
    LibRepo, Memory, Outcome, Prepared,
};
use crate::machine::{blank_registers, loaded_registers, WITNESS_REGISTERS};
use crate::operation::{ContractId, Input, Operation};

verus! {

/// Contract gate: an operation which names another contract is rejected as such, whatever the
/// memory and the repository hold and however any script would end.
pub proof fn law_contract_gate<M: Memory, R: LibRepo>(
    codex: &Codex,
    contract_id: ContractId,
    operation: &Operation,
    memory: &M,
    repo: &R,
    script_run: Outcome,
)
    requires
        operation.contract_id != contract_id,
    ensures
        codex.verdict(contract_id, operation, memory, repo, script_run) == Err::<(), CallError>(
            CallError::WrongContract { expected: contract_id, found: operation.contract_id },
        ),
{
}

/// Missing cell: where every input before position `at` has its cell, with no lock or with a
/// lock whose script passes, and the memory has no read-once cell under the address of the
/// input at `at`, the operation is rejected with that address, whatever immutable data the
/// memory holds and however the scripts of later inputs or the verifier would end.
pub proof fn law_missing_cell<M: Memory, R: LibRepo>(
    codex: &Codex,
    contract_id: ContractId,
    operation: &Operation,
    memory: &M,
    repo: &R,
    script_run: Outcome,
    at: int,
)
    requires
        operation.contract_id == contract_id,
        0 <= at < operation.destroying@.len(),
        codex.cells_pass(memory, repo, operation.destroying@, at),
        memory.cell(operation.destroying@[at].addr) is None,
    ensures
        codex.verdict(contract_id, operation, memory, repo, script_run) == Err::<(), CallError>(
            CallError::NoReadOnceInput(operation.destroying@[at].addr),
        ),
{
    codex.lemma_skip_passing_cells(memory, repo, operation.destroying@, 0, at);
}

/// Failed lock: where no input before position `at` has a fault and the cell of the input at
/// `at` has a lock whose script, run on a fresh machine of the input configuration and the
/// field order with the witness of that input in the witness registers, fails, the operation
/// is rejected with what the error register holds after that run, and no later input counts.
pub proof fn law_failed_lock<M: Memory, R: LibRepo>(
    codex: &Codex,
    contract_id: ContractId,
    operation: &Operation,
    memory: &M,
    repo: &R,
    script_run: Outcome,
    at: int,
    lock: LibSite,
    code: Option<u128>,
)
    requires
        operation.contract_id == contract_id,
        0 <= at < operation.destroying@.len(),
        codex.cells_pass(memory, repo, operation.destroying@, at),
        memory.cell(operation.destroying@[at].addr) is Some,
        memory.cell(operation.destroying@[at].addr).unwrap().lock == Some(lock),
        codex.lock_run(repo, operation.destroying@[at].witness@, lock) == Outcome::Fail(code),
    ensures
        codex.verdict(contract_id, operation, memory, repo, script_run) == Err::<(), CallError>(
            CallError::Lock(code),
        ),
{
    codex.lemma_skip_passing_cells(memory, repo, operation.destroying@, 0, at);
}

/// Missing immutable data: where no input has a fault, the memory has immutable data under
/// the addresses of the inputs before position `at` and none under the address of the input at
/// `at`, the operation is rejected with that address.
pub proof fn law_missing_data<M: Memory, R: LibRepo>(
    codex: &Codex,
    contract_id: ContractId,
    operation: &Operation,
    memory: &M,
    repo: &R,
    script_run: Outcome,
    at: int,
)
    requires
        operation.contract_id == contract_id,
        codex.cells_pass(memory, repo, operation.destroying@, operation.destroying@.len() as int),
        0 <= at < operation.destroying@.len(),
        data_present(memory, operation.destroying@, at),
        memory.data(operation.destroying@[at].addr) is None,
    ensures
        codex.verdict(contract_id, operation, memory, repo, script_run) == Err::<(), CallError>(
            CallError::NoImmutableInput(operation.destroying@[at].addr),
        ),
{
    let inputs = operation.destroying@;
    codex.lemma_skip_passing_cells(memory, repo, inputs, 0, inputs.len() as int);
    lemma_skip_present_data(memory, inputs, 0, at);
}

/// An operation is not rejected before its verifier script runs exactly if it names the
/// contract, every input has its cell, with no lock or with a lock whose script passes, the
/// memory has immutable data under the address of every input, and the codex has a verifier
/// under the call id.
pub proof fn law_admission<M: Memory, R: LibRepo>(
    codex: &Codex,
    contract_id: ContractId,
    operation: &Operation,
    memory: &M,
    repo: &R,
)
    ensures
        codex.rejection(contract_id, operation, memory, repo) is None <==> {
            &&& operation.contract_id == contract_id
            &&& codex.cells_pass(
                memory,
                repo,
                operation.destroying@,
                operation.destroying@.len() as int,
            )
            &&& data_present(memory, operation.destroying@, operation.destroying@.len() as int)
            &&& verifier_sites(codex.verifiers).contains_key(operation.call_id)
        },
{
    let inputs = operation.destroying@;
    let count = inputs.len() as int;
    if codex.first_cell_fault(memory, repo, inputs, 0) is None {
        lemma_faultless_cells(codex, memory, repo, inputs, 0);
    }
    if first_missing_data(memory, inputs, 0) is None {
        lemma_no_missing_data(memory, inputs, 0);
    }
    if codex.cells_pass(memory, repo, inputs, count) {
        codex.lemma_skip_passing_cells(memory, repo, inputs, 0, count);
    }
    if data_present(memory, inputs, count) {
        lemma_skip_present_data(memory, inputs, 0, count);
    }
}

/// Acceptance: an operation is accepted exactly if it is not rejected before its verifier
/// script runs and that script passes.
pub proof fn law_acceptance<M: Memory, R: LibRepo>(
    codex: &Codex,
    contract_id: ContractId,
    operation: &Operation,
    memory: &M,
    repo: &R,
    script_run: Outcome,
)
    ensures
        codex.verdict(contract_id, operation, memory, repo, script_run) is Ok <==> {
            &&& codex.rejection(contract_id, operation, memory, repo) is None
            &&& script_run == Outcome::Pass
        },
{
}

/// Unknown call: where the operation names the contract, no input has a fault, every input
/// has immutable data, and the codex has no verifier under the call id of the operation, the
/// operation is rejected with that call id.
pub proof fn law_unknown_call<M: Memory, R: LibRepo>(
    codex: &Codex,
    contract_id: ContractId,
    operation: &Operation,
    memory: &M,
    repo: &R,
    script_run: Outcome,
)
    requires
        operation.contract_id == contract_id,
        codex.cells_pass(memory, repo, operation.destroying@, operation.destroying@.len() as int),
        data_present(memory, operation.destroying@, operation.destroying@.len() as int),
        !verifier_sites(codex.verifiers).contains_key(operation.call_id),
    ensures
        codex.verdict(contract_id, operation, memory, repo, script_run) == Err::<(), CallError>(
            CallError::NotFound(operation.call_id),
        ),
{
    let inputs = operation.destroying@;
    codex.lemma_skip_passing_cells(memory, repo, inputs, 0, inputs.len() as int);
    lemma_skip_present_data(memory, inputs, 0, inputs.len() as int);
}

/// Error-code propagation: an operation which reaches its verifier script is accepted where the
/// script succeeds, rejected with the error code where the script fails and leaves one, and
/// rejected without a code where the script fails and leaves none.
pub proof fn law_script_verdict<M: Memory, R: LibRepo>(
    codex: &Codex,
    contract_id: ContractId,
    operation: &Operation,
    memory: &M,
    repo: &R,
    code: u128,
)
    requires
        codex.rejection(contract_id, operation, memory, repo) is None,
    ensures
        codex.verdict(contract_id, operation, memory, repo, Outcome::Pass) == Ok::<(), CallError>(
            (),
        ),
        codex.verdict(contract_id, operation, memory, repo, Outcome::Fail(Some(code))) == Err::<
            (),
            CallError,
        >(CallError::Script(code)),
        codex.verdict(contract_id, operation, memory, repo, Outcome::Fail(None)) == Err::<
            (),
            CallError,
        >(CallError::ScriptUnspecified),
{
}

/// Order preservation: what the preparation hands to the verifier script has one entry for each
/// input of the operation, and the entry at each position is the data of the cell, and the
/// immutable data, which the memory has under the address of the input at that position.
pub proof fn law_order_preserved<M: Memory, R: LibRepo>(
    codex: &Codex,
    contract_id: ContractId,
    operation: &Operation,
    memory: &M,
    repo: &R,
    prepared: Prepared,
)
    requires
        codex.prepares(contract_id, operation, memory, repo, Ok(prepared)),
    ensures
        prepared.read_once_input@.len() == operation.destroying@.len(),
        prepared.immutable_input@.len() == operation.destroying@.len(),
        forall|i: int|
            0 <= i < operation.destroying@.len() ==> {
                &&& memory.cell(operation.destroying@[i].addr) is Some
                &&& memory.cell(operation.destroying@[i].addr).unwrap().data
                    == #[trigger] prepared.read_once_input@[i]
            },
        forall|i: int|
            0 <= i < operation.destroying@.len() ==> memory.data(operation.destroying@[i].addr)
                == Some(#[trigger] prepared.immutable_input@[i]),
{
    let inputs = operation.destroying@;
    lemma_faultless_cells(codex, memory, repo, inputs, 0);
    lemma_no_missing_data(memory, inputs, 0);
    assert forall|i: int| 0 <= i < inputs.len() implies memory.cell(inputs[i].addr) is Some by {
        assert(codex.cell_fault(memory, repo, inputs[i]) is None);
    }
}

/// A lock script sees of a witness its first four elements and nothing else: two witnesses
/// which have the same elements at the positions of the witness registers give the same run.
pub proof fn law_lock_sees_witness_registers<R: LibRepo>(
    codex: &Codex,
    repo: &R,
    lock: LibSite,
    first: Seq<u128>,
    second: Seq<u128>,
)
    requires
        forall|i: int|
            0 <= i < WITNESS_REGISTERS ==> (i < first.len() <==> i < second.len()) && (i
                < first.len() ==> first[i] == second[i]),
    ensures
        codex.lock_run(repo, first, lock) == codex.lock_run(repo, second, lock),
{
    assert(loaded_registers(blank_registers(), first) =~= loaded_registers(
        blank_registers(),
        second,
    ));
}

/// Lock isolation: take two verifications with one codex, contract and repository, whose
/// operations and memories agree but for the witness of the input at position `at` and for
/// the lock of its cell. Where in both the input at `at` has no fault, both end alike for the
/// same end of the verifier script: no later lock sees what the lock at `at` or its witness
/// has put into any register.
pub proof fn law_lock_isolation<M: Memory, N: Memory, R: LibRepo>(
    codex: &Codex,
    contract_id: ContractId,
    first: &Operation,
    first_memory: &M,
    second: &Operation,
    second_memory: &N,
    repo: &R,
    script_run: Outcome,
    at: int,
)
    requires
        first.contract_id == second.contract_id,
        first.call_id == second.call_id,
        first.destroying@.len() == second.destroying@.len(),
        0 <= at < first.destroying@.len(),
        forall|i: int|
            0 <= i < first.destroying@.len() ==> (#[trigger] first.destroying@[i]).addr
                == second.destroying@[i].addr,
        forall|i: int|
            0 <= i < first.destroying@.len() ==> first_memory.data(
                (#[trigger] first.destroying@[i]).addr,
            ) == second_memory.data(first.destroying@[i].addr),
        forall|i: int|
            0 <= i < first.destroying@.len() && i != at ==> {
                &&& (#[trigger] first.destroying@[i]).witness@ == second.destroying@[i].witness@
                &&& first_memory.cell(first.destroying@[i].addr) == second_memory.cell(
                    first.destroying@[i].addr,
                )
            },
        codex.cell_fault(first_memory, repo, first.destroying@[at]) is None,
        codex.cell_fault(second_memory, repo, second.destroying@[at]) is None,
    ensures
        codex.verdict(contract_id, first, first_memory, repo, script_run) == codex.verdict(
            contract_id,
            second,
            second_memory,
            repo,
            script_run,
        ),
{
    lemma_same_cell_faults(
        codex,
        first.destroying@,
        first_memory,
        second.destroying@,
        second_memory,
        repo,
        0,
    );
    lemma_same_missing_data(
        first.destroying@,
        first_memory,
        second.destroying@,
        second_memory,
        0,
    );
}

/// Two lists of inputs which have the same fault position by position have the same first
/// fault.
proof fn lemma_same_cell_faults<M: Memory, N: Memory, R: LibRepo>(
    codex: &Codex,
    first: Seq<Input>,
    first_memory: &M,
    second: Seq<Input>,
    second_memory: &N,
    repo: &R,
    from: int,
)
    requires
        0 <= from,
        first.len() == second.len(),
        forall|i: int|
            0 <= i < first.len() ==> (#[trigger] first[i]).addr == second[i].addr,
        forall|i: int|
            0 <= i < first.len() ==> {
                ||| {
                    &&& (#[trigger] first[i]).witness@ == second[i].witness@
                    &&& first_memory.cell(first[i].addr) == second_memory.cell(first[i].addr)
                }
                ||| {
                    &&& codex.cell_fault(first_memory, repo, first[i]) is None
                    &&& codex.cell_fault(second_memory, repo, second[i]) is None
                }
            },
    ensures
        codex.first_cell_fault(first_memory, repo, first, from) == codex.first_cell_fault(
            second_memory,
            repo,
            second,
            from,
        ),
    decreases first.len() - from,
{
    if from < first.len() {
        assert(first[from].addr == second[from].addr);
        assert(codex.cell_fault(first_memory, repo, first[from]) == codex.cell_fault(
            second_memory,
            repo,
            second[from],
        ));
        lemma_same_cell_faults(codex, first, first_memory, second, second_memory, repo, from + 1);
    }
}

/// Two lists of inputs with the same addresses, under which two memories have the same
/// immutable data, have the same first input without such data.
proof fn lemma_same_missing_data<M: Memory, N: Memory>(
    first: Seq<Input>,
    first_memory: &M,
    second: Seq<Input>,
    second_memory: &N,
    from: int,
)
    requires
        0 <= from,
        first.len() == second.len(),
        forall|i: int|
            0 <= i < first.len() ==> (#[trigger] first[i]).addr == second[i].addr,
        forall|i: int|
            0 <= i < first.len() ==> first_memory.data((#[trigger] first[i]).addr)
                == second_memory.data(first[i].addr),
    ensures
        first_missing_data(first_memory, first, from) == first_missing_data(
            second_memory,
            second,
            from,
        ),
    decreases first.len() - from,
{
    if from < first.len() {
        assert(first[from].addr == second[from].addr);
        lemma_same_missing_data(first, first_memory, second, second_memory, from + 1);
    }
}

/// Where no input at or after position `from` is the first with a fault, none of them has one.
proof fn lemma_faultless_cells<M: Memory, R: LibRepo>(
    codex: &Codex,
    memory: &M,
    repo: &R,
    inputs: Seq<Input>,
    from: int,
)
    requires
        0 <= from,
        codex.first_cell_fault(memory, repo, inputs, from) is None,
    ensures
        forall|i: int|
            from <= i < inputs.len() ==> (#[trigger] codex.cell_fault(memory, repo, inputs[i]))
                is None,
    decreases inputs.len() - from,
{
    if from < inputs.len() {
        lemma_faultless_cells(codex, memory, repo, inputs, from + 1);
    }
}

/// Where no input at or after position `from` is the first without immutable data, each of
/// them has such data.
proof fn lemma_no_missing_data<M: Memory>(memory: &M, inputs: Seq<Input>, from: int)
    requires
        0 <= from,
        first_missing_data(memory, inputs, from) is None,
    ensures
        forall|i: int| from <= i < inputs.len() ==> (#[trigger] memory.data(inputs[i].addr)) is Some,
    decreases inputs.len() - from,
{
    if from < inputs.len() {
        lemma_no_missing_data(memory, inputs, from + 1);
    }
}

} // verus!

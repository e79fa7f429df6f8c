use std::cell::RefCell;
use std::collections::BTreeMap;

use aluvm::{CoreConfig, Lib, LibId, LibSite};
use amplify::confinement::{SmallString, TinyOrdMap, TinyString};
use commit_verify::ReservedBytes;
use ultrasonic::{
    Bounded, CallError, CellAddr, Codex, ContractId, Executor, Input, LibRepo, Memory, Operation, Outcome,
    StateCell, StateData, Verifiers, VmContext,
};

const FIELD_ORDER: u128 = 97;

struct Cells {
    read_once: BTreeMap<CellAddr, StateCell>,
    immutable: BTreeMap<CellAddr, StateData>,
}

impl Memory for Cells {
    fn cell(&self, addr: CellAddr) -> Option<StateCell> { self.read_once.get(&addr).cloned() }

    fn data(&self, addr: CellAddr) -> Option<StateData> { self.immutable.get(&addr).cloned() }

    fn read_once(&self, addr: CellAddr) -> Option<StateCell> { self.cell(addr) }

    fn immutable(&self, addr: CellAddr) -> Option<StateData> { self.data(addr) }
}

/// Memory, repository and executor which must not be used.
struct Untouchable;

impl Memory for Untouchable {
    fn cell(&self, _: CellAddr) -> Option<StateCell> { None }

    fn data(&self, _: CellAddr) -> Option<StateData> { None }

    fn read_once(&self, _: CellAddr) -> Option<StateCell> { panic!("memory must not be read") }

    fn immutable(&self, _: CellAddr) -> Option<StateData> { panic!("memory must not be read") }
}

impl LibRepo for Untouchable {
    fn lib(&self, _: LibId) -> Option<Lib> { None }

    fn safe(&self, _: CoreConfig, _: u128, _: LibSite) -> bool { true }

    fn get_lib(&self, _: LibId) -> Option<&Lib> { panic!("no library must be resolved") }
}

impl Executor for Untouchable {
    fn execute<R: LibRepo>(
        &self,
        _: CoreConfig,
        _: u128,
        _: LibSite,
        _: &VmContext<'_>,
        _: &R,
    ) -> Outcome {
        panic!("no script must run")
    }
}

/// Memory which answers `None` to everything.
struct Empty;

impl Memory for Empty {
    fn cell(&self, _: CellAddr) -> Option<StateCell> { None }

    fn data(&self, _: CellAddr) -> Option<StateData> { None }

    fn read_once(&self, _: CellAddr) -> Option<StateCell> { None }

    fn immutable(&self, _: CellAddr) -> Option<StateData> { None }
}

/// What the executor was called with.
#[derive(Clone, PartialEq, Eq, Debug)]
struct Seen {
    config: CoreConfig,
    field_order: u128,
    entry_point: LibSite,
    read_once_input: Vec<StateData>,
    immutable_input: Vec<StateData>,
    read_once_output: Vec<StateCell>,
    immutable_output: Vec<StateData>,
}

/// Executor which records its calls and ends each script in the same way.
struct Scripted {
    outcome: Outcome,
    seen: RefCell<Vec<Seen>>,
}

impl Scripted {
    fn ending(outcome: Outcome) -> Self { Scripted { outcome, seen: RefCell::new(vec![]) } }

    fn calls(&self) -> usize { self.seen.borrow().len() }
}

impl Executor for Scripted {
    fn execute<R: LibRepo>(
        &self,
        config: CoreConfig,
        field_order: u128,
        entry_point: LibSite,
        context: &VmContext<'_>,
        _: &R,
    ) -> Outcome {
        self.seen.borrow_mut().push(Seen {
            config,
            field_order,
            entry_point,
            read_once_input: context.read_once_input.to_vec(),
            immutable_input: context.immutable_input.to_vec(),
            read_once_output: context.read_once_output.to_vec(),
            immutable_output: context.immutable_output.to_vec(),
        });
        self.outcome
    }
}

fn addr(no: u8) -> CellAddr { CellAddr { opid: [no; 32], pos: no as u16 } }

fn data(elements: &[u128]) -> StateData { StateData::new(elements.to_vec()) }

fn input_config() -> CoreConfig { CoreConfig { halt: true, complexity_lim: Some(0) } }

fn verification_config() -> CoreConfig { CoreConfig { halt: false, complexity_lim: Some(1000) } }

fn site(no: u8, offset: u16) -> LibSite { LibSite::new(LibId::from([no; 32]), offset) }

fn codex(verifiers: &[(u16, LibSite)]) -> Codex {
    let sites = verifiers.iter().copied().collect::<BTreeMap<_, _>>();
    Codex {
        name: Bounded(TinyString::try_from("test".to_string()).unwrap()),
        developer: Bounded(SmallString::try_from("nobody".to_string()).unwrap()),
        version: ReservedBytes::default(),
        field_order: FIELD_ORDER,
        input_config: input_config(),
        verification_config: verification_config(),
        verifiers: Verifiers(TinyOrdMap::try_from(sites).unwrap()),
        reserved: ReservedBytes::default(),
    }
}

fn operation(call_id: u16, destroying: Vec<Input>) -> Operation {
    Operation {
        contract_id: ContractId([1; 32]),
        call_id,
        destroying,
        destructible: vec![
            StateCell { data: data(&[11, 12]), lock: None },
            StateCell { data: data(&[13]), lock: Some(site(9, 3)) },
        ],
        immutable: vec![data(&[21]), data(&[]), data(&[22, 23])],
    }
}

fn input(no: u8) -> Input { Input { addr: addr(no), witness: data(&[]) } }

fn unlocked(elements: &[u128]) -> StateCell { StateCell { data: data(elements), lock: None } }

fn memory(cells: &[(u8, StateCell)], immutable: &[(u8, StateData)]) -> Cells {
    Cells {
        read_once: cells.iter().map(|(no, cell)| (addr(*no), cell.clone())).collect(),
        immutable: immutable.iter().map(|(no, data)| (addr(*no), data.clone())).collect(),
    }
}

#[test]
fn wrong_contract_touches_nothing() {
    let codex = codex(&[(1, site(7, 0))]);
    let op = operation(1, vec![input(1)]);
    let other = ContractId([2; 32]);
    let res = codex.verify(other, &op, &Untouchable, &Untouchable, &Untouchable);
    assert_eq!(
        res,
        Err(CallError::WrongContract { expected: other, found: ContractId([1; 32]) })
    );
}

#[test]
fn wrong_contract_comes_before_unknown_call() {
    let codex = codex(&[]);
    let op = operation(5, vec![]);
    let other = ContractId([0; 32]);
    let res = codex.verify(other, &op, &Untouchable, &Untouchable, &Untouchable);
    assert_eq!(
        res,
        Err(CallError::WrongContract { expected: other, found: ContractId([1; 32]) })
    );
}

#[test]
fn contract_ids_differ_in_one_byte() {
    let mut bytes = [1u8; 32];
    bytes[31] = 2;
    let codex = codex(&[(1, site(7, 0))]);
    let op = operation(1, vec![]);
    let res =
        codex.verify(ContractId(bytes), &op, &Untouchable, &Untouchable, &Untouchable);
    assert_eq!(
        res,
        Err(CallError::WrongContract { expected: ContractId(bytes), found: op.contract_id })
    );
}

#[test]
fn happy_path_hands_outputs_in_order() {
    let verifier = site(7, 5);
    let codex = codex(&[(1, verifier)]);
    let op = operation(1, vec![]);
    let executor = Scripted::ending(Outcome::Pass);
    let res = codex.verify(op.contract_id, &op, &Empty, &Untouchable, &executor);
    assert_eq!(res, Ok(()));
    assert_eq!(*executor.seen.borrow(), vec![Seen {
        config: verification_config(),
        field_order: FIELD_ORDER,
        entry_point: verifier,
        read_once_input: vec![],
        immutable_input: vec![],
        read_once_output: vec![
            StateCell { data: data(&[11, 12]), lock: None },
            StateCell { data: data(&[13]), lock: Some(site(9, 3)) },
        ],
        immutable_output: vec![data(&[21]), data(&[]), data(&[22, 23])],
    }]);
}

#[test]
fn verifier_is_chosen_by_call_id() {
    let codex = codex(&[(1, site(7, 5)), (2, site(8, 6)), (300, site(9, 7))]);
    for (call_id, verifier) in [(1, site(7, 5)), (2, site(8, 6)), (300, site(9, 7))] {
        let op = operation(call_id, vec![]);
        let executor = Scripted::ending(Outcome::Pass);
        assert_eq!(codex.verify(op.contract_id, &op, &Empty, &Untouchable, &executor), Ok(()));
        assert_eq!(executor.calls(), 1);
        assert_eq!(executor.seen.borrow()[0].entry_point, verifier);
    }
}

#[test]
fn missing_read_once_cell_is_rejected() {
    let codex = codex(&[(1, site(7, 0))]);
    let op = operation(1, vec![input(1), input(2), input(3)]);
    let mem = memory(&[(1, unlocked(&[1])), (3, unlocked(&[3]))], &[
        (1, data(&[])),
        (2, data(&[])),
        (3, data(&[])),
    ]);
    let res = codex.verify(op.contract_id, &op, &mem, &Untouchable, &Untouchable);
    assert_eq!(res, Err(CallError::NoReadOnceInput(addr(2))));
}

#[test]
fn first_missing_read_once_cell_is_reported() {
    let codex = codex(&[(1, site(7, 0))]);
    let op = operation(1, vec![input(4), input(2), input(3)]);
    let mem = memory(&[(4, unlocked(&[1]))], &[]);
    let res = codex.verify(op.contract_id, &op, &mem, &Untouchable, &Untouchable);
    assert_eq!(res, Err(CallError::NoReadOnceInput(addr(2))));
}

#[test]
fn missing_immutable_data_is_rejected() {
    let codex = codex(&[(1, site(7, 0))]);
    let op = operation(1, vec![input(1), input(2), input(3)]);
    let mem =
        memory(&[(1, unlocked(&[1])), (2, unlocked(&[2])), (3, unlocked(&[3]))], &[(
            1,
            data(&[5]),
        )]);
    let res = codex.verify(op.contract_id, &op, &mem, &Untouchable, &Untouchable);
    assert_eq!(res, Err(CallError::NoImmutableInput(addr(2))));
}

#[test]
fn every_cell_is_read_before_any_immutable_data() {
    let codex = codex(&[(1, site(7, 0))]);
    let op = operation(1, vec![input(1), input(2)]);
    // The first input has a cell and no immutable data; the second has no cell.
    let mem = memory(&[(1, unlocked(&[1]))], &[(2, data(&[5]))]);
    let res = codex.verify(op.contract_id, &op, &mem, &Untouchable, &Untouchable);
    assert_eq!(res, Err(CallError::NoReadOnceInput(addr(2))));
}

#[test]
fn unknown_call_is_rejected() {
    let codex = codex(&[(1, site(7, 0)), (3, site(7, 9))]);
    let op = operation(2, vec![input(1)]);
    let mem = memory(&[(1, unlocked(&[1]))], &[(1, data(&[5]))]);
    let res = codex.verify(op.contract_id, &op, &mem, &Untouchable, &Untouchable);
    assert_eq!(res, Err(CallError::NotFound(2)));
}

#[test]
fn unknown_call_without_inputs_is_rejected() {
    let codex = codex(&[]);
    let op = operation(65535, vec![]);
    let res = codex.verify(op.contract_id, &op, &Untouchable, &Untouchable, &Untouchable);
    assert_eq!(res, Err(CallError::NotFound(65535)));
}

#[test]
fn inputs_are_resolved_before_the_verifier_is_looked_up() {
    let codex = codex(&[]);
    let op = operation(2, vec![input(1)]);
    let res = codex.verify(op.contract_id, &op, &Empty, &Untouchable, &Untouchable);
    assert_eq!(res, Err(CallError::NoReadOnceInput(addr(1))));

    let mem = memory(&[(1, unlocked(&[1]))], &[]);
    let res = codex.verify(op.contract_id, &op, &mem, &Untouchable, &Untouchable);
    assert_eq!(res, Err(CallError::NoImmutableInput(addr(1))));
}

#[test]
fn script_error_code_is_propagated() {
    let codex = codex(&[(1, site(7, 0))]);
    let op = operation(1, vec![]);
    for code in [1u128, 42, 96, u128::MAX] {
        let executor = Scripted::ending(Outcome::Fail(Some(code)));
        let res = codex.verify(op.contract_id, &op, &Empty, &Untouchable, &executor);
        assert_eq!(res, Err(CallError::Script(code)));
    }
}

#[test]
fn script_failure_without_code_is_unspecified() {
    let codex = codex(&[(1, site(7, 0))]);
    let op = operation(1, vec![]);
    let executor = Scripted::ending(Outcome::Fail(None));
    let res = codex.verify(op.contract_id, &op, &Empty, &Untouchable, &executor);
    assert_eq!(res, Err(CallError::ScriptUnspecified));
}

#[test]
fn zero_error_code_is_not_an_unset_register() {
    let codex = codex(&[(1, site(7, 0))]);
    let op = operation(1, vec![]);
    let executor = Scripted::ending(Outcome::Fail(Some(0)));
    let res = codex.verify(op.contract_id, &op, &Empty, &Untouchable, &executor);
    assert_eq!(res, Err(CallError::Script(0)));
}

#[test]
fn inputs_keep_the_order_of_the_operation() {
    let codex = codex(&[(1, site(7, 0))]);
    let op = operation(1, vec![input(3), input(1), input(2)]);
    let mem =
        memory(&[(1, unlocked(&[10])), (2, unlocked(&[20, 21])), (3, unlocked(&[30]))], &[
            (1, data(&[100])),
            (2, data(&[])),
            (3, data(&[300, 301])),
        ]);
    let executor = Scripted::ending(Outcome::Pass);
    let res = codex.verify(op.contract_id, &op, &mem, &Untouchable, &executor);
    assert_eq!(res, Ok(()));
    assert_eq!(executor.calls(), 1);
    let seen = executor.seen.borrow()[0].clone();
    assert_eq!(seen.read_once_input, vec![data(&[30]), data(&[10]), data(&[20, 21])]);
    assert_eq!(seen.immutable_input, vec![data(&[300, 301]), data(&[100]), data(&[])]);
    assert_eq!(seen.read_once_output, op.destructible);
    assert_eq!(seen.immutable_output, op.immutable);
}

#[test]
fn repeated_inputs_are_not_deduplicated() {
    let codex = codex(&[(1, site(7, 0))]);
    let op = operation(1, vec![input(1), input(2), input(1)]);
    let mem = memory(&[(1, unlocked(&[10])), (2, unlocked(&[10]))], &[
        (1, data(&[7])),
        (2, data(&[8])),
    ]);
    let executor = Scripted::ending(Outcome::Pass);
    let res = codex.verify(op.contract_id, &op, &mem, &Untouchable, &executor);
    assert_eq!(res, Ok(()));
    let seen = executor.seen.borrow()[0].clone();
    assert_eq!(seen.read_once_input, vec![data(&[10]), data(&[10]), data(&[10])]);
    assert_eq!(seen.immutable_input, vec![data(&[7]), data(&[8]), data(&[7])]);
}

#[test]
fn cells_without_locks_resolve_no_library() {
    let codex = codex(&[(1, site(7, 0))]);
    let mut first = input(1);
    first.witness = data(&[1, 2, 3, 4, 5]);
    let op = operation(1, vec![first, input(2)]);
    let mem = memory(&[(1, unlocked(&[10])), (2, unlocked(&[20]))], &[
        (1, data(&[])),
        (2, data(&[])),
    ]);
    let executor = Scripted::ending(Outcome::Pass);
    let res = codex.verify(op.contract_id, &op, &mem, &Untouchable, &executor);
    assert_eq!(res, Ok(()));
}

#[test]
fn preparation_gives_the_entry_point_and_the_inputs() {
    let codex = codex(&[(1, site(7, 4))]);
    let op = operation(1, vec![input(2), input(1)]);
    let mem = memory(&[(1, unlocked(&[10])), (2, unlocked(&[20]))], &[
        (1, data(&[1])),
        (2, data(&[2])),
    ]);
    let prepared = codex.prepare(op.contract_id, &op, &mem, &Untouchable).unwrap();
    assert_eq!(prepared.entry_point, site(7, 4));
    assert_eq!(prepared.read_once_input, vec![data(&[20]), data(&[10])]);
    assert_eq!(prepared.immutable_input, vec![data(&[2]), data(&[1])]);

    let context = prepared.context(&op);
    assert_eq!(context.read_once_input, &[data(&[20]), data(&[10])][..]);
    assert_eq!(context.immutable_input, &[data(&[2]), data(&[1])][..]);
    assert_eq!(context.read_once_output, &op.destructible[..]);
    assert_eq!(context.immutable_output, &op.immutable[..]);
}

#[test]
fn preparation_rejects_like_verification() {
    let codex = codex(&[(1, site(7, 4))]);
    let op = operation(9, vec![input(1)]);
    let other = ContractId([3; 32]);
    assert_eq!(
        codex.prepare(other, &op, &Untouchable, &Untouchable).unwrap_err(),
        CallError::WrongContract { expected: other, found: op.contract_id }
    );
    assert_eq!(
        codex.prepare(op.contract_id, &op, &Empty, &Untouchable).unwrap_err(),
        CallError::NoReadOnceInput(addr(1))
    );
    let mem = memory(&[(1, unlocked(&[10]))], &[]);
    assert_eq!(
        codex.prepare(op.contract_id, &op, &mem, &Untouchable).unwrap_err(),
        CallError::NoImmutableInput(addr(1))
    );
    let mem = memory(&[(1, unlocked(&[10]))], &[(1, data(&[]))]);
    assert_eq!(
        codex.prepare(op.contract_id, &op, &mem, &Untouchable).unwrap_err(),
        CallError::NotFound(9)
    );
}

#[test]
fn verdicts_of_script_ends() {
    assert_eq!(Outcome::Pass.script_verdict(), Ok(()));
    assert_eq!(Outcome::Fail(Some(7)).script_verdict(), Err(CallError::Script(7)));
    assert_eq!(Outcome::Fail(None).script_verdict(), Err(CallError::ScriptUnspecified));
    assert_eq!(Outcome::Pass.lock_verdict(), Ok(()));
    assert_eq!(Outcome::Fail(Some(7)).lock_verdict(), Err(CallError::Lock(Some(7))));
    assert_eq!(Outcome::Fail(Some(0)).lock_verdict(), Err(CallError::Lock(Some(0))));
    assert_eq!(Outcome::Fail(None).lock_verdict(), Err(CallError::Lock(None)));
}

#[test]
fn codex_copies_are_equal() {
    let codex = codex(&[(1, site(7, 4)), (2, site(7, 8))]);
    let copy = codex.clone();
    assert_eq!(copy, codex);
    assert_eq!(copy.name.0.as_str(), "test");
    assert_eq!(copy.developer.0.as_str(), "nobody");
    assert_eq!(copy.verifiers.0.len(), 2);
    assert_eq!(copy.verifiers.0.get(&2), Some(&site(7, 8)));
    assert_eq!(copy.field_order, FIELD_ORDER);
    assert_eq!(copy.input_config, input_config());
    assert_eq!(copy.verification_config, verification_config());
}

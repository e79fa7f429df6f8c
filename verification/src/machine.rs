use aluvm::regs::Status;
use aluvm::{CoreConfig, CoreExt, Lib, LibId, LibSite, Vm};
use amplify::num::{u256, u4};
use vstd::prelude::*;
use zkaluvm::gfa::Instr;
use zkaluvm::{fe256, GfaConfig, RegE};

use crate::codex::{LibRepo, Outcome};
use crate::state::StateData;

verus! {

/// Identifier of a library, as the virtual machine knows it.
#[verifier::external_type_specification]
#[verifier::external_body]
pub struct ExLibId(LibId);

/// Place in the code of a library: the entry point of a script.
#[verifier::external_type_specification]
#[verifier::external_body]
pub struct ExLibSite(LibSite);

/// Library of executable code.
#[verifier::external_type_specification]
#[verifier::external_body]
pub struct ExLib(Lib);

/// Configuration of the core of a virtual machine.
#[verifier::external_type_specification]
#[verifier::external_body]
pub struct ExCoreConfig(CoreConfig);

/// Number of the field-element registers of the machine.
pub const REGISTER_COUNT: u8 = 16;

/// Number of the registers, counted from the first, which receive the witness of a lock script.
pub const WITNESS_REGISTERS: u8 = 4;

/// Position of the register from which the error code of a failed script is read.
pub const ERROR_REGISTER: u8 = 7;

/// Virtual machine with the finite-field instruction set, on which lock scripts run.
///
/// Holds an `aluvm::Vm<zkaluvm::gfa::Instr<LibId>>`, of which Verus sees nothing: the contracts
/// below speak of the machine through [`registers`], [`modulus`], [`configuration`] and
/// [`pristine`].
#[verifier::external_body]
pub struct Machine(Vm<Instr<LibId>>);

/// The field-element registers of the machine by position, `None` for a register which is not
/// set.
pub uninterp spec fn registers(vm: Machine) -> Seq<Option<u128>>;

/// The order of the finite field with which the machine was made.
pub uninterp spec fn modulus(vm: Machine) -> u128;

/// The configuration of the core with which the machine was made.
pub uninterp spec fn configuration(vm: Machine) -> CoreConfig;

/// Whether the machine has run nothing since it was made: its flags, its counters and its call
/// stack are as a new core has them.
pub uninterp spec fn pristine(vm: Machine) -> bool;

/// How a machine ends the run of a script: whether it stops in the state of success, and what
/// its registers hold then. The machine is one which was made with the configuration and the
/// field order, holds the registers and has run nothing before; it starts at the entry point
/// and finds the code of a library in the map. The value means nothing for a run which does not
/// come to an end.
pub uninterp spec fn execution(
    libs: Map<LibId, Lib>,
    config: CoreConfig,
    field_order: u128,
    registers: Seq<Option<u128>>,
    entry_point: LibSite,
) -> (bool, Seq<Option<u128>>);

/// The libraries of the repository by their identifiers.
pub open spec fn library_map<R: LibRepo>(repo: &R) -> Map<LibId, Lib> {
    Map::new(|lib_id: LibId| repo.lib(lib_id) is Some, |lib_id: LibId| repo.lib(lib_id).unwrap())
}

/// Register file in which no register is set.
pub open spec fn blank_registers() -> Seq<Option<u128>> {
    Seq::new(REGISTER_COUNT as nat, |i: int| None::<u128>)
}

/// Register file `before` after the witness is put into the witness registers: the register at
/// position `i` among the witness registers takes the `i`-th element of the witness where the
/// witness has one, and every other register is left as it was.
pub open spec fn loaded_registers(before: Seq<Option<u128>>, witness: Seq<u128>) -> Seq<
    Option<u128>,
> {
    Seq::new(
        before.len(),
        |i: int|
            if i < WITNESS_REGISTERS && i < witness.len() {
                Some(witness[i])
            } else {
                before[i]
            },
    )
}

/// The end of a run after which the machine holds `registers`, where `ok` tells whether it
/// stopped in the state of success.
pub open spec fn ended(ok: bool, registers: Seq<Option<u128>>) -> Outcome {
    if ok {
        Outcome::Pass
    } else {
        Outcome::Fail(registers[ERROR_REGISTER as int])
    }
}

/// The end of the run of a script at the entry point on a fresh machine of the configuration
/// and the field order which holds the witness in its witness registers and nothing else.
pub open spec fn script_end<R: LibRepo>(
    repo: &R,
    config: CoreConfig,
    field_order: u128,
    witness: Seq<u128>,
    entry_point: LibSite,
) -> Outcome {
    let end = execution(
        library_map(repo),
        config,
        field_order,
        loaded_registers(blank_registers(), witness),
        entry_point,
    );
    ended(end.0, end.1)
}

/// Whether each element of the witness which goes into a witness register belongs to the field
/// of the given order.
pub open spec fn loadable(witness: Seq<u128>, field_order: u128) -> bool {
    forall|i: int| 0 <= i < witness.len() && i < WITNESS_REGISTERS ==> witness[i] < field_order
}

impl Machine {
    /// Calls `aluvm::Vm::with`, which makes the core with `aluvm::Core::with` and
    /// `zkaluvm::GfaCore::with`: the configuration and the field order are the ones given, the
    /// order widened to 256 bits, all sixteen registers are unset and nothing has run.
    #[verifier::external_body]
    pub(crate) fn with(config: CoreConfig, field_order: u128) -> (vm: Machine)
        ensures
            registers(vm) == blank_registers(),
            modulus(vm) == field_order,
            configuration(vm) == config,
            pristine(vm),
    {
        Machine(Vm::with(config, GfaConfig { field_order: u256::from(field_order) }))
    }

    /// Calls `CoreExt::set` of `zkaluvm::GfaCore`, which stores the value in the register and
    /// touches nothing else. That method panics on a value which is not below the field order.
    #[verifier::external_body]
    pub(crate) fn set(&mut self, reg: u8, val: u128)
        requires
            reg < REGISTER_COUNT,
            val < modulus(*old(self)),
        ensures
            registers(*final(self)) == registers(*old(self)).update(reg as int, Some(val)),
            modulus(*final(self)) == modulus(*old(self)),
            configuration(*final(self)) == configuration(*old(self)),
            pristine(*final(self)) == pristine(*old(self)),
    {
        self.0.core.cx.set(RegE::from(u4::with(reg)), fe256::from(val));
    }

    /// Calls `CoreExt::get` of `zkaluvm::GfaCore`, which reads the register. The machine keeps
    /// no value which is not below its field order: the core stores a value through
    /// `CoreExt::put` alone, which panics on any other. The field order is a number of 128
    /// bits, so that the lower 16 bytes of a value hold it whole.
    #[verifier::external_body]
    pub(crate) fn get(&self, reg: u8) -> (val: Option<u128>)
        requires
            reg < REGISTER_COUNT,
        ensures
            val == registers(*self)[reg as int],
            val matches Some(el) ==> el < modulus(*self),
    {
        let fe = self.0.core.cx.get(RegE::from(u4::with(reg)))?;
        let bytes = fe.to_u256().to_le_bytes();
        let mut low = [0u8; 16];
        low.copy_from_slice(&bytes[..16]);
        Some(u128::from_le_bytes(low))
    }

    /// Calls `aluvm::Vm::exec` at the entry point, with the empty context of the finite-field
    /// instruction set and the repository as the resolver of libraries. Returns whether the
    /// machine stopped with its check register in the state `Status::Ok`.
    ///
    /// The run has no input but the machine, the entry point and the libraries which the
    /// repository resolves, so that on a machine which has run nothing its end is
    /// [`execution`] of them. The field order and the configuration stay as they are: the core
    /// takes them when it is made and a run never writes them. The call panics where a script
    /// writes a value which is not below the field order, and does not return where a script
    /// runs without end: [`LibRepo::safe`] leaves both out.
    #[verifier::external_body]
    pub(crate) fn exec<R: LibRepo>(&mut self, entry_point: LibSite, repo: &R) -> (ok: bool)
        requires
            pristine(*old(self)),
            repo.safe(configuration(*old(self)), modulus(*old(self)), entry_point),
        ensures
            (ok, registers(*final(self))) == execution(
                library_map(repo),
                configuration(*old(self)),
                modulus(*old(self)),
                registers(*old(self)),
                entry_point,
            ),
            modulus(*final(self)) == modulus(*old(self)),
            configuration(*final(self)) == configuration(*old(self)),
    {
        self.0.exec(entry_point, &(), |lib_id| repo.get_lib(lib_id)) == Status::Ok
    }

    /// Puts the witness into the witness registers, in order. Elements beyond the last witness
    /// register are ignored; a witness register for which the witness has no element is left
    /// untouched.
    fn load_witness(&mut self, witness: &StateData)
        requires
            registers(*old(self)).len() == REGISTER_COUNT,
            loadable(witness@, modulus(*old(self))),
        ensures
            registers(*final(self)) == loaded_registers(registers(*old(self)), witness@),
            modulus(*final(self)) == modulus(*old(self)),
            configuration(*final(self)) == configuration(*old(self)),
            pristine(*final(self)) == pristine(*old(self)),
    {
        let mut no: u8 = 0;
        while no < WITNESS_REGISTERS
            invariant
                no <= WITNESS_REGISTERS,
                modulus(*self) == modulus(*old(self)),
                configuration(*self) == configuration(*old(self)),
                pristine(*self) == pristine(*old(self)),
                loadable(witness@, modulus(*self)),
                registers(*self).len() == REGISTER_COUNT,
                forall|i: int|
                    0 <= i < REGISTER_COUNT ==> registers(*self)[i] == if i < no && i
                        < witness@.len() {
                        Some(witness@[i])
                    } else {
                        registers(*old(self))[i]
                    },
            decreases WITNESS_REGISTERS - no,
        {
            if let Some(el) = witness.get(no) {
                self.set(no, el);
            }
            no += 1;
        }
        assert(registers(*self) =~= loaded_registers(registers(*old(self)), witness@));
    }

    /// A fresh machine for the lock script of one input: made with the given configuration and
    /// field order, it holds the witness of the input in its witness registers and nothing
    /// else, whatever any machine before it has held.
    pub fn for_lock(config: CoreConfig, field_order: u128, witness: &StateData) -> (vm: Machine)
        requires
            loadable(witness@, field_order),
        ensures
            registers(vm) == loaded_registers(blank_registers(), witness@),
            modulus(vm) == field_order,
            configuration(vm) == config,
            pristine(vm),
    {
        let mut vm = Machine::with(config, field_order);
        vm.load_witness(witness);
        vm
    }

    /// How a run of a script on this machine ended, where `ok` tells whether the machine
    /// stopped in the state of success: after a failure the error code is what the error
    /// register holds.
    pub fn end_of_run(&self, ok: bool) -> (run: Outcome)
        ensures
            run == ended(ok, registers(*self)),
            run matches Outcome::Fail(Some(code)) ==> code < modulus(*self),
    {
        if ok {
            Outcome::Pass
        } else {
            Outcome::Fail(self.get(ERROR_REGISTER))
        }
    }

    /// Runs the script at the entry point on a machine which has run nothing yet, and tells how
    /// it ended; after a failure, with the error register as the script left it, which holds
    /// an element of the field of the machine if it holds anything.
    pub fn run<R: LibRepo>(&mut self, entry_point: LibSite, repo: &R) -> (run: Outcome)
        requires
            pristine(*old(self)),
            repo.safe(configuration(*old(self)), modulus(*old(self)), entry_point),
        ensures
            ({
                let end = execution(
                    library_map(repo),
                    configuration(*old(self)),
                    modulus(*old(self)),
                    registers(*old(self)),
                    entry_point,
                );
                &&& run == ended(end.0, end.1)
                &&& registers(*final(self)) == end.1
            }),
            modulus(*final(self)) == modulus(*old(self)),
            configuration(*final(self)) == configuration(*old(self)),
            run matches Outcome::Fail(Some(code)) ==> code < modulus(*old(self)),
    {
        let ok = self.exec(entry_point, repo);
        self.end_of_run(ok)
    }
}

} // verus!

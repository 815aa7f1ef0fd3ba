//! What follows from the rules of the engine, for every program and every state.

use crate::assembler::instruction::Instruction;
use crate::opcode::Opcode;
use crate::vm::{
    fits_pc, holds, is_comparison, operand_bytes, registers_exist, Machine, Step, Stop, VM,
};
use vstd::prelude::*;

verus! {

impl Machine {
    /// A state that a `VM` can be in: thirty-two registers, and a program length and a
    /// program counter of the machine's index type.
    pub open spec fn well_formed(self) -> bool {
        self.registers.len() == 32 && fits_pc(self.pc) && fits_pc(self.program.len() as int)
    }

    /// Whether a step stops the machine within `fuel` steps.
    pub open spec fn stops_within(self, fuel: nat) -> bool
        decreases fuel,
    {
        fuel > 0 && (self.step().exit is Some || self.step().state.stops_within((fuel - 1) as nat))
    }

    /// Where the program counter stands after the operation `op`, fetched at the program
    /// counter of `self`, has been carried out: four bytes on, or where a jump leads.
    /// `JMPF` and `JMPB` count from behind their register byte.
    pub open spec fn landing(self, op: Opcode) -> int {
        let value = self.registers[self.program[self.pc + 1] as int] as int;
        match op {
            Opcode::HLT => self.pc + 1,
            Opcode::JMP => value,
            Opcode::JMPF => self.pc + 2 + value,
            Opcode::JMPB => self.pc + 2 - value,
            Opcode::JEQ => if self.equal_flag {
                value
            } else {
                self.pc + 4
            },
            Opcode::JNEQ => if !self.equal_flag {
                value
            } else {
                self.pc + 4
            },
            _ => self.pc + 4,
        }
    }
}

/// A program of whole code words whose operations are `HLT`, `LOAD`, `ADD`, `SUB`, `MUL`
/// and `DIV` only.
pub open spec fn straight_line(program: Seq<u8>) -> bool {
    &&& program.len() % 4 == 0
    &&& forall|i: int| 0 <= i < program.len() && i % 4 == 0 ==> #[trigger] program[i] <= 5
}

/// The state of every `VM` is well formed.
pub proof fn lemma_vm_well_formed(vm: VM)
    ensures
        vm@.well_formed(),
{
    assert(vm.program@.len() == vm.program.len());
    assert(vm.registers@.len() == 32);
}

/// A step leaves the program as it is, and a well-formed state well formed. It never
/// stops the machine for want of steps.
pub proof fn lemma_step_preserves(s: Machine)
    requires
        s.well_formed(),
    ensures
        s.step().state.program == s.program,
        s.step().state.well_formed(),
        s.step().exit != Some(Stop::OutOfSteps),
{
}

/// A step that stops the machine changes nothing but the program counter, which stands
/// behind the bytes that were fetched.
pub proof fn lemma_stop_changes_nothing(s: Machine)
    requires
        s.step().exit is Some,
    ensures
        s.step().state.at(s.pc) == s,
        s.pc <= s.step().state.pc <= s.pc + 4,
{
}

/// A step on a legal opcode either goes on, with the program counter where the operation
/// lands, or stops the machine. It stops with code 0 exactly on `HLT`, and then the program
/// counter stands behind the opcode byte and nothing else has changed.
pub proof fn lemma_step_advances(s: Machine, op: Opcode)
    requires
        0 <= s.pc < s.program.len(),
        Opcode::of_byte(s.program[s.pc]) == Some(op),
    ensures
        s.step().exit is None ==> s.step().state.pc == s.landing(op),
        s.step().exit == Some(Stop::Halt) <==> op == Opcode::HLT,
        op == Opcode::HLT ==> s.step().state == s.at(s.pc + 1),
        s.step().exit matches Some(why) ==> (why.code() == 0 <==> op == Opcode::HLT),
{
}

/// A step goes on exactly if an operation other than `HLT` stands at the program counter
/// with all its operand bytes, its registers exist, its divisor is not zero and it lands
/// on a program counter.
pub proof fn lemma_step_goes_on(s: Machine)
    requires
        s.well_formed(),
    ensures
        s.step().exit is None <==> {
            &&& 0 <= s.pc < s.program.len()
            &&& Opcode::of_byte(s.program[s.pc]) matches Some(op) && {
                &&& op != Opcode::HLT
                &&& s.pc + 1 + operand_bytes(op) <= s.program.len()
                &&& registers_exist(
                    op,
                    s.program[s.pc + 1],
                    s.program[s.pc + 2],
                    s.program[s.pc + 3],
                )
                &&& op == Opcode::DIV ==> s.registers[s.program[s.pc + 2] as int] != 0
                &&& fits_pc(s.landing(op))
            }
        },
{
}

/// A step at or past the end of the program, or on a byte that is no opcode, stops the
/// machine with code -1.
pub proof fn lemma_step_fatal(s: Machine)
    requires
        !(0 <= s.pc < s.program.len()) || Opcode::of_byte(s.program[s.pc]) is None,
    ensures
        s.step() == if 0 <= s.pc < s.program.len() {
            s.at(s.pc + 1).stop(Stop::Unrecognized)
        } else {
            s.stop(Stop::Overrun)
        },
        s.step().exit->0.code() == -1,
{
}

/// A comparison of two registers sets the flag to what the comparison says of their
/// values, moves the program counter over its code word and changes nothing else.
pub proof fn lemma_comparison_sets_flag(s: Machine, op: Opcode)
    requires
        is_comparison(op),
        0 <= s.pc,
        s.pc + 3 <= s.program.len(),
        fits_pc(s.pc + 4),
        s.program[s.pc] == op.byte(),
        s.program[s.pc + 1] < 32,
        s.program[s.pc + 2] < 32,
    ensures
        s.step() == (Step {
            state: Machine {
                equal_flag: holds(
                    op,
                    s.registers[s.program[s.pc + 1] as int],
                    s.registers[s.program[s.pc + 2] as int],
                ),
                pc: s.pc + 4,
                ..s
            },
            exit: None,
        }),
{
}

/// A `LOAD` of a number of sixteen bits without a sign, followed by `HLT`: the run ends
/// with code 0, the number in the register, and the program counter behind the opcode
/// byte of the `HLT`.
pub proof fn lemma_load_then_halt(r: u8, n: i32, fuel: nat)
    requires
        r < 32,
        0 <= n < 65536,
        fuel >= 2,
    ensures
        ({
            let program = Instruction::LOAD(r, n).word() + Instruction::HLT.word();
            let start = Machine { program, ..Machine::fresh() };
            start.run(fuel) == (start.with_register(r as int, n).at(5), Stop::Halt)
        }),
{
    let program = Instruction::LOAD(r, n).word() + Instruction::HLT.word();
    let start = Machine { program, ..Machine::fresh() };
    let loaded = start.with_register(r as int, n).at(4);
    assert(program.len() == 8);
    assert(program[0] == 1 && program[1] == r && program[4] == 0);
    assert(program[2] * 256 + program[3] == n);
    assert(start.step() == Step { state: loaded, exit: None });
    assert(loaded.step() == Step { state: loaded.at(5), exit: Some(Stop::Halt) });
    reveal_with_fuel(Machine::run, 3);
}

/// More fuel changes nothing for a machine that stops.
pub proof fn lemma_fuel_suffices(s: Machine, fuel: nat, more: nat)
    requires
        s.stops_within(fuel),
        fuel <= more,
    ensures
        s.run(more) == s.run(fuel),
    decreases fuel,
{
    if s.step().exit is None {
        lemma_fuel_suffices(s.step().state, (fuel - 1) as nat, (more - 1) as nat);
    }
}

/// A run that ends with code 0 has stopped on a `HLT`: the program counter stands behind
/// a byte 0 of the program.
pub proof fn lemma_exit_zero_is_halt(s: Machine, fuel: nat)
    requires
        s.well_formed(),
        s.run(fuel).1.code() == 0,
    ensures
        s.run(fuel).0.program == s.program,
        0 < s.run(fuel).0.pc <= s.program.len(),
        s.program[s.run(fuel).0.pc - 1] == 0,
    decreases fuel,
{
    if fuel > 0 {
        lemma_step_preserves(s);
        if s.step().exit is None {
            lemma_exit_zero_is_halt(s.step().state, (fuel - 1) as nat);
        }
    }
}

/// In a straight-line program, a run from a word boundary that ends with code 0 has
/// stopped on the first `HLT` from there on: the program counter stands behind its opcode
/// byte.
pub proof fn lemma_straight_line_stops_at_first_halt(s: Machine, fuel: nat)
    requires
        s.well_formed(),
        straight_line(s.program),
        s.pc % 4 == 0,
        s.run(fuel).1.code() == 0,
    ensures
        s.pc < s.run(fuel).0.pc <= s.program.len(),
        (s.run(fuel).0.pc - 1) % 4 == 0,
        s.program[s.run(fuel).0.pc - 1] == 0,
        forall|i: int|
            s.pc <= i < s.run(fuel).0.pc - 1 && i % 4 == 0 ==> #[trigger] s.program[i] != 0,
    decreases fuel,
{
    if fuel > 0 {
        lemma_step_preserves(s);
        if s.step().exit is None {
            let t = s.step().state;
            assert(s.program[s.pc] <= 5);
            assert(t.pc == s.pc + 4);
            lemma_straight_line_stops_at_first_halt(t, (fuel - 1) as nat);
        }
    }
}

/// A straight-line program stops by itself: from a word boundary, within one step for
/// each code word that is left and one more. It stops on a `HLT`, at the end of the
/// program, on a register that does not exist or on a division by zero.
pub proof fn lemma_straight_line_stops(s: Machine)
    requires
        s.well_formed(),
        straight_line(s.program),
        s.pc % 4 == 0,
        s.pc <= s.program.len(),
    ensures
        s.stops_within(((s.program.len() - s.pc) / 4 + 1) as nat),
        ({
            let why = s.run(((s.program.len() - s.pc) / 4 + 1) as nat).1;
            why == Stop::Halt || why == Stop::Overrun || why == Stop::NoRegister || why
                == Stop::DivisionByZero
        }),
    decreases s.program.len() - s.pc,
{
    if s.pc < s.program.len() {
        assert(s.program[s.pc] <= 5);
        if s.step().exit is None {
            let t = s.step().state;
            assert(t.pc == s.pc + 4);
            lemma_straight_line_stops(t);
            assert((s.program.len() - t.pc) / 4 + 1 == (s.program.len() - s.pc) / 4);
        }
    }
}

} // verus!

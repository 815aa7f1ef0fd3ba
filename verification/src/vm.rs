//! The execution engine: thirty-two registers, two status words, a program counter that
//! counts bytes, and one rule per operation.
//!
//! What the engine does is defined on [`Machine`], the mathematical state, by
//! [`Machine::step`] and [`Machine::run`]. The methods of [`VM`] are proved to compute them.
//! No method panics: where an instruction cannot be carried out, the step stops the
//! machine, and [`Stop`] says why.

pub mod behaviour;

use crate::opcode::Opcode;
use vstd::prelude::*;

verus! {

/// The number of registers.
pub const REGISTER_COUNT: usize = 32;

/// The number of steps after which `run` gives a machine up.
pub const STEP_LIMIT: u64 = 0xffff_ffff_ffff_ffff;

/// The state of a machine, as specifications see it.
pub struct Machine {
    pub registers: Seq<i32>,
    pub pc: int,
    pub program: Seq<u8>,
    pub remainder: u32,
    pub equal_flag: bool,
}

/// Why a machine has stopped.
#[derive(Debug, PartialEq, Eq, Clone, Copy, Structural)]
pub enum Stop {
    /// `HLT` was executed.
    Halt,
    /// The program counter stood at or past the end of the program.
    Overrun,
    /// The byte at the program counter is no opcode.
    Unrecognized,
    /// The program ends before the operand bytes of the operation do.
    Truncated,
    /// An operand names a register above 31.
    NoRegister,
    /// The divisor of a `DIV` is zero.
    DivisionByZero,
    /// The program counter would leave the range of the machine's index type: below zero
    /// or above its largest value.
    OutOfRange,
    /// `run` has made `STEP_LIMIT` steps.
    OutOfSteps,
}

impl Stop {
    /// The exit code: 0 after `HLT`, -1 after anything else.
    pub open spec fn code(self) -> i8 {
        if self == Stop::Halt {
            0i8
        } else {
            -1i8
        }
    }

    /// The trace that belongs to a stop.
    pub open spec fn trace_text(self) -> Seq<char> {
        match self {
            Stop::Halt => "HLT encountered."@,
            Stop::Overrun => (
                "Program counter has exceeded program length! Did you forget to include an HLT?"@
            ),
            Stop::Unrecognized => "Unrecognized opcode found. Terminating!"@,
            Stop::Truncated => "Program ends inside an instruction. Terminating!"@,
            Stop::NoRegister => "Register index out of range. Terminating!"@,
            Stop::DivisionByZero => "Division by zero. Terminating!"@,
            Stop::OutOfRange => "Program counter out of range. Terminating!"@,
            Stop::OutOfSteps => "Step limit reached. Terminating!"@,
        }
    }

    /// The exit code: 0 after `HLT`, -1 after anything else.
    pub fn exit_code(&self) -> (code: i8)
        ensures
            code == self.code(),
    {
        match self {
            Stop::Halt => 0,
            _ => -1,
        }
    }

    /// The trace that belongs to this stop. That of `Halt` is for the output, the others
    /// are for the error sink.
    pub fn trace(&self) -> (text: &'static str)
        ensures
            text@ == self.trace_text(),
    {
        match self {
            Stop::Halt => "HLT encountered.",
            Stop::Overrun => {
                "Program counter has exceeded program length! Did you forget to include an HLT?"
            },
            Stop::Unrecognized => "Unrecognized opcode found. Terminating!",
            Stop::Truncated => "Program ends inside an instruction. Terminating!",
            Stop::NoRegister => "Register index out of range. Terminating!",
            Stop::DivisionByZero => "Division by zero. Terminating!",
            Stop::OutOfRange => "Program counter out of range. Terminating!",
            Stop::OutOfSteps => "Step limit reached. Terminating!",
        }
    }
}

/// The exit code of a step: that of its stop, or 0 where the machine goes on.
pub open spec fn code_of(exit: Option<Stop>) -> i8 {
    match exit {
        Some(stop) => stop.code(),
        None => 0i8,
    }
}

/// What one step leaves: the state after it, and why the machine stopped, if it did.
pub struct Step {
    pub state: Machine,
    pub exit: Option<Stop>,
}

/// The 32-bit two's-complement value of an integer.
pub open spec fn wrap32(v: int) -> i32 {
    let m = v % 0x1_0000_0000;
    if m > i32::MAX {
        (m - 0x1_0000_0000) as i32
    } else {
        m as i32
    }
}

/// The magnitude of an integer.
pub open spec fn magnitude(v: int) -> int {
    if v >= 0 {
        v
    } else {
        -v
    }
}

/// Division that truncates toward zero. The divisor is not zero.
pub open spec fn quotient(a: int, b: int) -> int {
    if (a >= 0) == (b > 0) {
        magnitude(a) / magnitude(b)
    } else {
        -(magnitude(a) / magnitude(b))
    }
}

/// What truncating division leaves: it has the sign of the dividend.
pub open spec fn rest(a: int, b: int) -> int {
    if a >= 0 {
        a % magnitude(b)
    } else {
        -((-a) % magnitude(b))
    }
}

/// The bits of a signed word read as an unsigned one.
pub open spec fn unsigned(v: i32) -> u32 {
    if v >= 0 {
        v as u32
    } else {
        (v + 0x1_0000_0000) as u32
    }
}

/// A program counter is any value of the machine's own index type.
pub open spec fn fits_pc(p: int) -> bool {
    0 <= p <= usize::MAX
}

/// The number of operand bytes that an operation fetches after its opcode byte.
pub open spec fn operand_bytes(op: Opcode) -> int {
    match op {
        Opcode::HLT => 0,
        Opcode::LOAD | Opcode::ADD | Opcode::SUB | Opcode::MUL | Opcode::DIV => 3,
        Opcode::EQ | Opcode::NEQ | Opcode::GT | Opcode::LT | Opcode::GTQ | Opcode::LTQ => 2,
        Opcode::JMP | Opcode::JMPF | Opcode::JMPB | Opcode::JEQ | Opcode::JNEQ => 1,
    }
}

/// Whether the operand bytes of `op` that name registers name registers that exist.
pub open spec fn registers_exist(op: Opcode, a: u8, b: u8, c: u8) -> bool {
    match op {
        Opcode::HLT => true,
        Opcode::ADD | Opcode::SUB | Opcode::MUL | Opcode::DIV => a < 32 && b < 32 && c < 32,
        Opcode::EQ | Opcode::NEQ | Opcode::GT | Opcode::LT | Opcode::GTQ | Opcode::LTQ => a < 32
            && b < 32,
        Opcode::LOAD | Opcode::JMP | Opcode::JMPF | Opcode::JMPB | Opcode::JEQ | Opcode::JNEQ => a
            < 32,
    }
}

/// Whether an operation is one of the six comparisons.
pub open spec fn is_comparison(op: Opcode) -> bool {
    op == Opcode::EQ || op == Opcode::NEQ || op == Opcode::GT || op == Opcode::LT || op
        == Opcode::GTQ || op == Opcode::LTQ
}

/// Whether the comparison `op` holds of `x` and `y`.
pub open spec fn holds(op: Opcode, x: i32, y: i32) -> bool {
    match op {
        Opcode::EQ => x == y,
        Opcode::NEQ => x != y,
        Opcode::GT => x > y,
        Opcode::LT => x < y,
        Opcode::GTQ => x >= y,
        Opcode::LTQ => x <= y,
        _ => false,
    }
}

/// What an arithmetic operation stores for the sources `x` and `y`. For `DIV`, `y` is not zero.
pub open spec fn computes(op: Opcode, x: i32, y: i32) -> i32 {
    match op {
        Opcode::ADD => wrap32(x + y),
        Opcode::SUB => wrap32(x - y),
        Opcode::MUL => wrap32(x * y),
        Opcode::DIV => wrap32(quotient(x as int, y as int)),
        _ => 0,
    }
}

/// The bytes of a list of code words, one word after the other.
pub open spec fn flatten(words: Seq<[u8; 4]>) -> Seq<u8> {
    Seq::new(4 * words.len(), |i: int| words[i / 4]@[i % 4])
}

impl Machine {
    /// A machine before anything was loaded.
    pub open spec fn fresh() -> Machine {
        Machine {
            registers: Seq::new(32, |i: int| 0i32),
            pc: 0,
            program: Seq::empty(),
            remainder: 0,
            equal_flag: false,
        }
    }

    /// This state with the program counter at `pc`.
    pub open spec fn at(self, pc: int) -> Machine {
        Machine { pc, ..self }
    }

    /// This state with `value` in register `r`.
    pub open spec fn with_register(self, r: int, value: i32) -> Machine {
        Machine { registers: self.registers.update(r, value), ..self }
    }

    /// The step that stops the machine in the state `self`.
    pub open spec fn stop(self, why: Stop) -> Step {
        Step { state: self, exit: Some(why) }
    }

    /// The step after which the machine goes on in the state `self`.
    pub open spec fn go(self) -> Step {
        Step { state: self, exit: None }
    }

    /// The step that goes on from `next` at `target`, where `target` is a program counter;
    /// otherwise the machine stops in the state `self`.
    pub open spec fn arrive(self, next: Machine, target: int) -> Step {
        if fits_pc(target) {
            next.at(target).go()
        } else {
            self.stop(Stop::OutOfRange)
        }
    }

    /// The effect of `op` with the operand bytes `a`, `b`, `c` on `self`, the state in which
    /// the opcode byte and the operand bytes have been fetched. An operation reads only as
    /// many of the three as it has operands.
    ///
    /// Where an operand names no register, the divisor is zero or a jump leads to what is
    /// no program counter, the machine stops in the state `self`.
    pub open spec fn execute(self, op: Opcode, a: u8, b: u8, c: u8) -> Step {
        let regs = self.registers;
        if !registers_exist(op, a, b, c) {
            self.stop(Stop::NoRegister)
        } else {
            match op {
                Opcode::HLT => self.stop(Stop::Halt),
                Opcode::LOAD => self.with_register(a as int, (b * 256 + c) as i32).go(),
                Opcode::ADD | Opcode::SUB | Opcode::MUL => self.with_register(
                    c as int,
                    computes(op, regs[a as int], regs[b as int]),
                ).go(),
                Opcode::DIV => if regs[b as int] == 0 {
                    self.stop(Stop::DivisionByZero)
                } else {
                    (Machine {
                        remainder: unsigned(
                            rest(regs[a as int] as int, regs[b as int] as int) as i32,
                        ),
                        ..self.with_register(c as int, computes(op, regs[a as int], regs[b as int]))
                    }).go()
                },
                Opcode::JMP => self.arrive(self, regs[a as int] as int),
                Opcode::JMPF => self.arrive(self, self.pc + regs[a as int]),
                Opcode::JMPB => self.arrive(self, self.pc - regs[a as int]),
                Opcode::EQ
                | Opcode::NEQ
                | Opcode::GT
                | Opcode::LT
                | Opcode::GTQ
                | Opcode::LTQ => self.arrive(
                    Machine { equal_flag: holds(op, regs[a as int], regs[b as int]), ..self },
                    self.pc + 1,
                ),
                Opcode::JEQ => self.arrive(
                    self,
                    if self.equal_flag {
                        regs[a as int] as int
                    } else {
                        self.pc + 2
                    },
                ),
                Opcode::JNEQ => self.arrive(
                    self,
                    if !self.equal_flag {
                        regs[a as int] as int
                    } else {
                        self.pc + 2
                    },
                ),
            }
        }
    }

    /// Fetches the operand bytes of `op` at the program counter and executes it.
    pub open spec fn perform(self, op: Opcode) -> Step {
        self.at(self.pc + operand_bytes(op)).execute(
            op,
            self.program[self.pc],
            self.program[self.pc + 1],
            self.program[self.pc + 2],
        )
    }

    /// One fetch, decode and execute.
    ///
    /// - With the program counter at or past the end of the program the machine stops and
    ///   nothing changes.
    /// - Otherwise the opcode byte is fetched. On an illegal one the machine stops, and so
    ///   it does on an operation whose operand bytes are not all there; both leave the
    ///   program counter behind the opcode byte.
    /// - Otherwise the operand bytes are fetched and the operation is executed.
    pub open spec fn step(self) -> Step {
        if !(0 <= self.pc < self.program.len()) {
            self.stop(Stop::Overrun)
        } else {
            match Opcode::of_byte(self.program[self.pc]) {
                None => self.at(self.pc + 1).stop(Stop::Unrecognized),
                Some(op) => if self.pc + 1 + operand_bytes(op) > self.program.len() {
                    self.at(self.pc + 1).stop(Stop::Truncated)
                } else {
                    self.at(self.pc + 1).perform(op)
                },
            }
        }
    }

    /// Steps until one stops the machine, at most `fuel` times: the state then reached,
    /// and why the machine stopped. A machine that is out of fuel is stopped there.
    pub open spec fn run(self, fuel: nat) -> (Machine, Stop)
        decreases fuel,
    {
        if fuel == 0 {
            (self, Stop::OutOfSteps)
        } else {
            let s = self.step();
            match s.exit {
                Some(why) => (s.state, why),
                None => s.state.run((fuel - 1) as nat),
            }
        }
    }
}

/// The machine: its registers, its program counter, its program and its two status
/// words.
pub struct VM {
    pub registers: [i32; 32],
    pub pc: usize,
    pub program: Vec<u8>,
    pub remainder: u32,
    pub equal_flag: bool,
}

impl View for VM {
    type V = Machine;

    open spec fn view(&self) -> Machine {
        Machine {
            registers: self.registers@,
            pc: self.pc as int,
            program: self.program@,
            remainder: self.remainder,
            equal_flag: self.equal_flag,
        }
    }
}

/// `pc` moved by `delta`, if that is a program counter.
fn displace(pc: usize, delta: i64) -> (r: Option<usize>)
    ensures
        r == if fits_pc(pc + delta) {
            Some((pc + delta) as usize)
        } else {
            None
        },
{
    if delta >= 0 {
        if delta as u64 > usize::MAX as u64 {
            return None;
        }
        pc.checked_add(delta as usize)
    } else {
        let back: u64 = (-(delta + 1)) as u64 + 1;
        if back > pc as u64 {
            None
        } else {
            Some(pc - (back as usize))
        }
    }
}

/// `x / y` and `x % y` as the machine computes them.
fn divide(x: i32, y: i32) -> (r: (i32, u32))
    requires
        y != 0,
    ensures
        r.0 == wrap32(quotient(x as int, y as int)),
        r.1 == unsigned(rest(x as int, y as int) as i32),
{
    let a: u64 = if x >= 0 {
        x as u64
    } else {
        (-(x as i64)) as u64
    };
    let b: u64 = if y >= 0 {
        y as u64
    } else {
        (-(y as i64)) as u64
    };
    assert(a == magnitude(x as int) && b == magnitude(y as int));
    let q: u64 = a / b;
    let m: u64 = a % b;
    assert(q <= a && m < b) by (nonlinear_arith)
        requires
            q == a / b,
            m == a % b,
            b >= 1,
    ;
    let whole: i32 = if (x >= 0) == (y > 0) {
        if q == 0x8000_0000 {
            i32::MIN
        } else {
            q as i32
        }
    } else {
        (-(q as i64)) as i32
    };
    let left: u32 = if x >= 0 || m == 0 {
        m as u32
    } else {
        (0x1_0000_0000u64 - m) as u32
    };
    (whole, left)
}

/// The bytes of a list of code words, one word after the other.
pub fn bytes_of_words(words: &Vec<[u8; 4]>) -> (bytes: Vec<u8>)
    ensures
        bytes@ == flatten(words@),
{
    let mut bytes: Vec<u8> = Vec::new();
    let mut i: usize = 0;
    while i < words.len()
        invariant
            i <= words.len(),
            bytes@.len() == 4 * i,
            forall|k: int| 0 <= k < 4 * i ==> bytes@[k] == words@[k / 4]@[k % 4],
        decreases words.len() - i,
    {
        let word = &words[i];
        bytes.push(word[0]);
        bytes.push(word[1]);
        bytes.push(word[2]);
        bytes.push(word[3]);
        i += 1;
    }
    assert(bytes@ =~= flatten(words@));
    bytes
}

impl VM {
    /// A machine with all registers zero, no program, and the status words cleared.
    pub fn new() -> (vm: VM)
        ensures
            vm@ == Machine::fresh(),
    {
        let vm = VM {
            registers: [0; 32],
            pc: 0,
            program: Vec::new(),
            remainder: 0,
            equal_flag: false,
        };
        assert(vm@.registers =~= Machine::fresh().registers);
        vm
    }

    /// Replaces the program by the bytes of `program`. The program counter stays.
    pub fn set_program(&mut self, program: Vec<[u8; 4]>)
        ensures
            final(self)@ == (Machine { program: flatten(program@), ..old(self)@ }),
    {
        self.program = bytes_of_words(&program);
    }

    /// Executes the program from the program counter on, until a step stops the machine,
    /// and returns the exit code: 0 after `HLT`, -1 after anything else. A machine that has
    /// made `STEP_LIMIT` steps is stopped.
    pub fn run(&mut self) -> (code: i8)
        ensures
            final(self)@ == old(self)@.run(STEP_LIMIT as nat).0,
            code == old(self)@.run(STEP_LIMIT as nat).1.code(),
    {
        self.run_to_stop().exit_code()
    }

    /// Executes the program as `run` does, and says why the machine stopped.
    pub fn run_to_stop(&mut self) -> (why: Stop)
        ensures
            (final(self)@, why) == old(self)@.run(STEP_LIMIT as nat),
    {
        let mut fuel: u64 = STEP_LIMIT;
        while fuel > 0
            invariant
                self@.run(fuel as nat) == old(self)@.run(STEP_LIMIT as nat),
            decreases fuel,
        {
            if let Some(why) = self.step() {
                return why;
            }
            fuel -= 1;
        }
        Stop::OutOfSteps
    }

    /// Executes one instruction. Returns the exit code if the step stopped the machine,
    /// else 0.
    pub fn run_once(&mut self) -> (code: i8)
        ensures
            final(self)@ == old(self)@.step().state,
            code == code_of(old(self)@.step().exit),
    {
        if let Some(code) = self.execute_instruction() {
            code
        } else {
            0
        }
    }

    /// Executes one instruction. Returns the exit code if the step stopped the machine.
    pub fn execute_instruction(&mut self) -> (exit: Option<i8>)
        ensures
            final(self)@ == old(self)@.step().state,
            exit == match old(self)@.step().exit {
                Some(why) => Some(why.code()),
                None => None,
            },
    {
        match self.step() {
            Some(why) => Some(why.exit_code()),
            None => None,
        }
    }

    /// Executes one instruction, and says why the machine stopped, if it did.
    pub fn step(&mut self) -> (exit: Option<Stop>)
        ensures
            final(self)@ == old(self)@.step().state,
            exit == old(self)@.step().exit,
    {
        if self.pc >= self.program.len() {
            return Some(Stop::Overrun);
        }
        let opcode = match self.decode_opcode() {
            Some(opcode) => opcode,
            None => {
                return Some(Stop::Unrecognized);
            },
        };
        if self.program.len() - self.pc < Self::operand_count(opcode) {
            return Some(Stop::Truncated);
        }
        match opcode {
            Opcode::HLT => Some(Stop::Halt),
            Opcode::LOAD => self.load(),
            Opcode::ADD | Opcode::SUB | Opcode::MUL | Opcode::DIV => self.arithmetic(opcode),
            Opcode::JMP | Opcode::JMPF | Opcode::JMPB | Opcode::JEQ | Opcode::JNEQ => self.jump(
                opcode,
            ),
            Opcode::EQ
            | Opcode::NEQ
            | Opcode::GT
            | Opcode::LT
            | Opcode::GTQ
            | Opcode::LTQ => self.compare(opcode),
        }
    }

    /// `LOAD`: a register index and a 16-bit number, which goes into the register.
    fn load(&mut self) -> (exit: Option<Stop>)
        requires
            old(self).pc + 3 <= old(self).program.len(),
        ensures
            final(self)@ == old(self)@.perform(Opcode::LOAD).state,
            exit == old(self)@.perform(Opcode::LOAD).exit,
    {
        let register = self.next_8_bits() as usize;
        let number = self.next_16_bits();
        if register >= REGISTER_COUNT {
            return Some(Stop::NoRegister);
        }
        self.registers[register] = number as i32;
        None
    }

    /// `ADD`, `SUB`, `MUL`, `DIV`: two source registers and the register for the result.
    fn arithmetic(&mut self, opcode: Opcode) -> (exit: Option<Stop>)
        requires
            opcode == Opcode::ADD || opcode == Opcode::SUB || opcode == Opcode::MUL || opcode
                == Opcode::DIV,
            old(self).pc + 3 <= old(self).program.len(),
        ensures
            final(self)@ == old(self)@.perform(opcode).state,
            exit == old(self)@.perform(opcode).exit,
    {
        let reg1 = self.next_8_bits() as usize;
        let reg2 = self.next_8_bits() as usize;
        let result_reg = self.next_8_bits() as usize;
        if reg1 >= REGISTER_COUNT || reg2 >= REGISTER_COUNT || result_reg >= REGISTER_COUNT {
            return Some(Stop::NoRegister);
        }
        let x = self.registers[reg1];
        let y = self.registers[reg2];
        match opcode {
            Opcode::ADD => {
                self.registers[result_reg] = x.wrapping_add(y);
            },
            Opcode::SUB => {
                self.registers[result_reg] = x.wrapping_sub(y);
            },
            Opcode::MUL => {
                self.registers[result_reg] = x.wrapping_mul(y);
            },
            _ => {
                if y == 0 {
                    return Some(Stop::DivisionByZero);
                }
                let divmod = divide(x, y);
                self.registers[result_reg] = divmod.0;
                self.remainder = divmod.1;
            },
        }
        None
    }

    /// `JMP`, `JMPF`, `JMPB`, `JEQ`, `JNEQ`: one register, which holds the target or the
    /// distance.
    fn jump(&mut self, opcode: Opcode) -> (exit: Option<Stop>)
        requires
            opcode == Opcode::JMP || opcode == Opcode::JMPF || opcode == Opcode::JMPB || opcode
                == Opcode::JEQ || opcode == Opcode::JNEQ,
            old(self).pc + 1 <= old(self).program.len(),
        ensures
            final(self)@ == old(self)@.perform(opcode).state,
            exit == old(self)@.perform(opcode).exit,
    {
        let register = self.next_8_bits() as usize;
        if register >= REGISTER_COUNT {
            return Some(Stop::NoRegister);
        }
        let value = self.registers[register] as i64;
        let target = match opcode {
            Opcode::JMP => displace(0, value),
            Opcode::JMPF => displace(self.pc, value),
            Opcode::JMPB => displace(self.pc, -value),
            Opcode::JEQ => if self.equal_flag {
                displace(0, value)
            } else {
                displace(self.pc, 2)
            },
            _ => if !self.equal_flag {
                displace(0, value)
            } else {
                displace(self.pc, 2)
            },
        };
        match target {
            Some(pc) => {
                self.pc = pc;
                None
            },
            None => Some(Stop::OutOfRange),
        }
    }

    /// `EQ`, `NEQ`, `GT`, `LT`, `GTQ`, `LTQ`: two registers and a padding byte, which is
    /// skipped unread.
    fn compare(&mut self, opcode: Opcode) -> (exit: Option<Stop>)
        requires
            is_comparison(opcode),
            old(self).pc + 2 <= old(self).program.len(),
        ensures
            final(self)@ == old(self)@.perform(opcode).state,
            exit == old(self)@.perform(opcode).exit,
    {
        let reg1 = self.next_8_bits() as usize;
        let reg2 = self.next_8_bits() as usize;
        if reg1 >= REGISTER_COUNT || reg2 >= REGISTER_COUNT {
            return Some(Stop::NoRegister);
        }
        let val1 = self.registers[reg1];
        let val2 = self.registers[reg2];
        match displace(self.pc, 1) {
            Some(pc) => {
                self.equal_flag = match opcode {
                    Opcode::EQ => val1 == val2,
                    Opcode::NEQ => val1 != val2,
                    Opcode::GT => val1 > val2,
                    Opcode::LT => val1 < val2,
                    Opcode::GTQ => val1 >= val2,
                    _ => val1 <= val2,
                };
                self.pc = pc;
                None
            },
            None => Some(Stop::OutOfRange),
        }
    }

    /// The number of operand bytes that `opcode` fetches.
    fn operand_count(opcode: Opcode) -> (n: usize)
        ensures
            n == operand_bytes(opcode),
    {
        match opcode {
            Opcode::HLT => 0,
            Opcode::LOAD | Opcode::ADD | Opcode::SUB | Opcode::MUL | Opcode::DIV => 3,
            Opcode::EQ | Opcode::NEQ | Opcode::GT | Opcode::LT | Opcode::GTQ | Opcode::LTQ => 2,
            Opcode::JMP | Opcode::JMPF | Opcode::JMPB | Opcode::JEQ | Opcode::JNEQ => 1,
        }
    }

    /// Fetches the byte at the program counter and decodes it as an opcode.
    pub fn decode_opcode(&mut self) -> (opcode: Option<Opcode>)
        requires
            old(self).pc < old(self).program.len(),
        ensures
            opcode == Opcode::of_byte(old(self).program[old(self).pc as int]),
            final(self)@ == old(self)@.at(old(self).pc + 1),
    {
        let opcode = match Opcode::try_from(self.program[self.pc]) {
            Ok(opcode) => Some(opcode),
            Err(_) => None,
        };
        self.pc += 1;
        opcode
    }

    /// Fetches the byte at the program counter.
    pub fn next_8_bits(&mut self) -> (bits: u8)
        requires
            old(self).pc < old(self).program.len(),
        ensures
            bits == old(self).program[old(self).pc as int],
            final(self)@ == old(self)@.at(old(self).pc + 1),
    {
        let bits = self.program[self.pc];
        self.pc += 1;
        bits
    }

    /// Fetches the two bytes at the program counter as one number, the high byte first.
    pub fn next_16_bits(&mut self) -> (bits: u16)
        requires
            old(self).pc + 1 < old(self).program.len(),
        ensures
            bits == old(self).program[old(self).pc as int] * 256 + old(self).program[old(self).pc
                + 1],
            final(self)@ == old(self)@.at(old(self).pc + 2),
    {
        let high: u16 = self.program[self.pc] as u16;
        let low: u16 = self.program[self.pc + 1] as u16;
        self.pc += 2;
        high * 256 + low
    }
}

} // verus!

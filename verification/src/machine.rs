//! The mathematical model of the machine: its state as plain values, and what
//! one execution step makes of a state.

use vstd::prelude::*;
use crate::arith::{trunc_div, trunc_rem, unsigned32, wrap_i32};
use crate::instruction::{decode, Opcode};

verus! {

/// The number of registers.
pub const REGISTER_COUNT: usize = 32;

/// Why a run ended before the program asked for it.
#[derive(Debug, PartialEq, Eq, Clone, Copy, Structural)]
pub enum Fault {
    /// The byte at the program counter selects no operation.
    IllegalOpcode,
    /// An operand byte that names a register is 32 or more.
    InvalidRegisterIndex,
    /// The divisor register of a division holds zero.
    DivisionByZero,
    /// An instruction needs more operand bytes than the program has left.
    TruncatedProgram,
    /// A relative jump would leave the range of the program counter.
    InvalidJumpTarget,
}

/// How a run ended.
#[derive(Debug, PartialEq, Eq, Clone, Copy, Structural)]
pub enum Outcome {
    /// The program halted, or the program counter ran off its end.
    Normal,
    /// An instruction could not be executed.
    Fault(Fault),
}

/// Where the machine stands in its life: from `Running` it may go to
/// `Halted`, and from `Halted` only a reset leads back.
#[derive(Debug, PartialEq, Eq, Clone, Copy, Structural)]
pub enum Status {
    Running,
    Halted(Outcome),
}

/// The state of a machine.
pub struct Machine {
    /// The registers, by index.
    pub registers: Seq<i32>,
    /// The offset in `program` of the next byte to decode.
    pub program_counter: int,
    /// The loaded bytecode.
    pub program: Seq<u8>,
    /// The remainder of the latest division.
    pub remainder: u32,
    /// The result of the latest comparison.
    pub equality_flag: bool,
    /// Whether the machine runs or has halted, and how.
    pub status: Status,
}

impl Machine {
    /// A state that an engine can hold: thirty-two registers, and a program
    /// counter and a program length that fit a machine word.
    pub open spec fn well_formed(self) -> bool {
        &&& self.registers.len() == REGISTER_COUNT
        &&& 0 <= self.program_counter <= usize::MAX
        &&& self.program.len() <= usize::MAX
    }

    /// The state of a fresh machine: everything zero, no program, running.
    pub open spec fn initial() -> Machine {
        Machine {
            registers: Seq::new(REGISTER_COUNT as nat, |i: int| 0i32),
            program_counter: 0,
            program: Seq::empty(),
            remainder: 0,
            equality_flag: false,
            status: Status::Running,
        }
    }

    /// The state after a reset: as `initial`, but the program stays.
    pub open spec fn reset(self) -> Machine {
        Machine { program: self.program, ..Machine::initial() }
    }

    /// The state after another program is loaded: nothing else changes.
    pub open spec fn load(self, program: Seq<u8>) -> Machine {
        Machine { program, ..self }
    }

    /// The machine has not halted.
    pub open spec fn running(self) -> bool {
        self.status == Status::Running
    }

    /// This state, halted.
    pub open spec fn halt(self, outcome: Outcome) -> Machine {
        Machine { status: Status::Halted(outcome), ..self }
    }

    /// This state, halted by a fault.
    pub open spec fn fault(self, fault: Fault) -> Machine {
        self.halt(Outcome::Fault(fault))
    }

    /// This state with `count` more bytes consumed.
    pub open spec fn advance(self, count: int) -> Machine {
        Machine { program_counter: self.program_counter + count, ..self }
    }

    /// This state with the program counter at `target`.
    pub open spec fn jump(self, target: int) -> Machine {
        Machine { program_counter: target, ..self }
    }

    /// This state with `value` in register `index`.
    pub open spec fn store(self, index: int, value: i32) -> Machine {
        Machine { registers: self.registers.update(index, value), ..self }
    }

    /// The program byte at `offset`.
    pub open spec fn byte(self, offset: int) -> u8 {
        self.program[offset]
    }

    /// The value of the register that the program byte at `offset` names.
    pub open spec fn operand(self, offset: int) -> i32 {
        self.registers[self.byte(offset) as int]
    }

    /// The unsigned reading of the register that the program byte at `offset`
    /// names: the offset that a jump takes from it.
    pub open spec fn jump_operand(self, offset: int) -> int {
        unsigned32(self.operand(offset) as int) as int
    }

    /// The machine is running and the byte at its program counter selects
    /// `opcode`, so that its next step performs that operation.
    pub open spec fn fetches(self, opcode: Opcode) -> bool {
        &&& self.running()
        &&& 0 <= self.program_counter < self.program.len()
        &&& decode(self.byte(self.program_counter)) == opcode
    }

    /// The program has `count` bytes from `offset` on, and each of them names
    /// a register.
    pub open spec fn names_registers(self, offset: int, count: int) -> bool {
        &&& offset + count <= self.program.len()
        &&& forall|k: int| offset <= k < offset + count ==> self.byte(k) < REGISTER_COUNT
    }

    /// Consumes one operand byte that names a register. The byte must be
    /// there, else the machine faults where it stands; and it must be below
    /// 32, else the machine faults past it. A halted machine stays as it is,
    /// so that reads can be chained.
    pub open spec fn read_register(self) -> Machine {
        if !self.running() {
            self
        } else if self.program_counter >= self.program.len() {
            self.fault(Fault::TruncatedProgram)
        } else if self.byte(self.program_counter) >= REGISTER_COUNT {
            self.advance(1).fault(Fault::InvalidRegisterIndex)
        } else {
            self.advance(1)
        }
    }

    /// LOAD, with the opcode byte consumed: a register byte, then an unsigned
    /// 16-bit immediate, high byte first. The register is checked once all
    /// three bytes are consumed.
    pub open spec fn load_immediate(self) -> Machine {
        let at = self.program_counter;
        if at >= self.program.len() {
            self.fault(Fault::TruncatedProgram)
        } else if at + 3 > self.program.len() {
            self.advance(1).fault(Fault::TruncatedProgram)
        } else if self.byte(at) >= REGISTER_COUNT {
            self.advance(3).fault(Fault::InvalidRegisterIndex)
        } else {
            self.advance(3).store(
                self.byte(at) as int,
                (self.byte(at + 1) * 256 + self.byte(at + 2)) as i32,
            )
        }
    }

    /// ADD, with the opcode byte consumed: two source registers and a
    /// destination, which receives the wrapped sum.
    pub open spec fn add_registers(self) -> Machine {
        let at = self.program_counter;
        let read = self.read_register().read_register().read_register();
        if read.running() {
            read.store(
                self.byte(at + 2) as int,
                wrap_i32(self.operand(at) + self.operand(at + 1)),
            )
        } else {
            read
        }
    }

    /// MUL, with the opcode byte consumed: two source registers and a
    /// destination, which receives the wrapped product.
    pub open spec fn multiply_registers(self) -> Machine {
        let at = self.program_counter;
        let read = self.read_register().read_register().read_register();
        if read.running() {
            read.store(
                self.byte(at + 2) as int,
                wrap_i32(self.operand(at) * self.operand(at + 1)),
            )
        } else {
            read
        }
    }

    /// DIV, with the opcode byte consumed: dividend, divisor and destination
    /// register. A zero divisor faults and changes neither the destination nor
    /// the remainder. Otherwise the destination receives the quotient,
    /// truncated toward zero, and the remainder register what is left, both as
    /// 32 bits hold them.
    pub open spec fn divide_registers(self) -> Machine {
        let at = self.program_counter;
        let read = self.read_register().read_register().read_register();
        let dividend = self.operand(at) as int;
        let divisor = self.operand(at + 1) as int;
        if !read.running() {
            read
        } else if divisor == 0 {
            read.fault(Fault::DivisionByZero)
        } else {
            Machine {
                remainder: unsigned32(trunc_rem(dividend, divisor)),
                ..read.store(self.byte(at + 2) as int, wrap_i32(trunc_div(dividend, divisor)))
            }
        }
    }

    /// JMP, with the opcode byte consumed: the program counter becomes the
    /// unsigned value of the named register.
    pub open spec fn jump_absolute(self) -> Machine {
        let read = self.read_register();
        if read.running() {
            read.jump(self.jump_operand(self.program_counter))
        } else {
            read
        }
    }

    /// JMPF, with the opcode byte consumed: the unsigned value of the named
    /// register is added to the program counter, which stands after the
    /// operand. A sum that no machine word holds is a fault.
    pub open spec fn jump_forward(self) -> Machine {
        let read = self.read_register();
        let target = read.program_counter + self.jump_operand(self.program_counter);
        if !read.running() {
            read
        } else if target > usize::MAX {
            read.fault(Fault::InvalidJumpTarget)
        } else {
            read.jump(target)
        }
    }

    /// JMPB, with the opcode byte consumed: the unsigned value of the named
    /// register is taken from the program counter, which stands after the
    /// operand. A difference below zero is a fault.
    pub open spec fn jump_backward(self) -> Machine {
        let read = self.read_register();
        let target = read.program_counter - self.jump_operand(self.program_counter);
        if !read.running() {
            read
        } else if target < 0 {
            read.fault(Fault::InvalidJumpTarget)
        } else {
            read.jump(target)
        }
    }

    /// EQ, with the opcode byte consumed: the equality flag tells whether the
    /// two named registers hold the same value.
    pub open spec fn compare_registers(self) -> Machine {
        let at = self.program_counter;
        let read = self.read_register().read_register();
        if read.running() {
            Machine { equality_flag: self.operand(at) == self.operand(at + 1), ..read }
        } else {
            read
        }
    }

    /// JEQ (`wanted` true) and JNE (`wanted` false), with the opcode byte
    /// consumed: the operand is read in either case, and the jump to the
    /// unsigned value of the named register is taken where the equality flag
    /// is `wanted`.
    pub open spec fn jump_if(self, wanted: bool) -> Machine {
        let read = self.read_register();
        if read.running() && self.equality_flag == wanted {
            read.jump(self.jump_operand(self.program_counter))
        } else {
            read
        }
    }

    /// One execution step. A halted machine stays as it is. A running machine
    /// whose program counter is at or past the end of the program halts
    /// normally. Otherwise the byte at the program counter is consumed and
    /// decoded, and the operation it selects is performed.
    pub open spec fn step(self) -> Machine {
        if !self.running() {
            self
        } else if self.program_counter >= self.program.len() {
            self.halt(Outcome::Normal)
        } else {
            let fetched = self.advance(1);
            match decode(self.byte(self.program_counter)) {
                Opcode::HLT => fetched.halt(Outcome::Normal),
                Opcode::LOAD => fetched.load_immediate(),
                Opcode::ADD => fetched.add_registers(),
                Opcode::MUL => fetched.multiply_registers(),
                Opcode::DIV => fetched.divide_registers(),
                Opcode::JMP => fetched.jump_absolute(),
                Opcode::JMPF => fetched.jump_forward(),
                Opcode::JMPB => fetched.jump_backward(),
                Opcode::EQ => fetched.compare_registers(),
                Opcode::JEQ => fetched.jump_if(true),
                Opcode::JNE => fetched.jump_if(false),
                Opcode::NOP => fetched,
                Opcode::IGL => fetched.fault(Fault::IllegalOpcode),
            }
        }
    }

    /// The state after `count` steps.
    pub open spec fn run_steps(self, count: nat) -> Machine
        decreases count,
    {
        if count == 0 {
            self
        } else {
            self.step().run_steps((count - 1) as nat)
        }
    }
}

} // verus!

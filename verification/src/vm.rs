//! The executable engine: a machine state behind an owning object, and the
//! fetch-decode-execute cycle on it.

use vstd::prelude::*;
use crate::arith::{checked_divide, unsigned_value};
use crate::arith::{lemma_wrap_add, lemma_wrap_mul};
use crate::instruction::{decode, Opcode};
use crate::laws::law_halted_is_terminal;
use crate::machine::{Fault, Machine, Outcome, Status, REGISTER_COUNT};

verus! {

/// The number of steps after which `VM::run` stops a program that has not
/// halted.
pub const STEP_LIMIT: u64 = 0xFFFF_FFFF_FFFF_FFFF;

/// A virtual machine. It owns its state; callers load a program, run it or
/// step through it, and read the state back.
#[derive(Debug)]
pub struct VM {
    registers: [i32; REGISTER_COUNT],
    pc: usize,
    program: Vec<u8>,
    remainder: u32,
    flag_isequal: bool,
    status: Status,
}

impl View for VM {
    type V = Machine;

    closed spec fn view(&self) -> Machine {
        Machine {
            registers: self.registers@,
            program_counter: self.pc as int,
            program: self.program@,
            remainder: self.remainder,
            equality_flag: self.flag_isequal,
            status: self.status,
        }
    }
}

impl VM {
    /// Every engine holds a well-formed state.
    pub proof fn state_is_well_formed(&self)
        ensures
            self@.well_formed(),
    {
        assert(self.program.len() == self.program@.len());
    }

    /// A fresh machine: all registers zero, no program, running.
    pub fn new() -> (vm: VM)
        ensures
            vm@ == Machine::initial(),
    {
        let vm = VM {
            registers: [0; REGISTER_COUNT],
            program: Vec::new(),
            pc: 0,
            remainder: 0,
            flag_isequal: false,
            status: Status::Running,
        };
        assert(vm@.registers =~= Machine::initial().registers);
        assert(vm@.program =~= Machine::initial().program);
        vm
    }

    /// Puts registers, program counter, remainder and equality flag back to
    /// zero and the machine back to running. The program stays.
    pub fn reset(&mut self)
        ensures
            final(self)@ == old(self)@.reset(),
    {
        self.registers = [0; REGISTER_COUNT];
        self.pc = 0;
        self.remainder = 0;
        self.flag_isequal = false;
        self.status = Status::Running;
        assert(self@.registers =~= old(self)@.reset().registers);
    }

    /// Replaces the program. Registers, flags, program counter and status are
    /// left as they are.
    pub fn load(&mut self, program: Vec<u8>)
        ensures
            final(self)@ == old(self)@.load(program@),
    {
        self.program = program;
    }

    /// Writes `value` to register `index`, or refuses an index that names no
    /// register.
    pub fn set_register(&mut self, index: usize, value: i32) -> (result: Result<(), Fault>)
        ensures
            index < REGISTER_COUNT <==> result is Ok,
            result matches Err(fault) ==> fault == Fault::InvalidRegisterIndex,
            final(self)@ == if index < REGISTER_COUNT {
                old(self)@.store(index as int, value)
            } else {
                old(self)@
            },
    {
        if index < REGISTER_COUNT {
            self.registers[index] = value;
            Ok(())
        } else {
            Err(Fault::InvalidRegisterIndex)
        }
    }

    /// Sets the equality flag, as a comparison would.
    pub fn set_equality_flag(&mut self, flag: bool)
        ensures
            final(self)@ == (Machine { equality_flag: flag, ..old(self)@ }),
    {
        self.flag_isequal = flag;
    }

    /// The registers, by index.
    pub fn registers(&self) -> (registers: &[i32; REGISTER_COUNT])
        ensures
            registers@ == self@.registers,
    {
        &self.registers
    }

    /// The offset of the next byte to decode.
    pub fn program_counter(&self) -> (pc: usize)
        ensures
            pc == self@.program_counter,
    {
        self.pc
    }

    /// The loaded program.
    pub fn program(&self) -> (program: &Vec<u8>)
        ensures
            program@ == self@.program,
    {
        &self.program
    }

    /// The remainder of the latest division.
    pub fn remainder(&self) -> (remainder: u32)
        ensures
            remainder == self@.remainder,
    {
        self.remainder
    }

    /// The result of the latest comparison.
    pub fn equality_flag(&self) -> (flag: bool)
        ensures
            flag == self@.equality_flag,
    {
        self.flag_isequal
    }

    /// Whether the machine runs or has halted, and how.
    pub fn status(&self) -> (status: Status)
        ensures
            status == self@.status,
    {
        self.status
    }

    /// Runs the program until the machine halts, and returns the status it
    /// halted in. A program that has not halted after `STEP_LIMIT` steps is
    /// left where it stands, still `Running`.
    pub fn run(&mut self) -> (status: Status)
        ensures
            final(self)@ == old(self)@.run_steps(STEP_LIMIT as nat),
            status == final(self)@.status,
    {
        self.run_bounded(STEP_LIMIT)
    }

    /// Runs the program until the machine halts, for at most `limit` steps,
    /// and returns the status it ends in: `Running` where the steps were used
    /// up first.
    pub fn run_bounded(&mut self, limit: u64) -> (status: Status)
        ensures
            final(self)@ == old(self)@.run_steps(limit as nat),
            status == final(self)@.status,
    {
        let ghost start = self@;
        let mut remaining: u64 = limit;
        let mut status = self.status;
        while remaining > 0 && status == Status::Running
            invariant
                self@.run_steps(remaining as nat) == start.run_steps(limit as nat),
                status == self@.status,
            decreases remaining,
        {
            status = self.step();
            remaining = remaining - 1;
        }
        proof {
            if remaining > 0 {
                law_halted_is_terminal(self@, remaining as nat);
            }
        }
        status
    }

    /// Executes one instruction and returns the status after it.
    pub fn step(&mut self) -> (status: Status)
        ensures
            final(self)@ == old(self)@.step(),
            status == final(self)@.status,
    {
        if self.status != Status::Running {
            return self.status;
        }
        if self.pc >= self.program.len() {
            return self.halt(Outcome::Normal);
        }
        match self.decode_opcode() {
            Opcode::LOAD => {
                let register = match self.next_8_bits() {
                    Some(byte) => byte,
                    None => {
                        return self.halt(Outcome::Fault(Fault::TruncatedProgram));
                    },
                };
                let value = match self.next_16_bits() {
                    Some(word) => word,
                    None => {
                        return self.halt(Outcome::Fault(Fault::TruncatedProgram));
                    },
                };
                if register as usize >= REGISTER_COUNT {
                    return self.halt(Outcome::Fault(Fault::InvalidRegisterIndex));
                }
                self.registers[register as usize] = value as i32;
            },
            Opcode::ADD => {
                let Some(first) = self.next_register() else {
                    return self.status;
                };
                let Some(second) = self.next_register() else {
                    return self.status;
                };
                let Some(target) = self.next_register() else {
                    return self.status;
                };
                proof {
                    lemma_wrap_add(self.registers[first as int], self.registers[second as int]);
                }
                self.registers[target] = self.registers[first].wrapping_add(self.registers[second]);
            },
            Opcode::MUL => {
                let Some(first) = self.next_register() else {
                    return self.status;
                };
                let Some(second) = self.next_register() else {
                    return self.status;
                };
                let Some(target) = self.next_register() else {
                    return self.status;
                };
                proof {
                    lemma_wrap_mul(self.registers[first as int], self.registers[second as int]);
                }
                self.registers[target] = self.registers[first].wrapping_mul(self.registers[second]);
            },
            Opcode::DIV => {
                let Some(first) = self.next_register() else {
                    return self.status;
                };
                let Some(second) = self.next_register() else {
                    return self.status;
                };
                let Some(target) = self.next_register() else {
                    return self.status;
                };
                match checked_divide(self.registers[first], self.registers[second]) {
                    Some((quotient, remainder)) => {
                        self.registers[target] = quotient;
                        self.remainder = remainder;
                    },
                    None => {
                        return self.halt(Outcome::Fault(Fault::DivisionByZero));
                    },
                }
            },
            Opcode::JMP => {
                let Some(register) = self.next_register() else {
                    return self.status;
                };
                self.pc = unsigned_value(self.registers[register]) as usize;
            },
            Opcode::JMPF => {
                let Some(register) = self.next_register() else {
                    return self.status;
                };
                match self.pc.checked_add(unsigned_value(self.registers[register]) as usize) {
                    Some(target) => {
                        self.pc = target;
                    },
                    None => {
                        return self.halt(Outcome::Fault(Fault::InvalidJumpTarget));
                    },
                }
            },
            Opcode::JMPB => {
                let Some(register) = self.next_register() else {
                    return self.status;
                };
                match self.pc.checked_sub(unsigned_value(self.registers[register]) as usize) {
                    Some(target) => {
                        self.pc = target;
                    },
                    None => {
                        return self.halt(Outcome::Fault(Fault::InvalidJumpTarget));
                    },
                }
            },
            Opcode::EQ => {
                let Some(first) = self.next_register() else {
                    return self.status;
                };
                let Some(second) = self.next_register() else {
                    return self.status;
                };
                self.flag_isequal = self.registers[first] == self.registers[second];
            },
            Opcode::JEQ => {
                let Some(register) = self.next_register() else {
                    return self.status;
                };
                if self.flag_isequal {
                    self.pc = unsigned_value(self.registers[register]) as usize;
                }
            },
            Opcode::JNE => {
                let Some(register) = self.next_register() else {
                    return self.status;
                };
                if !self.flag_isequal {
                    self.pc = unsigned_value(self.registers[register]) as usize;
                }
            },
            Opcode::NOP => {},
            Opcode::HLT => {
                return self.halt(Outcome::Normal);
            },
            Opcode::IGL => {
                return self.halt(Outcome::Fault(Fault::IllegalOpcode));
            },
        }
        assert(self@.registers =~= old(self)@.step().registers);
        self.status
    }

    /// Halts the machine and returns its status.
    fn halt(&mut self, outcome: Outcome) -> (status: Status)
        ensures
            final(self)@ == old(self)@.halt(outcome),
            status == Status::Halted(outcome),
    {
        self.status = Status::Halted(outcome);
        self.status
    }

    /// Consumes the next byte of the program, if there is one.
    fn next_8_bits(&mut self) -> (byte: Option<u8>)
        ensures
            byte.is_some() <==> old(self)@.program_counter < old(self)@.program.len(),
            byte matches Some(b) ==> b == old(self)@.byte(old(self)@.program_counter),
            final(self)@ == old(self)@.advance(if byte.is_some() { 1int } else { 0int }),
    {
        if self.pc < self.program.len() {
            let result = self.program[self.pc];
            self.pc = self.pc + 1;
            Some(result)
        } else {
            None
        }
    }

    /// Consumes the next two bytes of the program as one unsigned number,
    /// high byte first, if both are there.
    fn next_16_bits(&mut self) -> (word: Option<u16>)
        ensures
            word.is_some() <==> old(self)@.program_counter + 2 <= old(self)@.program.len(),
            word matches Some(w) ==> w == old(self)@.byte(old(self)@.program_counter) * 256
                + old(self)@.byte(old(self)@.program_counter + 1),
            final(self)@ == old(self)@.advance(if word.is_some() { 2int } else { 0int }),
    {
        if self.pc < self.program.len() && self.program.len() - self.pc >= 2 {
            let high = self.program[self.pc] as u16;
            let low = self.program[self.pc + 1] as u16;
            self.pc = self.pc + 2;
            Some(high * 256 + low)
        } else {
            None
        }
    }

    /// Consumes the opcode byte at the program counter and decodes it.
    fn decode_opcode(&mut self) -> (opcode: Opcode)
        requires
            old(self)@.program_counter < old(self)@.program.len(),
        ensures
            opcode == decode(old(self)@.byte(old(self)@.program_counter)),
            final(self)@ == old(self)@.advance(1),
    {
        assert(self.program.len() == self.program@.len());
        let opcode = Opcode::from(self.program[self.pc]);
        self.pc = self.pc + 1;
        opcode
    }

    /// Consumes the next byte of the program as a register index. Where the
    /// byte is missing or names no register, the machine halts with the fault.
    fn next_register(&mut self) -> (index: Option<usize>)
        requires
            old(self)@.running(),
        ensures
            final(self)@ == old(self)@.read_register(),
            final(self)@.running() <==> index.is_some(),
            index matches Some(i) ==> i < REGISTER_COUNT && i == old(self)@.byte(old(self)@.program_counter),
    {
        match self.next_8_bits() {
            None => {
                self.status = Status::Halted(Outcome::Fault(Fault::TruncatedProgram));
                None
            },
            Some(byte) => {
                if byte as usize >= REGISTER_COUNT {
                    self.status = Status::Halted(Outcome::Fault(Fault::InvalidRegisterIndex));
                    None
                } else {
                    Some(byte as usize)
                }
            },
        }
    }
}

} // verus!

//! Properties of the machine model: what each instruction does to a state,
//! and what holds of every step and every run.

use vstd::prelude::*;
use crate::arith::{lemma_division_fits, lemma_trunc_division, lemma_unsigned_of_register};
use crate::arith::{lemma_wrap_add, lemma_wrap_congruent, lemma_wrap_mul};
use crate::arith::{magnitude, trunc_div, trunc_rem, unsigned32, wrap_i32};
use crate::instruction::{operand_len, Opcode};
use crate::machine::{Fault, Machine, Outcome, Status, REGISTER_COUNT};

verus! {

/// A halted machine stays as it is, whether one step is asked of it or many.
pub proof fn law_halted_is_terminal(machine: Machine, count: nat)
    requires
        !machine.running(),
    ensures
        machine.step() == machine,
        machine.run_steps(count) == machine,
    decreases count,
{
    if count > 0 {
        law_halted_is_terminal(machine, (count - 1) as nat);
    }
}

/// Running for `first + second` steps is running for `first` steps and then
/// for `second` more.
pub proof fn law_run_splits(machine: Machine, first: nat, second: nat)
    ensures
        machine.run_steps(first + second) == machine.run_steps(first).run_steps(second),
    decreases first,
{
    if first > 0 {
        law_run_splits(machine.step(), (first - 1) as nat, second);
    }
}

/// Once a run has halted, more steps change nothing: the state after `later`
/// steps is the state after the `earlier` steps that halted the machine.
pub proof fn law_run_ends_at_halt(machine: Machine, earlier: nat, later: nat)
    requires
        earlier <= later,
        !machine.run_steps(earlier).running(),
    ensures
        machine.run_steps(later) == machine.run_steps(earlier),
{
    law_run_splits(machine, earlier, (later - earlier) as nat);
    law_halted_is_terminal(machine.run_steps(earlier), (later - earlier) as nat);
}

/// A step keeps a well-formed state well-formed and never touches the
/// program.
pub proof fn law_step_preserves(machine: Machine)
    requires
        machine.well_formed(),
    ensures
        machine.step().well_formed(),
        machine.step().program == machine.program,
{
}

/// A run keeps a well-formed state well-formed and never touches the program.
pub proof fn law_run_preserves(machine: Machine, count: nat)
    requires
        machine.well_formed(),
    ensures
        machine.run_steps(count).well_formed(),
        machine.run_steps(count).program == machine.program,
    decreases count,
{
    if count > 0 {
        law_step_preserves(machine);
        law_run_preserves(machine.step(), (count - 1) as nat);
    }
}

/// A running machine whose program counter has reached or passed the end of
/// its program halts normally, and nothing else changes.
pub proof fn law_end_of_program(machine: Machine)
    requires
        machine.running(),
        machine.program_counter >= machine.program.len(),
    ensures
        machine.step() == machine.halt(Outcome::Normal),
{
}

/// HLT halts the machine normally, with the program counter just past the
/// opcode byte, and changes nothing else.
pub proof fn law_halt(machine: Machine)
    requires
        machine.fetches(Opcode::HLT),
    ensures
        machine.step() == machine.advance(1).halt(Outcome::Normal),
        machine.step().status == Status::Halted(Outcome::Normal),
        machine.step().program_counter == machine.program_counter + 1,
{
}

/// Where a run reaches a HLT after `before` steps, every longer run ends
/// halted normally with the program counter just past that HLT's opcode byte.
pub proof fn law_halt_ends_run(machine: Machine, before: nat, total: nat)
    requires
        machine.run_steps(before).fetches(Opcode::HLT),
        before < total,
    ensures
        machine.run_steps(total) == machine.run_steps(before).advance(1).halt(Outcome::Normal),
        machine.run_steps(total).status == Status::Halted(Outcome::Normal),
        machine.run_steps(total).program_counter == machine.run_steps(before).program_counter + 1,
{
    let at_halt = machine.run_steps(before);
    law_run_splits(machine, before, 1);
    assert(at_halt.run_steps(1) == at_halt.step()) by {
        assert(at_halt.step().run_steps(0) == at_halt.step());
    }
    law_run_ends_at_halt(machine, before + 1, total);
}

/// NOP consumes its opcode byte and changes nothing else.
pub proof fn law_no_operation(machine: Machine)
    requires
        machine.fetches(Opcode::NOP),
    ensures
        machine.step() == machine.advance(1),
{
}

/// A byte that selects no operation halts the machine with `IllegalOpcode`,
/// the program counter just past the byte, and no register, flag or remainder
/// changed.
pub proof fn law_illegal_opcode(machine: Machine)
    requires
        machine.running(),
        0 <= machine.program_counter < machine.program.len(),
        machine.byte(machine.program_counter) >= 12,
    ensures
        machine.step() == machine.advance(1).fault(Fault::IllegalOpcode),
        machine.step().status == Status::Halted(Outcome::Fault(Fault::IllegalOpcode)),
        machine.step().registers == machine.registers,
{
}

/// LOAD of the immediate `value` into register `register` leaves exactly
/// `value` there, for every 16-bit `value`; the other registers keep their
/// values and the program counter moves past the four bytes.
pub proof fn law_load(machine: Machine, register: int, value: int)
    requires
        machine.well_formed(),
        machine.fetches(Opcode::LOAD),
        machine.program_counter + 4 <= machine.program.len(),
        0 <= register < REGISTER_COUNT,
        0 <= value <= 0xFFFF,
        machine.byte(machine.program_counter + 1) == register,
        machine.byte(machine.program_counter + 2) == value / 256,
        machine.byte(machine.program_counter + 3) == value % 256,
    ensures
        machine.step() == machine.advance(4).store(register, value as i32),
        machine.step().registers[register] == value,
        forall|other: int|
            0 <= other < REGISTER_COUNT && other != register ==> machine.step().registers[other]
                == machine.registers[other],
        machine.step().running(),
{
}

/// ADD stores in the destination register the sum of the two source
/// registers as 32-bit two's-complement hardware computes it: congruent to the
/// exact sum modulo 2^32, and the exact sum where that fits.
pub proof fn law_add(machine: Machine)
    requires
        machine.well_formed(),
        machine.fetches(Opcode::ADD),
        machine.names_registers(machine.program_counter + 1, 3),
    ensures
        ({
            let at = machine.program_counter + 1;
            let sum = machine.operand(at) + machine.operand(at + 1);
            let stored = machine.step().registers[machine.byte(at + 2) as int];
            &&& machine.step() == machine.advance(4).store(machine.byte(at + 2) as int, wrap_i32(sum))
            &&& stored == vstd::wrapping::i32_specs::wrapping_add(
                machine.operand(at),
                machine.operand(at + 1),
            )
            &&& (sum - stored) % 0x1_0000_0000 == 0
            &&& i32::MIN <= sum <= i32::MAX ==> stored == sum
        }),
{
    let at = machine.program_counter + 1;
    assert(machine.byte(at) < REGISTER_COUNT);
    assert(machine.byte(at + 1) < REGISTER_COUNT);
    assert(machine.byte(at + 2) < REGISTER_COUNT);
    lemma_wrap_add(machine.operand(at), machine.operand(at + 1));
    lemma_wrap_congruent(machine.operand(at) + machine.operand(at + 1));
}

/// MUL stores in the destination register the product of the two source
/// registers as 32-bit two's-complement hardware computes it: congruent to the
/// exact product modulo 2^32, and the exact product where that fits.
pub proof fn law_multiply(machine: Machine)
    requires
        machine.well_formed(),
        machine.fetches(Opcode::MUL),
        machine.names_registers(machine.program_counter + 1, 3),
    ensures
        ({
            let at = machine.program_counter + 1;
            let product = machine.operand(at) * machine.operand(at + 1);
            let stored = machine.step().registers[machine.byte(at + 2) as int];
            &&& machine.step() == machine.advance(4).store(
                machine.byte(at + 2) as int,
                wrap_i32(product),
            )
            &&& stored == vstd::wrapping::i32_specs::wrapping_mul(
                machine.operand(at),
                machine.operand(at + 1),
            )
            &&& (product - stored) % 0x1_0000_0000 == 0
            &&& i32::MIN <= product <= i32::MAX ==> stored == product
        }),
{
    let at = machine.program_counter + 1;
    assert(machine.byte(at) < REGISTER_COUNT);
    assert(machine.byte(at + 1) < REGISTER_COUNT);
    assert(machine.byte(at + 2) < REGISTER_COUNT);
    lemma_wrap_mul(machine.operand(at), machine.operand(at + 1));
    lemma_wrap_congruent(machine.operand(at) * machine.operand(at + 1));
}

/// DIV by a divisor that is not zero leaves a quotient `q` in the destination
/// register and a remainder `r` in the remainder register such that the
/// dividend is `q` times the divisor plus `r`, `r` is smaller than the divisor
/// in magnitude and has no sign opposite to the dividend's, and `q` is
/// truncated toward zero. The one division whose quotient no register holds,
/// that of the least integer by -1, is left out.
pub proof fn law_divide(machine: Machine)
    requires
        machine.well_formed(),
        machine.fetches(Opcode::DIV),
        machine.names_registers(machine.program_counter + 1, 3),
        machine.operand(machine.program_counter + 2) != 0,
        !(machine.operand(machine.program_counter + 1) == i32::MIN && machine.operand(
            machine.program_counter + 2,
        ) == -1),
    ensures
        ({
            let at = machine.program_counter + 1;
            let n = machine.operand(at) as int;
            let d = machine.operand(at + 1) as int;
            let q = machine.step().registers[machine.byte(at + 2) as int] as int;
            let r = wrap_i32(machine.step().remainder as int) as int;
            &&& machine.step().running()
            &&& machine.step().program_counter == machine.program_counter + 4
            &&& machine.step().remainder == unsigned32(r)
            &&& n == q * d + r
            &&& magnitude(r) < magnitude(d)
            &&& n >= 0 ==> r >= 0
            &&& n <= 0 ==> r <= 0
            &&& magnitude(q) == magnitude(n) / magnitude(d)
            &&& magnitude(q) * magnitude(d) <= magnitude(n) < (magnitude(q) + 1) * magnitude(d)
            &&& (n >= 0) == (d > 0) ==> q >= 0
            &&& (n >= 0) != (d > 0) ==> q <= 0
        }),
{
    let at = machine.program_counter + 1;
    assert(machine.byte(at) < REGISTER_COUNT);
    assert(machine.byte(at + 1) < REGISTER_COUNT);
    assert(machine.byte(at + 2) < REGISTER_COUNT);
    let n = machine.operand(at);
    let d = machine.operand(at + 1);
    lemma_division_fits(n, d);
    assert(machine.step().registers[machine.byte(at + 2) as int] == trunc_div(n as int, d as int));
    assert(wrap_i32(machine.step().remainder as int) == trunc_rem(n as int, d as int));
    lemma_trunc_division(n as int, d as int);
}

/// The division of the least integer by -1, whose exact quotient 2^31 no
/// register holds, stores that quotient wrapped, which is the least integer
/// again, and a remainder of zero.
pub proof fn law_divide_overflow(machine: Machine)
    requires
        machine.well_formed(),
        machine.fetches(Opcode::DIV),
        machine.names_registers(machine.program_counter + 1, 3),
        machine.operand(machine.program_counter + 1) == i32::MIN,
        machine.operand(machine.program_counter + 2) == -1,
    ensures
        machine.step().running(),
        machine.step().registers[machine.byte(machine.program_counter + 3) as int] == i32::MIN,
        machine.step().remainder == 0,
{
    let at = machine.program_counter + 1;
    assert(machine.byte(at) < REGISTER_COUNT);
    assert(machine.byte(at + 1) < REGISTER_COUNT);
    assert(machine.byte(at + 2) < REGISTER_COUNT);
    lemma_division_fits(i32::MIN, -1i32);
    assert(trunc_rem(i32::MIN as int, -1) == 0);
}

/// DIV by a divisor register that holds zero halts the machine with
/// `DivisionByZero` and leaves every register and the remainder as they were.
pub proof fn law_divide_by_zero(machine: Machine)
    requires
        machine.well_formed(),
        machine.fetches(Opcode::DIV),
        machine.names_registers(machine.program_counter + 1, 3),
        machine.operand(machine.program_counter + 2) == 0,
    ensures
        machine.step() == machine.advance(4).fault(Fault::DivisionByZero),
        machine.step().status == Status::Halted(Outcome::Fault(Fault::DivisionByZero)),
        machine.step().registers == machine.registers,
        machine.step().remainder == machine.remainder,
{
    let at = machine.program_counter + 1;
    assert(machine.byte(at) < REGISTER_COUNT);
    assert(machine.byte(at + 1) < REGISTER_COUNT);
    assert(machine.byte(at + 2) < REGISTER_COUNT);
}

/// JMP sets the program counter to the unsigned value of the operand
/// register, which is the register's value where that is not negative, and
/// changes nothing else.
pub proof fn law_jump_absolute(machine: Machine)
    requires
        machine.well_formed(),
        machine.fetches(Opcode::JMP),
        machine.names_registers(machine.program_counter + 1, 1),
    ensures
        ({
            let value = machine.operand(machine.program_counter + 1);
            &&& machine.step() == machine.jump(unsigned32(value as int) as int)
            &&& value >= 0 ==> machine.step().program_counter == value
            &&& value < 0 ==> machine.step().program_counter == value + 0x1_0000_0000
        }),
{
    assert(machine.byte(machine.program_counter + 1) < REGISTER_COUNT);
    lemma_unsigned_of_register(machine.operand(machine.program_counter + 1));
}

/// JMPF adds the unsigned value of the operand register to the program
/// counter as it stands after the instruction's two bytes, and changes nothing
/// else; where no machine word holds the sum, it halts the machine with
/// `InvalidJumpTarget` instead.
pub proof fn law_jump_forward(machine: Machine)
    requires
        machine.well_formed(),
        machine.fetches(Opcode::JMPF),
        machine.names_registers(machine.program_counter + 1, 1),
    ensures
        ({
            let offset = unsigned32(machine.operand(machine.program_counter + 1) as int);
            let target = machine.program_counter + 2 + offset;
            &&& target <= usize::MAX ==> machine.step() == machine.jump(target)
            &&& target > usize::MAX ==> machine.step() == machine.advance(2).fault(
                Fault::InvalidJumpTarget,
            )
        }),
{
    assert(machine.byte(machine.program_counter + 1) < REGISTER_COUNT);
}

/// JMPB takes the unsigned value of the operand register from the program
/// counter as it stands after the instruction's two bytes, and changes nothing
/// else; where the difference would be negative, it halts the machine with
/// `InvalidJumpTarget` instead.
pub proof fn law_jump_backward(machine: Machine)
    requires
        machine.well_formed(),
        machine.fetches(Opcode::JMPB),
        machine.names_registers(machine.program_counter + 1, 1),
    ensures
        ({
            let offset = unsigned32(machine.operand(machine.program_counter + 1) as int);
            let target = machine.program_counter + 2 - offset;
            &&& target >= 0 ==> machine.step() == machine.jump(target)
            &&& target < 0 ==> machine.step() == machine.advance(2).fault(Fault::InvalidJumpTarget)
        }),
{
    assert(machine.byte(machine.program_counter + 1) < REGISTER_COUNT);
}

/// EQ sets the equality flag to whether the two operand registers hold equal
/// values, consumes exactly its three bytes, and changes nothing else.
pub proof fn law_compare(machine: Machine)
    requires
        machine.well_formed(),
        machine.fetches(Opcode::EQ),
        machine.names_registers(machine.program_counter + 1, 2),
    ensures
        ({
            let at = machine.program_counter + 1;
            let equal = machine.operand(at) == machine.operand(at + 1);
            &&& machine.step() == (Machine { equality_flag: equal, ..machine.advance(3) })
            &&& machine.step().equality_flag <==> machine.operand(at) == machine.operand(at + 1)
        }),
{
    let at = machine.program_counter + 1;
    assert(machine.byte(at) < REGISTER_COUNT);
    assert(machine.byte(at + 1) < REGISTER_COUNT);
}

/// JEQ jumps to the unsigned value of the operand register where the
/// equality flag is set, and JNE where it is not; otherwise each moves on past
/// its two bytes. Neither changes anything but the program counter.
pub proof fn law_conditional_jump(machine: Machine)
    requires
        machine.well_formed(),
        machine.fetches(Opcode::JEQ) || machine.fetches(Opcode::JNE),
        machine.names_registers(machine.program_counter + 1, 1),
    ensures
        ({
            let target = unsigned32(machine.operand(machine.program_counter + 1) as int) as int;
            let taken = machine.equality_flag == machine.fetches(Opcode::JEQ);
            &&& taken ==> machine.step() == machine.jump(target)
            &&& !taken ==> machine.step() == machine.advance(2)
        }),
{
    assert(machine.byte(machine.program_counter + 1) < REGISTER_COUNT);
}

/// A conditional jump that follows a comparison branches on that comparison:
/// JEQ jumps exactly where the two compared registers were equal, JNE exactly
/// where they were not.
pub proof fn law_compare_then_jump(machine: Machine)
    requires
        machine.well_formed(),
        machine.fetches(Opcode::EQ),
        machine.names_registers(machine.program_counter + 1, 2),
        machine.step().fetches(Opcode::JEQ) || machine.step().fetches(Opcode::JNE),
        machine.step().names_registers(machine.program_counter + 4, 1),
    ensures
        ({
            let at = machine.program_counter + 1;
            let equal = machine.operand(at) == machine.operand(at + 1);
            let target = unsigned32(machine.operand(at + 3) as int) as int;
            let taken = equal == machine.step().fetches(Opcode::JEQ);
            &&& taken ==> machine.step().step().program_counter == target
            &&& !taken ==> machine.step().step().program_counter == machine.program_counter + 5
        }),
{
    law_compare(machine);
    law_step_preserves(machine);
    law_conditional_jump(machine.step());
}

/// A reset puts every register, the program counter and the remainder to
/// zero, clears the equality flag and sets the machine running, whatever state
/// it was in; the program stays.
pub proof fn law_reset(machine: Machine)
    ensures
        machine.reset().well_formed() <==> machine.program.len() <= usize::MAX,
        forall|index: int| 0 <= index < REGISTER_COUNT ==> machine.reset().registers[index] == 0,
        machine.reset().program_counter == 0,
        machine.reset().remainder == 0,
        !machine.reset().equality_flag,
        machine.reset().running(),
        machine.reset().program == machine.program,
{
}

/// An instruction that is no jump and raises no fault moves the program
/// counter past its opcode byte and its operand bytes, and nowhere else.
pub proof fn law_sequential_advance(machine: Machine, opcode: Opcode)
    requires
        machine.well_formed(),
        machine.fetches(opcode),
        machine.step().running(),
        opcode == Opcode::LOAD || opcode == Opcode::ADD || opcode == Opcode::MUL || opcode
            == Opcode::DIV || opcode == Opcode::EQ || opcode == Opcode::NOP,
    ensures
        machine.step().program_counter == machine.program_counter + 1 + operand_len(opcode),
{
}

} // verus!

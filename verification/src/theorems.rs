//! What holds of every cycle of the machine, proved from the transition function.
use crate::instruction::Opcode;
use crate::machine::{
    arithmetic_fault, arithmetic_value, comparison_holds, immediate, is_address,
    is_arithmetic, is_comparison, quotient, remainder, unsigned, Fault, Signal, State,
    REGISTER_COUNT,
};
use vstd::prelude::*;

verus! {

/// A cycle keeps a state well formed, and never touches the program.
pub proof fn theorem_step_keeps_shape(s: State)
    requires
        s.wf(),
    ensures
        s.step().0.wf(),
        s.step().0.program == s.program,
{
}

/// A cycle that reports a fault changes nothing.
pub proof fn theorem_fault_changes_nothing(s: State)
    requires
        s.step().1 is Fatal,
    ensures
        s.step().0 == s,
{
}

/// The flag is written by comparisons only, and the remainder by `DIV` only: after a
/// cycle on any other instruction each is what it was.
pub proof fn theorem_flag_and_remainder_are_kept(s: State)
    ensures
        s.at_end() || !is_comparison(s.opcode()) ==> s.step().0.equal_flag == s.equal_flag,
        s.at_end() || s.opcode() != Opcode::DIV ==> s.step().0.remainder == s.remainder,
{
}

/// A cycle stops exactly at the end of the program, on `HLT`, on an illegal byte and on
/// a fault; on each it gives the signal that is named after it.
pub proof fn theorem_signals(s: State)
    ensures
        s.step().1 == Signal::EndOfProgram <==> s.at_end(),
        s.step().1 == Signal::Halt <==> !s.at_end() && s.opcode() == Opcode::HLT,
        s.step().1 == Signal::IllegalOpcode <==> !s.at_end() && s.opcode() == Opcode::IGL,
        s.step().1 == Signal::Fatal(Fault::TruncatedInstruction) <==> !s.at_end()
            && s.truncated(),
{
}

/// `LOAD` of the immediate with the bytes `high` and `low` into an existing register sets
/// that register to `high * 256 + low` and moves the program counter four bytes on.
/// Nothing else changes.
pub proof fn theorem_load(s: State)
    requires
        s.wf(),
        !s.at_end(),
        s.opcode() == Opcode::LOAD,
        !s.truncated(),
        s.names_register(0),
    ensures
        s.step().1 == Signal::Running,
        s.step().0.registers == s.registers.update(
            s.operand(0) as int,
            immediate(s.operand(1), s.operand(2)),
        ),
        immediate(s.operand(1), s.operand(2)) == s.operand(1) * 256 + s.operand(2),
        s.step().0.pc == s.pc + 4,
        s.step().0.remainder == s.remainder,
        s.step().0.equal_flag == s.equal_flag,
{
}

/// An arithmetic instruction that names existing registers and has no fault writes its
/// destination register, and `DIV` the remainder as well; every other register, the
/// flag and, but for `DIV`, the remainder stay, and the program counter moves four bytes
/// on.
pub proof fn theorem_arithmetic(s: State)
    requires
        s.wf(),
        !s.at_end(),
        is_arithmetic(s.opcode()),
        !s.truncated(),
        s.names_register(0),
        s.names_register(1),
        s.names_register(2),
        arithmetic_fault(s.opcode(), s.register_operand(0), s.register_operand(1)) is None,
    ensures
        s.step().1 == Signal::Running,
        s.step().0.registers == s.registers.update(
            s.operand(2) as int,
            arithmetic_value(s.opcode(), s.register_operand(0), s.register_operand(1)),
        ),
        forall|i: int|
            0 <= i < REGISTER_COUNT && i != s.operand(2) ==> s.step().0.registers[i]
                == s.registers[i],
        s.step().0.pc == s.pc + 4,
        s.step().0.equal_flag == s.equal_flag,
        s.opcode() != Opcode::DIV ==> s.step().0.remainder == s.remainder,
{
}

/// What an arithmetic instruction computes depends on its operation and on the values of
/// its two source registers, and on nothing else: two machines that execute the same
/// operation on equal source values give the same signal, store the same value and,
/// for `DIV`, leave the same remainder.
pub proof fn theorem_arithmetic_reads_sources_only(s: State, t: State)
    requires
        s.wf(),
        t.wf(),
        !s.at_end(),
        !t.at_end(),
        is_arithmetic(s.opcode()),
        t.opcode() == s.opcode(),
        !s.truncated(),
        !t.truncated(),
        s.names_register(0) && s.names_register(1) && s.names_register(2),
        t.names_register(0) && t.names_register(1) && t.names_register(2),
        s.register_operand(0) == t.register_operand(0),
        s.register_operand(1) == t.register_operand(1),
    ensures
        s.step().1 == t.step().1,
        s.step().1 == Signal::Running ==> s.step().0.registers[s.operand(2) as int]
            == t.step().0.registers[t.operand(2) as int],
        s.step().1 == Signal::Running && s.opcode() == Opcode::DIV ==> s.step().0.remainder
            == t.step().0.remainder,
{
}

/// `DIV` of `a` by `b` stores the quotient rounded toward zero and sets the remainder to
/// what is left over, read as an unsigned number. It has a fault exactly where `b` is
/// zero or the quotient does not fit.
pub proof fn theorem_division(s: State)
    requires
        s.wf(),
        !s.at_end(),
        s.opcode() == Opcode::DIV,
        !s.truncated(),
        s.names_register(0),
        s.names_register(1),
        s.names_register(2),
    ensures
        ({
            let a = s.register_operand(0);
            let b = s.register_operand(1);
            &&& b == 0 <==> s.step().1 == Signal::Fatal(Fault::DivisionByZero)
            &&& a == i32::MIN && b == -1 <==> s.step().1 == Signal::Fatal(
                Fault::DivisionOverflow,
            )
            &&& b != 0 && !(a == i32::MIN && b == -1) <==> s.step().1 == Signal::Running
            &&& s.step().1 == Signal::Running ==> {
                &&& s.step().0.registers[s.operand(2) as int] == quotient(a as int, b as int)
                &&& s.step().0.remainder == unsigned(remainder(a as int, b as int))
            }
        }),
{
    let a = s.register_operand(0);
    let b = s.register_operand(1);
    if b != 0 {
        crate::machine::lemma_division_in_range(a, b);
    }
}

/// Division that rounds toward zero: the quotient times the divisor and the remainder
/// make up the dividend, the remainder is smaller in size than the divisor, and it is
/// zero or has the sign of the dividend.
pub proof fn theorem_quotient_rounds_toward_zero(a: int, b: int)
    requires
        b != 0,
    ensures
        a == b * quotient(a, b) + remainder(a, b),
        b > 0 ==> -b < remainder(a, b) < b,
        b < 0 ==> b < remainder(a, b) < -b,
        a >= 0 ==> remainder(a, b) >= 0,
        a <= 0 ==> remainder(a, b) <= 0,
{
    let x: int = if a >= 0 {
        a
    } else {
        -a
    };
    let d: int = if b > 0 {
        b
    } else {
        -b
    };
    assert(x == d * (x / d) + x % d && 0 <= x % d < d) by (nonlinear_arith)
        requires
            d > 0,
    ;
    assert(b * quotient(a, b) == if a >= 0 {
        d * (x / d)
    } else {
        -(d * (x / d))
    }) by (nonlinear_arith)
        requires
            b != 0,
            d == if b > 0 {
                b
            } else {
                -b
            },
            quotient(a, b) == if (a >= 0) == (b > 0) {
                x / d
            } else {
                -(x / d)
            },
    ;
}

/// Only one pair of numbers divides `a` by `b` with rounding toward zero: whatever `q`
/// and `r` make up `a`, with `r` smaller in size than `b` and zero or of the sign of `a`,
/// are the quotient and the remainder.
pub proof fn theorem_rounding_toward_zero_is_unique(a: int, b: int, q: int, r: int)
    requires
        b != 0,
        a == b * q + r,
        b > 0 ==> -b < r < b,
        b < 0 ==> b < r < -b,
        a >= 0 ==> r >= 0,
        a <= 0 ==> r <= 0,
    ensures
        q == quotient(a, b),
        r == remainder(a, b),
{
    theorem_quotient_rounds_toward_zero(a, b);
    let q0 = quotient(a, b);
    let r0 = remainder(a, b);
    assert(q == q0) by (nonlinear_arith)
        requires
            b != 0,
            b * q + r == b * q0 + r0,
            b > 0 ==> -b < r - r0 < b,
            b < 0 ==> b < r - r0 < -b,
    ;
}

/// `JMP` through an existing register that holds a value not below zero sets the
/// program counter to that value, wherever it stood before. Nothing else changes.
pub proof fn theorem_jump(s: State)
    requires
        s.wf(),
        !s.at_end(),
        s.opcode() == Opcode::JMP,
        !s.truncated(),
        s.names_register(0),
        s.register_operand(0) >= 0,
    ensures
        s.step().1 == Signal::Running,
        s.step().0 == (State { pc: s.register_operand(0) as nat, ..s }),
{
}

/// `JMPF` and `JMPB` through an existing register move the program counter past the two
/// bytes of the instruction and then forward, or back, by the value of the register. The
/// jump has a fault exactly where that place is none the program counter can hold.
pub proof fn theorem_relative_jump(s: State)
    requires
        s.wf(),
        !s.at_end(),
        s.opcode() == Opcode::JMPF || s.opcode() == Opcode::JMPB,
        !s.truncated(),
        s.names_register(0),
    ensures
        ({
            let target = if s.opcode() == Opcode::JMPF {
                s.pc + 2 + s.register_operand(0)
            } else {
                s.pc + 2 - s.register_operand(0)
            };
            &&& is_address(target) ==> s.step().1 == Signal::Running && s.step().0 == (State {
                pc: target as nat,
                ..s
            })
            &&& !is_address(target) ==> s.step().1 == Signal::Fatal(Fault::JumpOutOfRange)
        }),
{
}

/// A comparison of two existing registers sets the flag to what the relation it names
/// gives on their values, and moves the program counter four bytes on, whatever the
/// outcome. Nothing else changes.
pub proof fn theorem_comparison(s: State)
    requires
        s.wf(),
        !s.at_end(),
        is_comparison(s.opcode()),
        !s.truncated(),
        s.names_register(0),
        s.names_register(1),
    ensures
        s.step().1 == Signal::Running,
        s.step().0 == (State {
            equal_flag: comparison_holds(
                s.opcode(),
                s.register_operand(0),
                s.register_operand(1),
            ),
            pc: s.pc + 4,
            ..s
        }),
        s.opcode() == Opcode::EQ ==> s.step().0.equal_flag == (s.register_operand(0)
            == s.register_operand(1)),
        s.opcode() == Opcode::NEQ ==> s.step().0.equal_flag == (s.register_operand(0)
            != s.register_operand(1)),
        s.opcode() == Opcode::GT ==> s.step().0.equal_flag == (s.register_operand(0)
            > s.register_operand(1)),
        s.opcode() == Opcode::LT ==> s.step().0.equal_flag == (s.register_operand(0)
            < s.register_operand(1)),
        s.opcode() == Opcode::GTQ ==> s.step().0.equal_flag == (s.register_operand(0)
            >= s.register_operand(1)),
        s.opcode() == Opcode::LTQ ==> s.step().0.equal_flag == (s.register_operand(0)
            <= s.register_operand(1)),
{
}

/// `JEQ` through an existing register looks at the flag. With the flag clear the program
/// counter moves past the two bytes of the instruction, whatever the register holds. With
/// the flag set it goes to the value of the register, or, where that value is below
/// zero, the cycle reports a fault. Nothing else changes.
pub proof fn theorem_jump_if_equal(s: State)
    requires
        s.wf(),
        !s.at_end(),
        s.opcode() == Opcode::JEQ,
        !s.truncated(),
        s.names_register(0),
    ensures
        !s.equal_flag ==> s.step().1 == Signal::Running && s.step().0 == (State {
            pc: s.pc + 2,
            ..s
        }),
        s.equal_flag && s.register_operand(0) >= 0 ==> s.step().1 == Signal::Running
            && s.step().0 == (State { pc: s.register_operand(0) as nat, ..s }),
        s.equal_flag && s.register_operand(0) < 0 ==> s.step().1 == Signal::Fatal(
            Fault::JumpOutOfRange,
        ),
{
}

/// At the end of the program a cycle stops and changes nothing. On an illegal byte, and
/// on `HLT`, it stops and moves the program counter past that byte; no register, nor the
/// remainder, nor the flag changes.
pub proof fn theorem_stop_keeps_registers(s: State)
    requires
        s.at_end() || s.opcode() == Opcode::IGL || s.opcode() == Opcode::HLT,
    ensures
        s.step().1.stops(),
        s.at_end() ==> s.step().0 == s,
        !s.at_end() ==> s.step().0 == (State { pc: s.pc + 1, ..s }),
        s.step().0.registers == s.registers,
        s.step().0.remainder == s.remainder,
        s.step().0.equal_flag == s.equal_flag,
{
}

/// A run ends where single cycles end: if cycle number `n` is the first to stop, a run
/// from `s` takes `n + 1` cycles, so it ends in the state after that many single cycles
/// and gives the signal of the last of them.
pub proof fn theorem_run_follows_single_cycles(s: State, n: nat)
    requires
        s.stops_at(n),
    ensures
        s.halts(),
        s.last_cycle() == n,
        s.after(s.last_cycle() + 1) == s.after(n).step().0,
        s.signal_at(s.last_cycle()) == s.after(n).step().1,
{
    crate::machine::lemma_halts_at(s, n);
}

/// Cycles add up: `m + n` cycles lead where `n` cycles lead from the state that `m`
/// cycles lead to.
pub proof fn theorem_cycles_add_up(s: State, m: nat, n: nat)
    ensures
        s.after(m + n) == s.after(m).after(n),
    decreases n,
{
    if n > 0 {
        theorem_cycles_add_up(s, m, (n - 1) as nat);
    }
}

/// Any number of cycles keeps a state well formed and the program as it is.
pub proof fn theorem_cycles_keep_shape(s: State, n: nat)
    requires
        s.wf(),
    ensures
        s.after(n).wf(),
        s.after(n).program == s.program,
    decreases n,
{
    if n > 0 {
        theorem_cycles_keep_shape(s, (n - 1) as nat);
        theorem_step_keeps_shape(s.after((n - 1) as nat));
    }
}

} // verus!

//! The machine as mathematics: its state, and the function that carries one state to the
//! next.
//!
//! A cycle is atomic. It either runs one whole instruction, or it stops at a terminal
//! condition. A cycle that ends in a [`Fault`] changes nothing at all, the program counter
//! included, so a caller sees the state in which the faulty instruction was met.
use crate::instruction::Opcode;
use vstd::prelude::*;

verus! {

/// The number of registers.
pub const REGISTER_COUNT: usize = 32;

/// Why an instruction could not be carried out.
#[derive(Clone, Copy, Debug, PartialEq, Eq, Structural)]
pub enum Fault {
    /// The program ends before the last operand byte of the instruction.
    TruncatedInstruction,
    /// An operand that names a register is not below [`REGISTER_COUNT`].
    RegisterOutOfRange,
    /// `DIV` with a divisor register that holds zero.
    DivisionByZero,
    /// `DIV` of the least register value by -1, whose quotient no register can hold.
    DivisionOverflow,
    /// A jump to a place below zero or beyond what the program counter can hold.
    JumpOutOfRange,
}

/// What one cycle reports.
#[derive(Clone, Copy, Debug, PartialEq, Eq, Structural)]
pub enum Signal {
    /// An instruction ran; there may be more to execute.
    Running,
    /// `HLT` was executed.
    Halt,
    /// The program counter stood at or past the end of the program.
    EndOfProgram,
    /// The opcode byte names no operation.
    IllegalOpcode,
    /// The instruction could not be carried out, and the state is as it was.
    Fatal(Fault),
}

impl Signal {
    /// Whether the cycle ended the run: every signal but [`Signal::Running`] does.
    pub open spec fn stops(self) -> bool {
        self != Signal::Running
    }

    /// Whether the cycle ended the run.
    pub fn is_halted(&self) -> (halted: bool)
        ensures
            halted == self.stops(),
    {
        match self {
            Signal::Running => false,
            _ => true,
        }
    }
}

/// The state of a machine.
pub struct State {
    /// The register file.
    pub registers: Seq<i32>,
    /// The index in `program` of the next byte to decode.
    pub pc: nat,
    /// The instruction stream.
    pub program: Seq<u8>,
    /// The remainder of the latest division.
    pub remainder: u32,
    /// The result of the latest comparison.
    pub equal_flag: bool,
}

/// The value of a 16-bit immediate whose bytes are `high` and `low`, in that order.
pub open spec fn immediate(high: u8, low: u8) -> i32 {
    (high * 256 + low) as i32
}

/// The register value that `x` wraps to: the one value between `i32::MIN` and `i32::MAX`
/// that differs from `x` by a multiple of 2^32.
pub open spec fn wrap(x: int) -> i32 {
    let low = x % 0x1_0000_0000;
    if low >= 0x8000_0000 {
        (low - 0x1_0000_0000) as i32
    } else {
        low as i32
    }
}

/// The bits of `x` read as an unsigned number.
pub open spec fn unsigned(x: int) -> u32
    recommends
        i32::MIN <= x <= i32::MAX,
{
    if x >= 0 {
        x as u32
    } else {
        (x + 0x1_0000_0000) as u32
    }
}

/// `a` divided by `b`, rounded toward zero.
pub open spec fn quotient(a: int, b: int) -> int
    recommends
        b != 0,
{
    if a >= 0 {
        if b > 0 {
            a / b
        } else {
            -(a / (-b))
        }
    } else {
        if b > 0 {
            -((-a) / b)
        } else {
            (-a) / (-b)
        }
    }
}

/// What `a` leaves over when divided by `b` with rounding toward zero. It is zero or has
/// the sign of `a`.
pub open spec fn remainder(a: int, b: int) -> int
    recommends
        b != 0,
{
    if a >= 0 {
        if b > 0 {
            a % b
        } else {
            a % (-b)
        }
    } else {
        if b > 0 {
            -((-a) % b)
        } else {
            -((-a) % (-b))
        }
    }
}

/// Whether `opcode` is one of the four arithmetic operations.
pub open spec fn is_arithmetic(opcode: Opcode) -> bool {
    opcode == Opcode::ADD || opcode == Opcode::SUB || opcode == Opcode::MUL || opcode
        == Opcode::DIV
}

/// Whether `opcode` is one of the six comparisons.
pub open spec fn is_comparison(opcode: Opcode) -> bool {
    opcode == Opcode::EQ || opcode == Opcode::NEQ || opcode == Opcode::GT || opcode
        == Opcode::LT || opcode == Opcode::GTQ || opcode == Opcode::LTQ
}

/// Whether `opcode` is one of the three unconditional jumps.
pub open spec fn is_jump(opcode: Opcode) -> bool {
    opcode == Opcode::JMP || opcode == Opcode::JMPF || opcode == Opcode::JMPB
}

/// What an arithmetic operation stores in its destination, from the two source values
/// alone. `ADD`, `SUB` and `MUL` wrap; `DIV` rounds toward zero.
pub open spec fn arithmetic_value(opcode: Opcode, a: i32, b: i32) -> i32
    recommends
        is_arithmetic(opcode),
{
    match opcode {
        Opcode::ADD => wrap(a + b),
        Opcode::SUB => wrap(a - b),
        Opcode::MUL => wrap(a * b),
        _ => quotient(a as int, b as int) as i32,
    }
}

/// The fault of an arithmetic operation on the two source values, if it has one: only
/// `DIV` can fail, on a zero divisor and on the one quotient that does not fit.
pub open spec fn arithmetic_fault(opcode: Opcode, a: i32, b: i32) -> Option<Fault>
    recommends
        is_arithmetic(opcode),
{
    if opcode != Opcode::DIV {
        None
    } else if b == 0 {
        Some(Fault::DivisionByZero)
    } else if a == i32::MIN && b == -1 {
        Some(Fault::DivisionOverflow)
    } else {
        None
    }
}

/// The relation that a comparison names, applied to `a` and `b`.
pub open spec fn comparison_holds(opcode: Opcode, a: i32, b: i32) -> bool
    recommends
        is_comparison(opcode),
{
    match opcode {
        Opcode::EQ => a == b,
        Opcode::NEQ => a != b,
        Opcode::GT => a > b,
        Opcode::LT => a < b,
        Opcode::GTQ => a >= b,
        _ => a <= b,
    }
}

/// Where a jump leads, as an integer that may lie out of range: `JMP` and `JEQ` go to
/// `value` itself, `JMPF` goes `value` bytes forward and `JMPB` `value` bytes back from
/// `after`, the place just behind the jump instruction.
pub open spec fn jump_target(opcode: Opcode, after: int, value: i32) -> int {
    match opcode {
        Opcode::JMPF => after + value,
        Opcode::JMPB => after - value,
        _ => value as int,
    }
}

/// Whether a program counter can hold `target`.
pub open spec fn is_address(target: int) -> bool {
    0 <= target <= usize::MAX
}

impl State {
    /// What every state of a machine satisfies: it has all its registers, and the machine
    /// can hold its program counter and the length of its program.
    pub open spec fn wf(self) -> bool {
        &&& self.registers.len() == REGISTER_COUNT
        &&& self.pc <= usize::MAX
        &&& self.program.len() <= usize::MAX
    }

    /// The state of a machine that was just made.
    pub open spec fn initial() -> State {
        State {
            registers: Seq::new(REGISTER_COUNT as nat, |i: int| 0i32),
            pc: 0,
            program: Seq::empty(),
            remainder: 0,
            equal_flag: false,
        }
    }

    /// Whether the program counter stands at or past the end of the program.
    pub open spec fn at_end(self) -> bool {
        self.pc >= self.program.len()
    }

    /// The operation named by the byte under the program counter.
    pub open spec fn opcode(self) -> Opcode
        recommends
            !self.at_end(),
    {
        Opcode::of_byte(self.program[self.pc as int])
    }

    /// The place just behind the instruction under the program counter.
    pub open spec fn next_pc(self) -> nat
        recommends
            !self.at_end(),
    {
        self.pc + 1 + self.opcode().operand_bytes()
    }

    /// Whether the program ends before the instruction under the program counter does.
    pub open spec fn truncated(self) -> bool
        recommends
            !self.at_end(),
    {
        self.next_pc() > self.program.len()
    }

    /// Operand byte number `k` of the instruction under the program counter, counted from
    /// zero.
    pub open spec fn operand(self, k: int) -> u8
        recommends
            !self.at_end(),
            0 <= k < self.opcode().operand_bytes(),
            !self.truncated(),
    {
        self.program[self.pc + 1 + k]
    }

    /// Whether operand byte number `k` names a register.
    pub open spec fn names_register(self, k: int) -> bool {
        self.operand(k) < REGISTER_COUNT
    }

    /// The value of the register that operand byte number `k` names.
    pub open spec fn register_operand(self, k: int) -> i32
        recommends
            self.names_register(k),
    {
        self.registers[self.operand(k) as int]
    }

    /// The state with `value` stored in the register that operand byte number `k` names,
    /// and the program counter behind the instruction.
    pub open spec fn store(self, k: int, value: i32) -> State
        recommends
            self.names_register(k),
    {
        State {
            registers: self.registers.update(self.operand(k) as int, value),
            pc: self.next_pc(),
            ..self
        }
    }

    /// `LOAD`: the first operand names the destination, the other two are the immediate.
    pub open spec fn load(self) -> Result<State, Fault> {
        if !self.names_register(0) {
            Err(Fault::RegisterOutOfRange)
        } else {
            Ok(self.store(0, immediate(self.operand(1), self.operand(2))))
        }
    }

    /// `ADD`, `SUB`, `MUL` and `DIV`: two source registers, then the destination. `DIV`
    /// also sets the remainder.
    pub open spec fn arithmetic(self) -> Result<State, Fault> {
        let opcode = self.opcode();
        if !self.names_register(0) || !self.names_register(1) || !self.names_register(2) {
            Err(Fault::RegisterOutOfRange)
        } else {
            let a = self.register_operand(0);
            let b = self.register_operand(1);
            match arithmetic_fault(opcode, a, b) {
                Some(fault) => Err(fault),
                None => {
                    let stored = self.store(2, arithmetic_value(opcode, a, b));
                    if opcode == Opcode::DIV {
                        Ok(
                            State {
                                remainder: unsigned(remainder(a as int, b as int)),
                                ..stored
                            },
                        )
                    } else {
                        Ok(stored)
                    }
                },
            }
        }
    }

    /// `EQ`, `NEQ`, `GT`, `LT`, `GTQ` and `LTQ`: two registers to compare; the third
    /// operand byte is padding and is passed over unread.
    pub open spec fn comparison(self) -> Result<State, Fault> {
        if !self.names_register(0) || !self.names_register(1) {
            Err(Fault::RegisterOutOfRange)
        } else {
            Ok(
                State {
                    equal_flag: comparison_holds(
                        self.opcode(),
                        self.register_operand(0),
                        self.register_operand(1),
                    ),
                    pc: self.next_pc(),
                    ..self
                },
            )
        }
    }

    /// `JMP`, `JMPF` and `JMPB`: one register, which holds the target or the distance.
    pub open spec fn jump(self) -> Result<State, Fault> {
        if !self.names_register(0) {
            Err(Fault::RegisterOutOfRange)
        } else {
            let target = jump_target(
                self.opcode(),
                self.next_pc() as int,
                self.register_operand(0),
            );
            if is_address(target) {
                Ok(State { pc: target as nat, ..self })
            } else {
                Err(Fault::JumpOutOfRange)
            }
        }
    }

    /// `JEQ`: one register, which holds the target; the jump is taken if the flag is set,
    /// and otherwise the program counter moves behind the instruction.
    pub open spec fn jump_if_equal(self) -> Result<State, Fault> {
        if !self.names_register(0) {
            Err(Fault::RegisterOutOfRange)
        } else if !self.equal_flag {
            Ok(State { pc: self.next_pc(), ..self })
        } else {
            let target = self.register_operand(0) as int;
            if is_address(target) {
                Ok(State { pc: target as nat, ..self })
            } else {
                Err(Fault::JumpOutOfRange)
            }
        }
    }

    /// What the instruction under the program counter does to the state, for an
    /// instruction that takes operands and lies whole inside the program.
    pub open spec fn execute(self) -> Result<State, Fault>
        recommends
            !self.at_end(),
            !self.truncated(),
    {
        let opcode = self.opcode();
        if opcode == Opcode::LOAD {
            self.load()
        } else if is_arithmetic(opcode) {
            self.arithmetic()
        } else if is_comparison(opcode) {
            self.comparison()
        } else if is_jump(opcode) {
            self.jump()
        } else {
            self.jump_if_equal()
        }
    }

    /// One cycle: the state that follows this one, and the signal.
    ///
    /// At the end of the program nothing is read. `HLT` and an illegal byte move the
    /// program counter past themselves and stop. Any other instruction must lie whole
    /// inside the program, name registers that exist, and be one the machine can carry
    /// out; where it is not, the state stays as it is.
    pub open spec fn step(self) -> (State, Signal) {
        if self.at_end() {
            (self, Signal::EndOfProgram)
        } else if self.opcode() == Opcode::HLT {
            (State { pc: self.pc + 1, ..self }, Signal::Halt)
        } else if self.opcode() == Opcode::IGL {
            (State { pc: self.pc + 1, ..self }, Signal::IllegalOpcode)
        } else if self.truncated() {
            (self, Signal::Fatal(Fault::TruncatedInstruction))
        } else {
            match self.execute() {
                Ok(next) => (next, Signal::Running),
                Err(fault) => (self, Signal::Fatal(fault)),
            }
        }
    }

    /// The state after `n` cycles.
    pub open spec fn after(self, n: nat) -> State
        decreases n,
    {
        if n == 0 {
            self
        } else {
            self.after((n - 1) as nat).step().0
        }
    }

    /// The signal of cycle number `n`, counted from zero.
    pub open spec fn signal_at(self, n: nat) -> Signal {
        self.after(n).step().1
    }

    /// Whether cycle number `n` is the first to stop.
    pub open spec fn stops_at(self, n: nat) -> bool {
        &&& self.signal_at(n).stops()
        &&& forall|i: nat| i < n ==> !(#[trigger] self.signal_at(i)).stops()
    }

    /// Whether some cycle stops.
    pub open spec fn halts(self) -> bool {
        exists|n: nat| self.stops_at(n)
    }

    /// The number of the first cycle that stops, for a state that halts.
    pub open spec fn last_cycle(self) -> nat
        recommends
            self.halts(),
    {
        choose|n: nat| self.stops_at(n)
    }
}

/// At most one cycle is the first to stop.
pub proof fn lemma_first_stop_is_unique(s: State, n: nat, m: nat)
    requires
        s.stops_at(n),
        s.stops_at(m),
    ensures
        n == m,
{
}

/// A state from which cycle number `n` is the first to stop halts, and `n` is its last
/// cycle.
pub proof fn lemma_halts_at(s: State, n: nat)
    requires
        s.stops_at(n),
    ensures
        s.halts(),
        s.last_cycle() == n,
{
    lemma_first_stop_is_unique(s, n, s.last_cycle());
}

/// Rounding toward zero keeps a quotient of register values inside a register, but for
/// the least value divided by -1; the remainder always fits.
pub proof fn lemma_division_in_range(a: i32, b: i32)
    requires
        b != 0,
    ensures
        (a == i32::MIN && b == -1) ==> quotient(a as int, b as int) == -(i32::MIN as int),
        !(a == i32::MIN && b == -1) ==> i32::MIN <= quotient(a as int, b as int) <= i32::MAX,
        i32::MIN < remainder(a as int, b as int) <= i32::MAX,
{
    let x: int = if a >= 0 {
        a as int
    } else {
        -(a as int)
    };
    let d: int = if b > 0 {
        b as int
    } else {
        -(b as int)
    };
    assert(0 <= x / d <= x && 0 <= x % d < d && (d >= 2 && x > 0 ==> x / d < x) && (d == 1
        ==> x / d == x)) by (nonlinear_arith)
        requires
            x >= 0,
            d >= 1,
    ;
}

} // verus!

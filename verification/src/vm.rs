//! The executable machine.
use crate::instruction::Opcode;
use crate::machine::{
    arithmetic_fault, arithmetic_value, is_address, is_arithmetic, is_comparison, is_jump,
    lemma_division_in_range, lemma_halts_at, quotient, remainder, unsigned, Fault, Signal,
    State, REGISTER_COUNT,
};
use vstd::prelude::*;

verus! {

/// A virtual machine: its registers, its program and where it stands in it.
#[derive(Debug, PartialEq, Eq)]
pub struct VM {
    /// The register file.
    pub registers: [i32; 32],
    /// The index in `program` of the next byte to decode.
    pub pc: usize,
    /// The instruction stream.
    pub program: Vec<u8>,
    /// The remainder of the latest division.
    pub remainder: u32,
    /// The result of the latest comparison.
    pub equal_flag: bool,
}

impl View for VM {
    type V = State;

    open spec fn view(&self) -> State {
        State {
            registers: self.registers@,
            pc: self.pc as nat,
            program: self.program@,
            remainder: self.remainder,
            equal_flag: self.equal_flag,
        }
    }
}

/// The sum, difference or product of `a` and `b`, wrapped into a register value.
fn wrapping(opcode: Opcode, a: i32, b: i32) -> (value: i32)
    requires
        opcode == Opcode::ADD || opcode == Opcode::SUB || opcode == Opcode::MUL,
    ensures
        value == arithmetic_value(opcode, a, b),
{
    match opcode {
        Opcode::ADD => a.wrapping_add(b),
        Opcode::SUB => a.wrapping_sub(b),
        _ => a.wrapping_mul(b),
    }
}

/// The quotient of `a` by `b`, rounded toward zero, and the remainder as an unsigned
/// number; or the fault, where the divisor is zero or the quotient does not fit.
fn divide(a: i32, b: i32) -> (result: Result<(i32, u32), Fault>)
    ensures
        result == match arithmetic_fault(Opcode::DIV, a, b) {
            Some(fault) => Err::<(i32, u32), Fault>(fault),
            None => Ok(
                (
                    quotient(a as int, b as int) as i32,
                    unsigned(remainder(a as int, b as int)),
                ),
            ),
        },
{
    if b == 0 {
        return Err(Fault::DivisionByZero);
    }
    proof {
        lemma_division_in_range(a, b);
    }
    match (a.checked_div(b), a.checked_rem(b)) {
        (Some(q), Some(r)) => {
            let bits = if r >= 0 {
                r as u32
            } else {
                (r as i64 + 0x1_0000_0000i64) as u32
            };
            Ok((q, bits))
        },
        _ => Err(Fault::DivisionOverflow),
    }
}

impl VM {
    /// The state of a machine is always well formed.
    pub proof fn lemma_view_is_well_formed(&self)
        ensures
            self@.wf(),
    {
        assert(self.program.len() <= usize::MAX);
    }

    /// A machine with every register at zero, no program, and the program counter at the
    /// start.
    pub fn new() -> (vm: VM)
        ensures
            vm@ == State::initial(),
            forall|i: int| 0 <= i < REGISTER_COUNT ==> vm.registers@[i] == 0,
            vm.pc == 0,
            vm.program@.len() == 0,
            vm.remainder == 0,
            !vm.equal_flag,
    {
        let vm = VM {
            registers: [0; 32],
            program: Vec::new(),
            pc: 0,
            remainder: 0,
            equal_flag: false,
        };
        assert(vm@.registers =~= State::initial().registers);
        vm
    }

    /// Appends one byte to the program. Nothing else changes.
    pub fn add_byte(&mut self, byte: u8)
        ensures
            final(self)@ == (State { program: old(self)@.program.push(byte), ..old(self)@ }),
    {
        self.program.push(byte);
    }

    /// Reads the opcode under the program counter and moves past it.
    fn decode_opcode(&mut self) -> (opcode: Opcode)
        requires
            old(self).pc < old(self).program.len(),
        ensures
            opcode == old(self)@.opcode(),
            final(self)@ == (State { pc: old(self)@.pc + 1, ..old(self)@ }),
    {
        let opcode = Opcode::from(self.program[self.pc]);
        self.pc += 1;
        opcode
    }

    /// Reads the byte under the program counter and moves past it.
    fn next_8_bits(&mut self) -> (byte: u8)
        requires
            old(self).pc < old(self).program.len(),
        ensures
            byte == old(self)@.program[old(self)@.pc as int],
            final(self)@ == (State { pc: old(self)@.pc + 1, ..old(self)@ }),
    {
        let result = self.program[self.pc];
        self.pc += 1;
        result
    }

    /// Reads the two bytes under the program counter as one number, the first byte being
    /// the high one, and moves past them.
    fn next_16_bits(&mut self) -> (value: u16)
        requires
            old(self).pc + 1 < old(self).program.len(),
        ensures
            value == old(self)@.program[old(self)@.pc as int] * 256 + old(self)@.program[old(
                self,
            )@.pc as int + 1],
            final(self)@ == (State { pc: old(self)@.pc + 2, ..old(self)@ }),
    {
        let high: u16 = self.program[self.pc] as u16;
        let low: u16 = self.program[self.pc + 1] as u16;
        self.pc += 2;
        high * 256 + low
    }

    /// Reads the operand byte under the program counter as the name of a register and
    /// moves past it. Gives the register's index, or nothing where there is no such
    /// register.
    fn next_register(&mut self) -> (index: Option<usize>)
        requires
            old(self).pc < old(self).program.len(),
        ensures
            final(self)@ == (State { pc: old(self)@.pc + 1, ..old(self)@ }),
            index == if old(self)@.program[old(self)@.pc as int] < REGISTER_COUNT {
                Some(old(self)@.program[old(self)@.pc as int] as usize)
            } else {
                None
            },
    {
        let byte = self.next_8_bits();
        if (byte as usize) < REGISTER_COUNT {
            Some(byte as usize)
        } else {
            None
        }
    }

    /// Puts the program counter back to `start`, where the instruction began, and reports
    /// `fault`.
    fn fail(&mut self, start: usize, fault: Fault) -> (signal: Signal)
        ensures
            final(self)@ == (State { pc: start as nat, ..old(self)@ }),
            signal == Signal::Fatal(fault),
    {
        self.pc = start;
        Signal::Fatal(fault)
    }

    /// Moves the program counter to `target`, if it can hold it.
    fn jump_to(&mut self, target: i128) -> (done: bool)
        ensures
            done == is_address(target as int),
            done ==> final(self)@ == (State { pc: target as nat, ..old(self)@ }),
            !done ==> final(self)@ == old(self)@,
    {
        if 0 <= target && target <= usize::MAX as i128 {
            self.pc = target as usize;
            true
        } else {
            false
        }
    }

    /// Whether an instruction with the operation `opcode` begins at `start`, lies whole
    /// inside the program, and the program counter stands at its first operand.
    spec fn decoded(&self, opcode: Opcode, start: usize) -> bool {
        &&& start < self.program.len()
        &&& self.pc == start + 1
        &&& opcode == Opcode::of_byte(self.program@[start as int])
        &&& start + 1 + opcode.operand_bytes() <= self.program.len()
    }

    /// The state of this machine with the program counter back at `start`.
    spec fn rewound(&self, start: usize) -> State {
        State { pc: start as nat, ..self@ }
    }

    /// Executes a `LOAD` whose opcode byte stood at `start`.
    fn execute_load(&mut self, start: usize) -> (signal: Signal)
        requires
            old(self).decoded(Opcode::LOAD, start),
        ensures
            final(self)@ == old(self).rewound(start).step().0,
            signal == old(self).rewound(start).step().1,
    {
        let register = self.next_register();
        let number = self.next_16_bits();
        match register {
            Some(dest) => {
                self.registers[dest] = number as i32;
                Signal::Running
            },
            None => self.fail(start, Fault::RegisterOutOfRange),
        }
    }

    /// Executes an `ADD`, `SUB`, `MUL` or `DIV` whose opcode byte stood at `start`.
    fn execute_arithmetic(&mut self, opcode: Opcode, start: usize) -> (signal: Signal)
        requires
            old(self).decoded(opcode, start),
            is_arithmetic(opcode),
        ensures
            final(self)@ == old(self).rewound(start).step().0,
            signal == old(self).rewound(start).step().1,
    {
        let register1 = self.next_register();
        let register2 = self.next_register();
        let register3 = self.next_register();
        match (register1, register2, register3) {
            (Some(source1), Some(source2), Some(dest)) => {
                let a = self.registers[source1];
                let b = self.registers[source2];
                match opcode {
                    Opcode::DIV => match divide(a, b) {
                        Ok((q, r)) => {
                            self.registers[dest] = q;
                            self.remainder = r;
                        },
                        Err(fault) => {
                            return self.fail(start, fault);
                        },
                    },
                    _ => {
                        self.registers[dest] = wrapping(opcode, a, b);
                    },
                }
                Signal::Running
            },
            _ => self.fail(start, Fault::RegisterOutOfRange),
        }
    }

    /// Executes a comparison whose opcode byte stood at `start`.
    fn execute_comparison(&mut self, opcode: Opcode, start: usize) -> (signal: Signal)
        requires
            old(self).decoded(opcode, start),
            is_comparison(opcode),
        ensures
            final(self)@ == old(self).rewound(start).step().0,
            signal == old(self).rewound(start).step().1,
    {
        let register1 = self.next_register();
        let register2 = self.next_register();
        self.next_8_bits();
        match (register1, register2) {
            (Some(left), Some(right)) => {
                let a = self.registers[left];
                let b = self.registers[right];
                self.equal_flag = match opcode {
                    Opcode::EQ => a == b,
                    Opcode::NEQ => a != b,
                    Opcode::GT => a > b,
                    Opcode::LT => a < b,
                    Opcode::GTQ => a >= b,
                    _ => a <= b,
                };
                Signal::Running
            },
            _ => self.fail(start, Fault::RegisterOutOfRange),
        }
    }

    /// Executes a `JMP`, `JMPF` or `JMPB` whose opcode byte stood at `start`.
    fn execute_jump(&mut self, opcode: Opcode, start: usize) -> (signal: Signal)
        requires
            old(self).decoded(opcode, start),
            is_jump(opcode),
        ensures
            final(self)@ == old(self).rewound(start).step().0,
            signal == old(self).rewound(start).step().1,
    {
        match self.next_register() {
            Some(register) => {
                let value = self.registers[register];
                let target = match opcode {
                    Opcode::JMPF => self.pc as i128 + value as i128,
                    Opcode::JMPB => self.pc as i128 - value as i128,
                    _ => value as i128,
                };
                if self.jump_to(target) {
                    Signal::Running
                } else {
                    self.fail(start, Fault::JumpOutOfRange)
                }
            },
            None => self.fail(start, Fault::RegisterOutOfRange),
        }
    }

    /// Executes a `JEQ` whose opcode byte stood at `start`.
    fn execute_jump_if_equal(&mut self, start: usize) -> (signal: Signal)
        requires
            old(self).decoded(Opcode::JEQ, start),
        ensures
            final(self)@ == old(self).rewound(start).step().0,
            signal == old(self).rewound(start).step().1,
    {
        match self.next_register() {
            Some(register) => {
                let target = self.registers[register];
                if !self.equal_flag || self.jump_to(target as i128) {
                    Signal::Running
                } else {
                    self.fail(start, Fault::JumpOutOfRange)
                }
            },
            None => self.fail(start, Fault::RegisterOutOfRange),
        }
    }

    /// Runs one cycle: decodes the instruction under the program counter and executes it.
    ///
    /// The machine ends in the state that the model's `step` gives, and the signal is the
    /// one it gives. In particular a cycle that reports a fault leaves the machine as it
    /// found it.
    pub fn execute_instruction(&mut self) -> (signal: Signal)
        ensures
            final(self)@ == old(self)@.step().0,
            signal == old(self)@.step().1,
    {
        if self.pc >= self.program.len() {
            return Signal::EndOfProgram;
        }
        let start = self.pc;
        let opcode = self.decode_opcode();
        if self.program.len() - self.pc < opcode.operand_width() {
            return self.fail(start, Fault::TruncatedInstruction);
        }
        match opcode {
            Opcode::HLT => Signal::Halt,
            Opcode::LOAD => self.execute_load(start),
            Opcode::ADD | Opcode::SUB | Opcode::MUL | Opcode::DIV => self.execute_arithmetic(
                opcode,
                start,
            ),
            Opcode::JMP | Opcode::JMPF | Opcode::JMPB => self.execute_jump(opcode, start),
            Opcode::EQ | Opcode::NEQ | Opcode::GT | Opcode::LT | Opcode::GTQ | Opcode::LTQ => {
                self.execute_comparison(opcode, start)
            },
            Opcode::JEQ => self.execute_jump_if_equal(start),
            Opcode::IGL => Signal::IllegalOpcode,
        }
    }

    /// Runs one cycle, as [`VM::execute_instruction`] does.
    pub fn run_once(&mut self) -> (signal: Signal)
        ensures
            final(self)@ == old(self)@.step().0,
            signal == old(self)@.step().1,
    {
        self.execute_instruction()
    }

    /// Runs cycle after cycle until one stops, and gives the signal of that last cycle.
    ///
    /// The machine ends in the state that as many single cycles lead to: one more than
    /// the number of the first cycle that stops. A program that never stops would keep
    /// this function from returning, so the caller must know that the machine halts.
    pub fn run(&mut self) -> (signal: Signal)
        requires
            old(self)@.halts(),
        ensures
            signal.stops(),
            signal == old(self)@.signal_at(old(self)@.last_cycle()),
            final(self)@ == old(self)@.after(old(self)@.last_cycle() + 1),
    {
        let ghost start = self@;
        let ghost mut cycles: nat = 0;
        let mut signal = Signal::Running;
        while !signal.is_halted()
            invariant
                start.halts(),
                self@ == start.after(cycles),
                cycles == 0 ==> signal == Signal::Running,
                cycles > 0 ==> signal == start.signal_at((cycles - 1) as nat),
                forall|i: nat| i + 1 < cycles ==> !(#[trigger] start.signal_at(i)).stops(),
                cycles <= start.last_cycle() + 1,
            decreases start.last_cycle() + 1 - cycles,
        {
            signal = self.execute_instruction();
            proof {
                cycles = cycles + 1;
            }
        }
        proof {
            lemma_halts_at(start, (cycles - 1) as nat);
        }
        signal
    }
}

} // verus!

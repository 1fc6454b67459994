//! The interactive front end, without its console.
//!
//! A front end reads a line, hands it to [`REPL::execute_line`], and shows what the reply
//! asks for. A line is either one of four commands or code: bytes in base sixteen, which
//! are appended to the program, and after which the machine runs one cycle.
use crate::hex::{parse_hex_bytes, read_line, HexError};
use crate::machine::{Signal, State};
use crate::text::{same_text, trim, trimmed};
use crate::vm::VM;
use vstd::prelude::*;
use vstd::string::StringSliceAdditionalSpecFns;
use vstd::utf8::encode_utf8;

verus! {

/// What a line asked for, and what became of it.
#[derive(Clone, Copy, Debug, PartialEq, Eq)]
pub enum Reply {
    /// `.quit`: the session is to end.
    Quit,
    /// `.history`: the lines entered so far are to be shown.
    History,
    /// `.program`: the bytes of the program are to be shown.
    Program,
    /// `.registers`: the registers are to be shown.
    Registers,
    /// The line was taken as code. `error` says why it was none, where it was none, and
    /// `signal` is what the cycle reported that followed in either case.
    Executed { error: Option<HexError>, signal: Signal },
}

/// What a line does to a machine in the state `vm`, and the reply to it. A command leaves
/// the machine alone. Any other line is read as code: its bytes, if it denotes any, go to
/// the end of the program, and then one cycle runs.
pub open spec fn respond(vm: State, line: Seq<char>) -> (State, Reply) {
    if line == ".quit"@ {
        (vm, Reply::Quit)
    } else if line == ".history"@ {
        (vm, Reply::History)
    } else if line == ".program"@ {
        (vm, Reply::Program)
    } else if line == ".registers"@ {
        (vm, Reply::Registers)
    } else {
        let code = read_line(encode_utf8(line));
        let loaded = match code {
            Ok(bytes) => State { program: vm.program + bytes, ..vm },
            Err(_) => vm,
        };
        let error = match code {
            Ok(_) => None,
            Err(error) => Some(error),
        };
        (loaded.step().0, Reply::Executed { error, signal: loaded.step().1 })
    }
}

/// A session: the lines entered so far, and the machine they drive.
pub struct REPL {
    /// Every line entered, oldest first, without the white space around it.
    pub command_buffer: Vec<String>,
    /// The machine.
    pub vm: VM,
}

impl REPL {
    /// The lines entered so far, as text.
    pub open spec fn history(&self) -> Seq<Seq<char>> {
        self.command_buffer@.map_values(|line: String| line@)
    }

    /// A session with no line entered and a fresh machine.
    pub fn new() -> (repl: REPL)
        ensures
            repl.command_buffer@ == Seq::<String>::empty(),
            repl.history() == Seq::<Seq<char>>::empty(),
            repl.vm@ == State::initial(),
    {
        let repl = REPL { vm: VM::new(), command_buffer: Vec::new() };
        repl
    }

    /// Reads `i` as bytes in base sixteen with single spaces between them. The session
    /// stays as it is.
    pub fn parse_hex(&mut self, i: &str) -> (result: Result<Vec<u8>, HexError>)
        ensures
            *final(self) == *old(self),
            result is Ok <==> read_line(i.spec_bytes()) is Ok,
            result matches Ok(bytes) ==> read_line(i.spec_bytes()) == Ok::<Seq<u8>, HexError>(
                bytes@,
            ),
            result matches Err(error) ==> read_line(i.spec_bytes()) == Err::<
                Seq<u8>,
                HexError,
            >(error),
    {
        parse_hex_bytes(i.as_bytes())
    }

    /// Takes one line of input: strips the white space around it, remembers it, and does
    /// what it asks for.
    pub fn execute_line(&mut self, input: &str) -> (reply: Reply)
        ensures
            final(self).history() == old(self).history().push(trimmed(input@)),
            final(self).vm@ == respond(old(self).vm@, trimmed(input@)).0,
            reply == respond(old(self).vm@, trimmed(input@)).1,
    {
        let line = trim(input);
        self.command_buffer.push(line.to_owned());
        if same_text(line, ".quit") {
            Reply::Quit
        } else if same_text(line, ".history") {
            Reply::History
        } else if same_text(line, ".program") {
            Reply::Program
        } else if same_text(line, ".registers") {
            Reply::Registers
        } else {
            let ghost before = self.vm@;
            let ghost lines = self.history();
            let error = match self.parse_hex(line) {
                Ok(bytes) => {
                    let mut i: usize = 0;
                    while i < bytes.len()
                        invariant
                            i <= bytes@.len(),
                            self.history() == lines,
                            self.vm@ == (State {
                                program: before.program + bytes@.take(i as int),
                                ..before
                            }),
                        decreases bytes@.len() - i,
                    {
                        assert((before.program + bytes@.take(i as int)).push(bytes@[i as int])
                            =~= before.program + bytes@.take(i + 1));
                        self.vm.add_byte(bytes[i]);
                        i += 1;
                    }
                    assert(bytes@.take(i as int) =~= bytes@);
                    None
                },
                Err(error) => Some(error),
            };
            let signal = self.vm.run_once();
            Reply::Executed { error, signal }
        }
    }
}

} // verus!

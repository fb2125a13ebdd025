use vstd::prelude::*;

verus! {

/// Why the execution of an instruction was refused. The machine's state is
/// left as it was.
#[derive(Clone, Copy, Debug, PartialEq, Eq, Structural)]
pub enum ExecError {
    /// The instruction word matches no instruction of the machine.
    UnknownOpcode { opcode: u16 },
    /// A return was executed while the call stack was empty.
    StackUnderflow,
}

/// Why a program image could not be brought into memory.
#[derive(Clone, Copy, Debug, PartialEq, Eq, Structural)]
pub enum LoadError {
    /// The program file could not be opened.
    OpenFailed,
    /// The program file could not be read to its end.
    ReadFailed,
    /// The image has more bytes than fit between the load address and the
    /// end of memory.
    TooLarge,
}

impl LoadError {
    /// The text under which the error is reported to the user.
    pub fn message(&self) -> (text: &'static str)
        ensures
            text@ == (match *self {
                LoadError::OpenFailed => "[Error] Unable to open the given ROM file !"@,
                LoadError::ReadFailed => "[Error] Unable to read the given ROM file !"@,
                LoadError::TooLarge => "[Error] The ROM file given is too big to fit into memory !"@,
            }),
    {
        match self {
            LoadError::OpenFailed => "[Error] Unable to open the given ROM file !",
            LoadError::ReadFailed => "[Error] Unable to read the given ROM file !",
            LoadError::TooLarge => "[Error] The ROM file given is too big to fit into memory !",
        }
    }
}

} // verus!

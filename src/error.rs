use vstd::prelude::*;

verus! {

/// `std::io::Error` is carried through as an opaque value: the library never looks
/// inside it, it only hands back the cause of a failed read of a program image.
#[verifier::external_type_specification]
#[verifier::external_body]
pub struct ExIoError(std::io::Error);

/// Every way in which loading or running a program can fail.
#[derive(Debug)]
pub enum Error {
    /// A return (`00EE`) ran with an empty call stack; `address` is that of the return.
    CallStackUnderflow { address: usize },
    /// An instruction could not be fetched: the byte at `pc` lies outside memory.
    InvalidProgramCounter { pc: usize },
    /// The program image could not be read.
    Io { source: std::io::Error },
    /// The instruction `instruction` at `pc` matches no pattern of its family.
    NotWellFormedInstruction { instruction: u16, pc: usize },
    /// The instruction `instruction` at `address` belongs to a family with no such
    /// operation.
    UnsupportedInstruction { instruction: u16, address: usize },
    /// The program image of `len` bytes does not fit the program space.
    ProgramTooLarge { len: usize },
}

} // verus!

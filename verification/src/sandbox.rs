//! A strict seccomp program given as raw BPF instructions: the instructions
//! and the header that the kernel reads. Installing it takes two `prctl`
//! calls, made by the caller.

use vstd::prelude::*;

verus! {

/// One instruction of a classic BPF program, laid out as the kernel's
/// `struct sock_filter`: an opcode, the two jump offsets, and an operand.
#[derive(Clone, Copy, Debug, PartialEq, Eq, Structural)]
pub struct BpfInstruction {
    /// The opcode.
    pub code: u16,
    /// The jump offset when the test holds.
    pub jt: u8,
    /// The jump offset when the test fails.
    pub jf: u8,
    /// The operand.
    pub k: u32,
}

/// A sandbox that confines the calling thread with a strict seccomp program.
#[derive(Clone, Copy, Debug)]
pub struct ProcjailSandbox;

impl ProcjailSandbox {
    /// The length that the program header (`struct sock_fprog`) records for
    /// `filters`: the number of instructions, when it fits in the 16 bits of
    /// the header's `len` field; none for a longer program, which is refused
    /// rather than cut short.
    pub fn program_len(filters: &[BpfInstruction]) -> (r: Option<u16>)
        ensures
            filters@.len() <= u16::MAX ==> r == Some(filters@.len() as u16),
            filters@.len() > u16::MAX ==> r is None,
    {
        let n: usize = filters.len();
        if n <= 65535 {
            Some(n as u16)
        } else {
            None
        }
    }
}

} // verus!

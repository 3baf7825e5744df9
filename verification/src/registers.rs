//! The CPU registers that can be read at a probe site.

use vstd::prelude::*;

verus! {

/// A general-purpose register of an x86-64 CPU, or the instruction pointer.
#[derive(Clone, Copy, Debug, PartialEq, Eq, Structural)]
pub enum Register {
    Rax,
    Rbx,
    Rcx,
    Rdx,
    Rsi,
    Rdi,
    Rbp,
    Rsp,
    R8,
    R9,
    R10,
    R11,
    R12,
    R13,
    R14,
    R15,
    Rip,
}

/// The values of all registers at one hit of a probe.
#[derive(Clone, Copy, Debug, PartialEq, Eq, Structural)]
pub struct RegisterSnapshot {
    pub rax: u64,
    pub rbx: u64,
    pub rcx: u64,
    pub rdx: u64,
    pub rsi: u64,
    pub rdi: u64,
    pub rbp: u64,
    pub rsp: u64,
    pub r8: u64,
    pub r9: u64,
    pub r10: u64,
    pub r11: u64,
    pub r12: u64,
    pub r13: u64,
    pub r14: u64,
    pub r15: u64,
    pub rip: u64,
}

impl Register {
    /// The value that this register has in `ctx`.
    pub open spec fn value_in(self, ctx: RegisterSnapshot) -> u64 {
        match self {
            Register::Rax => ctx.rax,
            Register::Rbx => ctx.rbx,
            Register::Rcx => ctx.rcx,
            Register::Rdx => ctx.rdx,
            Register::Rsi => ctx.rsi,
            Register::Rdi => ctx.rdi,
            Register::Rbp => ctx.rbp,
            Register::Rsp => ctx.rsp,
            Register::R8 => ctx.r8,
            Register::R9 => ctx.r9,
            Register::R10 => ctx.r10,
            Register::R11 => ctx.r11,
            Register::R12 => ctx.r12,
            Register::R13 => ctx.r13,
            Register::R14 => ctx.r14,
            Register::R15 => ctx.r15,
            Register::Rip => ctx.rip,
        }
    }

    /// Reads this register out of a snapshot.
    pub fn to_value(&self, ctx: &RegisterSnapshot) -> (value: u64)
        ensures
            value == self.value_in(*ctx),
    {
        match self {
            Register::Rax => ctx.rax,
            Register::Rbx => ctx.rbx,
            Register::Rcx => ctx.rcx,
            Register::Rdx => ctx.rdx,
            Register::Rsi => ctx.rsi,
            Register::Rdi => ctx.rdi,
            Register::Rbp => ctx.rbp,
            Register::Rsp => ctx.rsp,
            Register::R8 => ctx.r8,
            Register::R9 => ctx.r9,
            Register::R10 => ctx.r10,
            Register::R11 => ctx.r11,
            Register::R12 => ctx.r12,
            Register::R13 => ctx.r13,
            Register::R14 => ctx.r14,
            Register::R15 => ctx.r15,
            Register::Rip => ctx.rip,
        }
    }
}

/// The address that a register value stands for on this machine.
pub open spec fn as_address(value: u64) -> usize {
    value as usize
}

/// Turns a register value into an address, keeping the low bits where the
/// machine's addresses are narrower than a register.
pub fn to_address(value: u64) -> (address: usize)
    ensures
        address == as_address(value),
        value <= usize::MAX ==> address == value,
{
    #[verifier::truncate]
    (value as usize)
}

} // verus!

//! Trap and exception definitions visible at the ISA boundary.

use vstd::prelude::*;

verus! {

/// Interrupt causes modeled by the privileged CPU slice.
#[derive(Debug, Clone, Copy, PartialEq, Eq, Structural)]
pub enum Interrupt {
    SupervisorSoftware,
    MachineSoftware,
    SupervisorTimer,
    MachineTimer,
    SupervisorExternal,
    MachineExternal,
}

/// The standard `mcause`/`scause` code of an interrupt.
pub open spec fn interrupt_code(interrupt: Interrupt) -> u32 {
    match interrupt {
        Interrupt::SupervisorSoftware => 1,
        Interrupt::MachineSoftware => 3,
        Interrupt::SupervisorTimer => 5,
        Interrupt::MachineTimer => 7,
        Interrupt::SupervisorExternal => 9,
        Interrupt::MachineExternal => 11,
    }
}

/// Whether the interrupt belongs to the supervisor level.
pub open spec fn interrupt_is_supervisor(interrupt: Interrupt) -> bool {
    matches!(interrupt, Interrupt::SupervisorSoftware | Interrupt::SupervisorTimer | Interrupt::SupervisorExternal)
}

impl Interrupt {
    /// The interrupt's cause code.
    pub fn cause_code(self) -> (code: u32)
        ensures
            code == interrupt_code(self),
    {
        match self {
            Interrupt::SupervisorSoftware => 1,
            Interrupt::MachineSoftware => 3,
            Interrupt::SupervisorTimer => 5,
            Interrupt::MachineTimer => 7,
            Interrupt::SupervisorExternal => 9,
            Interrupt::MachineExternal => 11,
        }
    }

    /// Whether the interrupt is a supervisor-level interrupt.
    pub fn is_supervisor(self) -> (s: bool)
        ensures
            s == interrupt_is_supervisor(self),
    {
        matches!(self, Interrupt::SupervisorSoftware | Interrupt::SupervisorTimer | Interrupt::SupervisorExternal)
    }
}

/// Synchronous exception causes raised by the RV32I cores.
#[derive(Debug, Clone, Copy, PartialEq, Eq, Structural)]
pub enum Exception {
    InstructionAddressMisaligned { addr: u32 },
    InstructionAccessFault { addr: u32 },
    InstructionPageFault { addr: u32 },
    IllegalInstruction { instruction: u32 },
    Breakpoint,
    LoadAddressMisaligned { addr: u32 },
    LoadAccessFault { addr: u32 },
    LoadPageFault { addr: u32 },
    StoreAddressMisaligned { addr: u32 },
    StoreAccessFault { addr: u32 },
    StorePageFault { addr: u32 },
    EnvironmentCallFromUMode,
    EnvironmentCallFromSMode,
    EnvironmentCallFromMMode,
}

/// A trap is either a synchronous exception or an asynchronous interrupt.
#[derive(Debug, Clone, Copy, PartialEq, Eq, Structural)]
pub enum Trap {
    Exception(Exception),
    Interrupt(Interrupt),
}

/// The standard cause code of a trap (without the interrupt bit).
pub open spec fn trap_code(trap: Trap) -> u32 {
    match trap {
        Trap::Interrupt(i) => interrupt_code(i),
        Trap::Exception(e) => match e {
            Exception::InstructionAddressMisaligned { .. } => 0,
            Exception::InstructionAccessFault { .. } => 1,
            Exception::IllegalInstruction { .. } => 2,
            Exception::Breakpoint => 3,
            Exception::LoadAddressMisaligned { .. } => 4,
            Exception::LoadAccessFault { .. } => 5,
            Exception::StoreAddressMisaligned { .. } => 6,
            Exception::StoreAccessFault { .. } => 7,
            Exception::EnvironmentCallFromUMode => 8,
            Exception::EnvironmentCallFromSMode => 9,
            Exception::EnvironmentCallFromMMode => 11,
            Exception::InstructionPageFault { .. } => 12,
            Exception::LoadPageFault { .. } => 13,
            Exception::StorePageFault { .. } => 15,
        },
    }
}

/// The trap value recorded in `mtval`/`stval`: the faulting address, the
/// illegal instruction word, or zero.
pub open spec fn trap_value(trap: Trap) -> u32 {
    match trap {
        Trap::Exception(e) => match e {
            Exception::InstructionAddressMisaligned { addr } => addr,
            Exception::InstructionAccessFault { addr } => addr,
            Exception::InstructionPageFault { addr } => addr,
            Exception::IllegalInstruction { instruction } => instruction,
            Exception::LoadAddressMisaligned { addr } => addr,
            Exception::LoadAccessFault { addr } => addr,
            Exception::LoadPageFault { addr } => addr,
            Exception::StoreAddressMisaligned { addr } => addr,
            Exception::StoreAccessFault { addr } => addr,
            Exception::StorePageFault { addr } => addr,
            _ => 0,
        },
        Trap::Interrupt(_) => 0,
    }
}

/// The full cause register value: the code, with bit 31 set for interrupts.
pub open spec fn trap_cause_bits(trap: Trap) -> u32 {
    if trap is Interrupt {
        (trap_code(trap) + 0x8000_0000) as u32
    } else {
        trap_code(trap)
    }
}

impl Trap {
    /// Whether the trap is an interrupt.
    pub fn is_interrupt(self) -> (b: bool)
        ensures
            b == (self is Interrupt),
    {
        matches!(self, Trap::Interrupt(_))
    }

    /// The trap's cause code.
    pub fn cause_code(self) -> (code: u32)
        ensures
            code == trap_code(self),
            code < 16,
    {
        match self {
            Trap::Interrupt(interrupt) => interrupt.cause_code(),
            Trap::Exception(Exception::InstructionAddressMisaligned { .. }) => 0,
            Trap::Exception(Exception::InstructionAccessFault { .. }) => 1,
            Trap::Exception(Exception::IllegalInstruction { .. }) => 2,
            Trap::Exception(Exception::Breakpoint) => 3,
            Trap::Exception(Exception::LoadAddressMisaligned { .. }) => 4,
            Trap::Exception(Exception::LoadAccessFault { .. }) => 5,
            Trap::Exception(Exception::StoreAddressMisaligned { .. }) => 6,
            Trap::Exception(Exception::StoreAccessFault { .. }) => 7,
            Trap::Exception(Exception::EnvironmentCallFromUMode) => 8,
            Trap::Exception(Exception::EnvironmentCallFromSMode) => 9,
            Trap::Exception(Exception::EnvironmentCallFromMMode) => 11,
            Trap::Exception(Exception::InstructionPageFault { .. }) => 12,
            Trap::Exception(Exception::LoadPageFault { .. }) => 13,
            Trap::Exception(Exception::StorePageFault { .. }) => 15,
        }
    }

    /// The cause register value, with bit 31 marking interrupts.
    pub fn cause_bits(self) -> (bits: u32)
        ensures
            bits == trap_cause_bits(self),
    {
        let code = self.cause_code();
        if self.is_interrupt() {
            code + 0x8000_0000
        } else {
            code
        }
    }

    /// The trap value written to `mtval`/`stval`.
    pub fn tval(self) -> (v: u32)
        ensures
            v == trap_value(self),
    {
        match self {
            Trap::Exception(Exception::InstructionAddressMisaligned { addr }) => addr,
            Trap::Exception(Exception::InstructionAccessFault { addr }) => addr,
            Trap::Exception(Exception::InstructionPageFault { addr }) => addr,
            Trap::Exception(Exception::IllegalInstruction { instruction }) => instruction,
            Trap::Exception(Exception::LoadAddressMisaligned { addr }) => addr,
            Trap::Exception(Exception::LoadAccessFault { addr }) => addr,
            Trap::Exception(Exception::LoadPageFault { addr }) => addr,
            Trap::Exception(Exception::StoreAddressMisaligned { addr }) => addr,
            Trap::Exception(Exception::StoreAccessFault { addr }) => addr,
            Trap::Exception(Exception::StorePageFault { addr }) => addr,
            _ => 0,
        }
    }
}

} // verus!

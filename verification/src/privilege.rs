//! Privilege modes of the hart.

use vstd::prelude::*;

verus! {

/// Privilege modes supported by the privileged CPU slice.
#[derive(Debug, Clone, Copy, PartialEq, Eq, Structural)]
pub enum PrivilegeMode {
    User,
    Supervisor,
    Machine,
}

/// The two-bit privilege level: 0 user, 1 supervisor, 3 machine.
pub open spec fn privilege_level(p: PrivilegeMode) -> u8 {
    match p {
        PrivilegeMode::User => 0,
        PrivilegeMode::Supervisor => 1,
        PrivilegeMode::Machine => 3,
    }
}

impl PrivilegeMode {
    /// The level compared against a CSR's minimum privilege.
    pub fn csr_level(self) -> (l: u8)
        ensures
            l == privilege_level(self),
    {
        match self {
            PrivilegeMode::User => 0,
            PrivilegeMode::Supervisor => 1,
            PrivilegeMode::Machine => 3,
        }
    }
}

impl Default for PrivilegeMode {
    fn default() -> (p: Self)
        ensures
            p == PrivilegeMode::Machine,
    {
        PrivilegeMode::Machine
    }
}

} // verus!

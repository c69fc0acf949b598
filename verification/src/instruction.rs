//! The instruction tags of the on-chain interface, with their wire encoding.

use vstd::prelude::*;

verus! {

/// The instructions the program dispatches on.
#[derive(Clone, Copy, Debug, PartialEq, Eq, Structural)]
pub enum CertoraVaultInstruction {
    CreateVault,
    Deposit,
    DepositWithFee,
}

impl CertoraVaultInstruction {
    /// The wire tag of each instruction.
    pub open spec fn spec_tag(self) -> u8 {
        match self {
            CertoraVaultInstruction::CreateVault => 0,
            CertoraVaultInstruction::Deposit => 1,
            CertoraVaultInstruction::DepositWithFee => 2,
        }
    }

    /// Encodes the instruction as its wire tag.
    pub fn as_u8(self) -> (r: u8)
        ensures
            r == self.spec_tag(),
    {
        match self {
            CertoraVaultInstruction::CreateVault => 0,
            CertoraVaultInstruction::Deposit => 1,
            CertoraVaultInstruction::DepositWithFee => 2,
        }
    }

    /// Decodes a wire tag; exactly the tags 0 through 2 are valid.
    pub fn from_u8(value: u8) -> (r: Option<CertoraVaultInstruction>)
        ensures
            match r {
                Some(instr) => instr.spec_tag() == value,
                None => value > 2,
            },
    {
        if value == 0 {
            Some(CertoraVaultInstruction::CreateVault)
        } else if value == 1 {
            Some(CertoraVaultInstruction::Deposit)
        } else if value == 2 {
            Some(CertoraVaultInstruction::DepositWithFee)
        } else {
            None
        }
    }
}

} // verus!

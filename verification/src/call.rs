//! The calls an operation issues: the forwarded instruction and the skim
//! transfers, held as plain values until a host performs them.

use vstd::prelude::*;
use crate::account::{AccountMeta, Pubkey};

verus! {

/// A fully built call to an external program: its address, the ordered
/// account references handed to it, and the encoded instruction data.
#[derive(Clone, Debug)]
pub struct Instruction {
    pub program_id: Pubkey,
    pub accounts: Vec<AccountMeta>,
    pub data: Vec<u8>,
}

/// One skim transfer: move `amount` tokens from `source` to `destination`,
/// authorized by `authority`, through the token program.
#[derive(Clone, Copy, Debug, PartialEq, Eq)]
pub struct SkimCall {
    pub token_program: Pubkey,
    pub source: Pubkey,
    pub destination: Pubkey,
    pub authority: Pubkey,
    pub amount: u64,
}

/// Everything one operation will issue: the forward call, then the skim
/// transfers, in order.
#[derive(Clone, Debug)]
pub struct Plan {
    pub forward: Instruction,
    pub skims: Vec<SkimCall>,
}

/// Field-by-field equality of two built instructions, comparing the vectors
/// by contents.
pub open spec fn instr_eq(a: Instruction, b: Instruction) -> bool {
    &&& a.program_id == b.program_id
    &&& a.accounts@ == b.accounts@
    &&& a.data@ == b.data@
}

impl Instruction {
    /// An exact copy of this instruction.
    pub fn duplicate(&self) -> (r: Instruction)
        ensures
            instr_eq(r, *self),
    {
        let mut accounts: Vec<AccountMeta> = Vec::new();
        let mut i: usize = 0;
        while i < self.accounts.len()
            invariant
                i <= self.accounts.len(),
                accounts@ == self.accounts@.subrange(0, i as int),
            decreases self.accounts.len() - i,
        {
            accounts.push(self.accounts[i]);
            i = i + 1;
            proof {
                assert(accounts@ =~= self.accounts@.subrange(0, i as int));
            }
        }
        let mut data: Vec<u8> = Vec::new();
        let mut j: usize = 0;
        while j < self.data.len()
            invariant
                j <= self.data.len(),
                data@ == self.data@.subrange(0, j as int),
            decreases self.data.len() - j,
        {
            data.push(self.data[j]);
            j = j + 1;
            proof {
                assert(data@ =~= self.data@.subrange(0, j as int));
            }
        }
        proof {
            assert(accounts@ =~= self.accounts@);
            assert(data@ =~= self.data@);
        }
        Instruction { program_id: self.program_id, accounts, data }
    }
}

} // verus!

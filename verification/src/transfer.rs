//! Transfers: the value movements that an operation asks the ledger to make,
//! who authorises each, and the instruction that carries one to the ledger.

use vstd::prelude::*;
use vstd::bytes::spec_u64_to_le_bytes;
use crate::address::{derive_address, pair_address, Role};
use crate::errors::EscrowError;
use crate::identity::Identity;

verus! {

/// How much a transfer moves.
#[derive(Clone, Copy, Debug, PartialEq, Eq, Structural)]
pub enum Amount {
    /// This many units.
    Exact(u64),
    /// Everything that the source holds when the transfer runs.
    Balance,
}

impl Amount {
    /// The units moved from a source that holds `balance`.
    pub open spec fn resolve(self, balance: nat) -> nat {
        match self {
            Amount::Exact(units) => units as nat,
            Amount::Balance => balance,
        }
    }

    /// The units moved from a source that holds `balance`.
    pub fn units(&self, balance: u64) -> (units: u64)
        ensures
            units == self.resolve(balance as nat),
    {
        match self {
            Amount::Exact(units) => *units,
            Amount::Balance => balance,
        }
    }
}

/// The seeds that prove a derived address to be the program's own: the
/// capability under which the escrow moves funds out of a vault.
#[derive(Clone, Copy, Debug, PartialEq, Eq)]
pub struct SignerSeeds {
    pub role: Role,
    pub sender: Identity,
    pub receiver: Identity,
    pub bump: u8,
}

impl SignerSeeds {
    /// The byte strings handed to the ledger: the role's label, the two
    /// principals, and the bump seed.
    pub open spec fn spec_seeds(self) -> Seq<Seq<u8>> {
        seq![self.role.label(), self.sender@, self.receiver@, seq![self.bump]]
    }

    /// Whether the seeds are the ones of `address`, given what the
    /// derivation found for them: the address itself, with the same bump seed.
    pub open spec fn proves_given(self, found: Option<(Identity, u8)>, address: Identity) -> bool {
        found == Some((address, self.bump))
    }

    /// Whether the seeds prove `address` under the given program.
    pub open spec fn proves(self, address: Identity, program_id: Identity) -> bool {
        self.proves_given(pair_address(self.role, self.sender, self.receiver, program_id), address)
    }

    /// The byte strings handed to the ledger.
    pub fn seeds(&self) -> (seeds: Vec<Vec<u8>>)
        ensures
            seeds.deep_view() == self.spec_seeds(),
    {
        let mut seeds: Vec<Vec<u8>> = Vec::new();
        seeds.push(self.role.label_bytes());
        seeds.push(self.sender.to_vec());
        seeds.push(self.receiver.to_vec());
        let mut bump: Vec<u8> = Vec::new();
        bump.push(self.bump);
        seeds.push(bump);
        proof {
            assert(seeds.deep_view() =~~= self.spec_seeds());
        }
        seeds
    }

    /// Decides whether the seeds are the ones of `address`, given what the
    /// derivation found for them.
    pub fn matches_found(&self, found: Option<(Identity, u8)>, address: &Identity) -> (holds: bool)
        ensures
            holds == self.proves_given(found, *address),
    {
        match found {
            Some((derived, bump)) => derived == *address && bump == self.bump,
            None => false,
        }
    }

    /// Decides whether the seeds prove `address` under the given program.
    pub fn check(&self, address: &Identity, program_id: &Identity) -> (holds: bool)
        ensures
            holds == self.proves(*address, *program_id),
    {
        let found = derive_address(self.role, &self.sender, &self.receiver, program_id);
        self.matches_found(found, address)
    }
}

/// One value movement between two addresses.
#[derive(Clone, Copy, Debug, PartialEq, Eq)]
pub struct Transfer {
    pub from: Identity,
    pub to: Identity,
    pub amount: Amount,
    /// The capability that stands in for the signature of a derived source.
    pub seeds: Option<SignerSeeds>,
}

/// The balances after `lamports` have moved from one address to another.
pub open spec fn moved(balances: Map<Identity, nat>, from: Identity, to: Identity, lamports: nat) -> Map<
    Identity,
    nat,
> {
    let debited = balances.insert(from, (balances[from] - lamports) as nat);
    debited.insert(to, debited[to] + lamports)
}

impl Transfer {
    /// The source has signed, or the seeds prove it to be the program's own.
    pub open spec fn authorized(self, signer: Identity, program_id: Identity) -> bool {
        self.from == signer || match self.seeds {
            Some(seeds) => seeds.proves(self.from, program_id),
            None => false,
        }
    }

    /// What the transfer does to the balances: it fails without a valid
    /// authorisation and where the source holds too little, and moves the
    /// funds otherwise.
    pub open spec fn outcome(self, balances: Map<Identity, nat>, signer: Identity, program_id: Identity) -> Result<
        Map<Identity, nat>,
        EscrowError,
    > {
        let lamports = self.amount.resolve(balances[self.from]);
        if !self.authorized(signer, program_id) {
            Err(EscrowError::MissingRequiredSignature)
        } else if balances[self.from] < lamports {
            Err(EscrowError::InsufficientFunds)
        } else {
            Ok(moved(balances, self.from, self.to, lamports))
        }
    }

    /// Decides whether the source has signed or is proved by the seeds.
    pub fn is_authorized(&self, signer: &Identity, program_id: &Identity) -> (holds: bool)
        ensures
            holds == self.authorized(*signer, *program_id),
    {
        if self.from == *signer {
            return true;
        }
        match &self.seeds {
            Some(seeds) => seeds.check(&self.from, program_id),
            None => false,
        }
    }

    /// The instruction that asks the ledger for this transfer, from a source
    /// that holds `balance`.
    pub fn instruction(&self, balance: u64) -> (ix: Instruction)
        ensures
            ix@ == transfer_instruction(self.from, self.to, self.amount.resolve(balance as nat) as u64),
    {
        system_transfer(&self.from, &self.to, self.amount.units(balance))
    }
}

/// What a sequence of transfers does to the balances: each runs on what the
/// one before it left, and the first failure is the failure of the whole.
pub open spec fn plan_outcome(
    balances: Map<Identity, nat>,
    plan: Seq<Transfer>,
    signer: Identity,
    program_id: Identity,
) -> Result<Map<Identity, nat>, EscrowError>
    decreases plan.len(),
{
    if plan.len() == 0 {
        Ok(balances)
    } else {
        match plan[0].outcome(balances, signer, program_id) {
            Ok(next) => plan_outcome(next, plan.drop_first(), signer, program_id),
            Err(e) => Err(e),
        }
    }
}

/// An address named by an instruction, and how the instruction uses it.
#[derive(Clone, Copy, Debug, PartialEq, Eq)]
pub struct AccountMeta {
    pub pubkey: Identity,
    pub is_signer: bool,
    pub is_writable: bool,
}

/// A request to a program of the ledger.
#[derive(Debug, PartialEq, Eq)]
pub struct Instruction {
    pub program_id: Identity,
    pub accounts: Vec<AccountMeta>,
    pub data: Vec<u8>,
}

/// An instruction as a value.
pub struct InstructionView {
    pub program_id: Identity,
    pub accounts: Seq<AccountMeta>,
    pub data: Seq<u8>,
}

impl View for Instruction {
    type V = InstructionView;

    open spec fn view(&self) -> InstructionView {
        InstructionView { program_id: self.program_id, accounts: self.accounts@, data: self.data@ }
    }
}

/// The system program's transfer instruction: addressed to the all-zero
/// program, naming the source as a writable signer and the destination as
/// writable, and carrying the instruction's index and the amount, both
/// little-endian.
pub open spec fn transfer_instruction(from: Identity, to: Identity, lamports: u64) -> InstructionView {
    InstructionView {
        program_id: Identity::zero(),
        accounts: seq![
            AccountMeta { pubkey: from, is_signer: true, is_writable: true },
            AccountMeta { pubkey: to, is_signer: false, is_writable: true },
        ],
        data: seq![2u8, 0u8, 0u8, 0u8] + spec_u64_to_le_bytes(lamports),
    }
}

/// Calls `system_instruction::transfer` and copies the instruction it builds,
/// field by field. Trusted: the instruction is the system program's transfer
/// of `lamports` from `from` to `to`, as `transfer_instruction` writes it out.
#[verifier::external_body]
fn system_transfer(from: &Identity, to: &Identity, lamports: u64) -> (ix: Instruction)
    ensures
        ix@ == transfer_instruction(*from, *to, lamports),
{
    let source = anchor_lang::prelude::Pubkey::new_from_array(from.bytes);
    let target = anchor_lang::prelude::Pubkey::new_from_array(to.bytes);
    let built = anchor_lang::solana_program::system_instruction::transfer(&source, &target, lamports);
    Instruction {
        program_id: Identity { bytes: built.program_id.to_bytes() },
        accounts: built.accounts.iter().map(|meta| AccountMeta {
            pubkey: Identity { bytes: meta.pubkey.to_bytes() },
            is_signer: meta.is_signer,
            is_writable: meta.is_writable,
        }).collect(),
        data: built.data,
    }
}

} // verus!

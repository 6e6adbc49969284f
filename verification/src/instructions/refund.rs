//! Refunding a deposit: the sender takes everything back.

use vstd::prelude::*;
use crate::address::{derive_address, pair_address, Role};
use crate::errors::EscrowError;
use crate::identity::Identity;
use crate::states::Record;
use crate::transfer::{Amount, SignerSeeds, Transfer};

verus! {

/// The accounts of a refund.
#[derive(Clone, Copy, Debug, PartialEq, Eq)]
pub struct Refund {
    /// The caller, who has signed.
    pub sender: Identity,
    pub vault: Identity,
    /// Where the record lies.
    pub record_address: Identity,
    pub record: Record,
}

/// The bump seeds of the two derived addresses of a refund.
#[derive(Clone, Copy, Debug, PartialEq, Eq, Structural)]
pub struct RefundBumps {
    pub vault: u8,
    pub record: u8,
}

impl Refund {
    /// The checks on the accounts, given what the derivation found for the
    /// pair's vault and for its record. In order: the caller is the record's
    /// sender; the vault is the one found, and the one that the record
    /// names; the record's address is the one found.
    pub open spec fn constraints_given(
        self,
        vault_found: Option<(Identity, u8)>,
        record_found: Option<(Identity, u8)>,
    ) -> Result<RefundBumps, EscrowError> {
        if self.record.sender != self.sender {
            Err(EscrowError::ConstraintHasOne)
        } else {
            match vault_found {
                None => Err(EscrowError::ConstraintSeeds),
                Some((vault, vault_bump)) => {
                    if vault != self.vault {
                        Err(EscrowError::ConstraintSeeds)
                    } else if self.vault != self.record.vault {
                        Err(EscrowError::ConstraintRaw)
                    } else {
                        match record_found {
                            None => Err(EscrowError::ConstraintSeeds),
                            Some((record_address, record_bump)) => {
                                if record_address != self.record_address {
                                    Err(EscrowError::ConstraintSeeds)
                                } else {
                                    Ok(RefundBumps { vault: vault_bump, record: record_bump })
                                }
                            },
                        }
                    }
                },
            }
        }
    }

    /// The checks on the accounts under the given program: those of
    /// `constraints_given`, on the addresses derived for the caller and the
    /// record's receiver.
    pub open spec fn constraints(self, program_id: Identity) -> Result<RefundBumps, EscrowError> {
        self.constraints_given(
            pair_address(Role::Vault, self.sender, self.record.receiver, program_id),
            pair_address(Role::Record, self.sender, self.record.receiver, program_id),
        )
    }

    /// Checks the accounts against what the derivation found for the pair's
    /// vault and for its record, and gives the bump seeds.
    pub fn check(&self, vault_found: Option<(Identity, u8)>, record_found: Option<(Identity, u8)>) -> (checked:
        Result<RefundBumps, EscrowError>)
        ensures
            checked == self.constraints_given(vault_found, record_found),
    {
        if !(self.record.sender == self.sender) {
            return Err(EscrowError::ConstraintHasOne);
        }
        let vault_bump = match vault_found {
            None => {
                return Err(EscrowError::ConstraintSeeds);
            },
            Some((vault, bump)) => {
                if !(vault == self.vault) {
                    return Err(EscrowError::ConstraintSeeds);
                }
                bump
            },
        };
        if !(self.vault == self.record.vault) {
            return Err(EscrowError::ConstraintRaw);
        }
        let record_bump = match record_found {
            None => {
                return Err(EscrowError::ConstraintSeeds);
            },
            Some((record_address, bump)) => {
                if !(record_address == self.record_address) {
                    return Err(EscrowError::ConstraintSeeds);
                }
                bump
            },
        };
        Ok(RefundBumps { vault: vault_bump, record: record_bump })
    }

    /// Derives the pair's two addresses under the given program and checks
    /// the accounts against them.
    pub fn validate(&self, program_id: &Identity) -> (checked: Result<RefundBumps, EscrowError>)
        ensures
            checked == self.constraints(*program_id),
    {
        let vault_found = derive_address(Role::Vault, &self.sender, &self.record.receiver, program_id);
        let record_found = derive_address(Role::Record, &self.sender, &self.record.receiver, program_id);
        self.check(vault_found, record_found)
    }

    /// The capability under which the vault's funds move.
    pub open spec fn vault_seeds(self, bumps: RefundBumps) -> SignerSeeds {
        SignerSeeds { role: Role::Vault, sender: self.sender, receiver: self.record.receiver, bump: bumps.vault }
    }
}

/// The one transfer of a refund: everything that the vault holds, to the
/// sender, under the vault's seeds.
pub open spec fn refund_transfers(ctx: Refund, bumps: RefundBumps) -> Seq<Transfer> {
    seq![
        Transfer {
            from: ctx.vault,
            to: ctx.sender,
            amount: Amount::Balance,
            seeds: Some(ctx.vault_seeds(bumps)),
        },
    ]
}

/// Decides a refund: gives the transfers to make, in order.
pub fn refund(ctx: &Refund, bumps: &RefundBumps) -> (plan: Vec<Transfer>)
    ensures
        plan@ == refund_transfers(*ctx, *bumps),
{
    let vault_seeds = SignerSeeds {
        role: Role::Vault,
        sender: ctx.sender,
        receiver: ctx.record.receiver,
        bump: bumps.vault,
    };
    let mut transfers: Vec<Transfer> = Vec::new();
    transfers.push(
        Transfer { from: ctx.vault, to: ctx.sender, amount: Amount::Balance, seeds: Some(vault_seeds) },
    );
    proof {
        assert(transfers@ =~= refund_transfers(*ctx, *bumps));
    }
    transfers
}

} // verus!

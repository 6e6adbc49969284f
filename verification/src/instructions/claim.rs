//! Claiming a deposit: the receiver takes the principal.

use vstd::prelude::*;
use crate::address::{derive_address, pair_address, Role};
use crate::errors::{DropSomeError, EscrowError};
use crate::identity::Identity;
use crate::states::Record;
use crate::transfer::{Amount, SignerSeeds, Transfer};

verus! {

/// The accounts of a claim.
#[derive(Clone, Copy, Debug, PartialEq, Eq)]
pub struct Claim {
    /// The caller, who has signed.
    pub receiver: Identity,
    /// Who is to get back what the vault holds beyond the principal.
    pub sender: Identity,
    pub vault: Identity,
    /// Where the record lies.
    pub record_address: Identity,
    pub record: Record,
}

/// The bump seeds of the two derived addresses of a claim.
#[derive(Clone, Copy, Debug, PartialEq, Eq, Structural)]
pub struct ClaimBumps {
    pub vault: u8,
    pub record: u8,
}

impl Claim {
    /// The checks on the accounts, given what the derivation found for the
    /// pair's vault and for its record. In order: the caller is the record's
    /// receiver; the vault and the record's address are the ones found; the
    /// record names the vault and the sender that were presented.
    pub open spec fn constraints_given(
        self,
        vault_found: Option<(Identity, u8)>,
        record_found: Option<(Identity, u8)>,
    ) -> Result<ClaimBumps, EscrowError> {
        if self.record.receiver != self.receiver {
            Err(EscrowError::Policy(DropSomeError::UnauthorizedClaim))
        } else {
            match vault_found {
                None => Err(EscrowError::ConstraintSeeds),
                Some((vault, vault_bump)) => {
                    if vault != self.vault {
                        Err(EscrowError::ConstraintSeeds)
                    } else {
                        match record_found {
                            None => Err(EscrowError::ConstraintSeeds),
                            Some((record_address, record_bump)) => {
                                if record_address != self.record_address {
                                    Err(EscrowError::ConstraintSeeds)
                                } else if self.record.vault != self.vault {
                                    Err(EscrowError::ConstraintHasOne)
                                } else if self.record.sender != self.sender {
                                    Err(EscrowError::ConstraintHasOne)
                                } else {
                                    Ok(ClaimBumps { vault: vault_bump, record: record_bump })
                                }
                            },
                        }
                    }
                },
            }
        }
    }

    /// The checks on the accounts under the given program: those of
    /// `constraints_given`, on the addresses derived for the record's sender
    /// and the caller.
    pub open spec fn constraints(self, program_id: Identity) -> Result<ClaimBumps, EscrowError> {
        self.constraints_given(
            pair_address(Role::Vault, self.record.sender, self.receiver, program_id),
            pair_address(Role::Record, self.record.sender, self.receiver, program_id),
        )
    }

    /// Checks the accounts against what the derivation found for the pair's
    /// vault and for its record, and gives the bump seeds.
    pub fn check(&self, vault_found: Option<(Identity, u8)>, record_found: Option<(Identity, u8)>) -> (checked:
        Result<ClaimBumps, EscrowError>)
        ensures
            checked == self.constraints_given(vault_found, record_found),
    {
        if !(self.record.receiver == self.receiver) {
            return Err(EscrowError::Policy(DropSomeError::UnauthorizedClaim));
        }
        let vault_bump = match vault_found {
            None => {
                return Err(EscrowError::ConstraintSeeds);
            },
            Some((vault, bump)) => {
                if !(vault == self.vault) {
                    return Err(EscrowError::ConstraintSeeds);
                }
                bump
            },
        };
        let record_bump = match record_found {
            None => {
                return Err(EscrowError::ConstraintSeeds);
            },
            Some((record_address, bump)) => {
                if !(record_address == self.record_address) {
                    return Err(EscrowError::ConstraintSeeds);
                }
                bump
            },
        };
        if !(self.record.vault == self.vault) {
            return Err(EscrowError::ConstraintHasOne);
        }
        if !(self.record.sender == self.sender) {
            return Err(EscrowError::ConstraintHasOne);
        }
        Ok(ClaimBumps { vault: vault_bump, record: record_bump })
    }

    /// Derives the pair's two addresses under the given program and checks
    /// the accounts against them.
    pub fn validate(&self, program_id: &Identity) -> (checked: Result<ClaimBumps, EscrowError>)
        ensures
            checked == self.constraints(*program_id),
    {
        let vault_found = derive_address(Role::Vault, &self.record.sender, &self.receiver, program_id);
        let record_found = derive_address(Role::Record, &self.record.sender, &self.receiver, program_id);
        self.check(vault_found, record_found)
    }

    /// The capability under which the vault's funds move.
    pub open spec fn vault_seeds(self, bumps: ClaimBumps) -> SignerSeeds {
        SignerSeeds { role: Role::Vault, sender: self.sender, receiver: self.receiver, bump: bumps.vault }
    }
}

/// The two transfers of a claim, both out of the vault under its seeds: the
/// principal to the receiver, then whatever the vault still holds to the
/// sender.
pub open spec fn claim_transfers(ctx: Claim, bumps: ClaimBumps) -> Seq<Transfer> {
    seq![
        Transfer {
            from: ctx.vault,
            to: ctx.receiver,
            amount: Amount::Exact(ctx.record.amount),
            seeds: Some(ctx.vault_seeds(bumps)),
        },
        Transfer {
            from: ctx.vault,
            to: ctx.sender,
            amount: Amount::Balance,
            seeds: Some(ctx.vault_seeds(bumps)),
        },
    ]
}

/// Decides a claim: gives the transfers to make, in order.
pub fn claim(ctx: &Claim, bumps: &ClaimBumps) -> (plan: Vec<Transfer>)
    ensures
        plan@ == claim_transfers(*ctx, *bumps),
{
    let vault_seeds = SignerSeeds {
        role: Role::Vault,
        sender: ctx.sender,
        receiver: ctx.receiver,
        bump: bumps.vault,
    };
    let mut transfers: Vec<Transfer> = Vec::new();
    transfers.push(
        Transfer {
            from: ctx.vault,
            to: ctx.receiver,
            amount: Amount::Exact(ctx.record.amount),
            seeds: Some(vault_seeds),
        },
    );
    transfers.push(
        Transfer { from: ctx.vault, to: ctx.sender, amount: Amount::Balance, seeds: Some(vault_seeds) },
    );
    proof {
        assert(transfers@ =~= claim_transfers(*ctx, *bumps));
    }
    transfers
}

} // verus!

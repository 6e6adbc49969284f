//! Depositing funds for a receiver.

use vstd::prelude::*;
use crate::address::{derive_address, pair_address, Role};
use crate::errors::{DropSomeError, EscrowError};
use crate::identity::Identity;
use crate::states::{AppState, Record};
use crate::transfer::{Amount, Transfer};

verus! {

/// The accounts of a deposit.
#[derive(Clone, Copy, Debug, PartialEq, Eq)]
pub struct Drop {
    /// The caller, who has signed and pays.
    pub sender: Identity,
    pub receiver: Identity,
    /// What the receiver holds before the deposit.
    pub receiver_lamports: u64,
    pub vault: Identity,
    /// Where the new record is to lie.
    pub record_address: Identity,
    /// The new record, to be filled.
    pub record: Record,
    pub app_state: AppState,
    pub treasury: Identity,
}

/// The bump seeds of the two derived addresses of a deposit.
#[derive(Clone, Copy, Debug, PartialEq, Eq, Structural)]
pub struct DropBumps {
    pub vault: u8,
    pub record: u8,
}

impl Drop {
    /// The checks on the accounts, given what the derivation found for the
    /// pair's record and for its vault. In order: the record's address is
    /// the one found; the configuration is set; the receiver holds nothing;
    /// the vault is the one found; the treasury is the configured one.
    pub open spec fn constraints_given(
        self,
        record_found: Option<(Identity, u8)>,
        vault_found: Option<(Identity, u8)>,
    ) -> Result<DropBumps, EscrowError> {
        match record_found {
            None => Err(EscrowError::ConstraintSeeds),
            Some((record_address, record_bump)) => {
                if record_address != self.record_address {
                    Err(EscrowError::ConstraintSeeds)
                } else if !self.app_state.is_initialized {
                    Err(EscrowError::AccountNotInitialized)
                } else if self.receiver_lamports != 0 {
                    Err(EscrowError::Policy(DropSomeError::ReceiverBalanceNotEmpty))
                } else {
                    match vault_found {
                        None => Err(EscrowError::ConstraintSeeds),
                        Some((vault, vault_bump)) => {
                            if vault != self.vault {
                                Err(EscrowError::ConstraintSeeds)
                            } else if self.app_state.treasury != self.treasury {
                                Err(EscrowError::ConstraintHasOne)
                            } else {
                                Ok(DropBumps { vault: vault_bump, record: record_bump })
                            }
                        },
                    }
                }
            },
        }
    }

    /// The checks on the accounts under the given program: those of
    /// `constraints_given`, on the addresses derived for the sender and the
    /// receiver.
    pub open spec fn constraints(self, program_id: Identity) -> Result<DropBumps, EscrowError> {
        self.constraints_given(
            pair_address(Role::Record, self.sender, self.receiver, program_id),
            pair_address(Role::Vault, self.sender, self.receiver, program_id),
        )
    }

    /// Checks the accounts against what the derivation found for the pair's
    /// record and for its vault, and gives the bump seeds.
    pub fn check(&self, record_found: Option<(Identity, u8)>, vault_found: Option<(Identity, u8)>) -> (checked:
        Result<DropBumps, EscrowError>)
        ensures
            checked == self.constraints_given(record_found, vault_found),
    {
        let record_bump = match record_found {
            None => {
                return Err(EscrowError::ConstraintSeeds);
            },
            Some((record_address, bump)) => {
                if !(record_address == self.record_address) {
                    return Err(EscrowError::ConstraintSeeds);
                }
                bump
            },
        };
        if !self.app_state.is_initialized {
            return Err(EscrowError::AccountNotInitialized);
        }
        if self.receiver_lamports != 0 {
            return Err(EscrowError::Policy(DropSomeError::ReceiverBalanceNotEmpty));
        }
        let vault_bump = match vault_found {
            None => {
                return Err(EscrowError::ConstraintSeeds);
            },
            Some((vault, bump)) => {
                if !(vault == self.vault) {
                    return Err(EscrowError::ConstraintSeeds);
                }
                bump
            },
        };
        if !(self.app_state.treasury == self.treasury) {
            return Err(EscrowError::ConstraintHasOne);
        }
        Ok(DropBumps { vault: vault_bump, record: record_bump })
    }

    /// Derives the pair's two addresses under the given program and checks
    /// the accounts against them.
    pub fn validate(&self, program_id: &Identity) -> (checked: Result<DropBumps, EscrowError>)
        ensures
            checked == self.constraints(*program_id),
    {
        let record_found = derive_address(Role::Record, &self.sender, &self.receiver, program_id);
        let vault_found = derive_address(Role::Vault, &self.sender, &self.receiver, program_id);
        self.check(record_found, vault_found)
    }
}

/// The fee on a deposit: the amount times the rate in basis points, divided
/// by ten thousand and rounded down.
pub open spec fn service_fee(amount: u64, fee_basis_points: u16) -> nat {
    (amount as nat * fee_basis_points as nat) / 10_000
}

/// The three transfers of a deposit, all out of the sender: the network fee
/// reserve to the receiver, the amount with the rent floor to the vault, the
/// fee to the treasury.
pub open spec fn drop_transfers(ctx: Drop, amount: u64, rent_floor: u64) -> Seq<Transfer> {
    seq![
        Transfer {
            from: ctx.sender,
            to: ctx.receiver,
            amount: Amount::Exact(ctx.app_state.network_fee_reserve),
            seeds: None,
        },
        Transfer {
            from: ctx.sender,
            to: ctx.vault,
            amount: Amount::Exact((amount + rent_floor) as u64),
            seeds: None,
        },
        Transfer {
            from: ctx.sender,
            to: ctx.treasury,
            amount: Amount::Exact(service_fee(amount, ctx.app_state.fee_basis_points) as u64),
            seeds: None,
        },
    ]
}

/// The record of a deposit.
pub open spec fn drop_record(ctx: Drop, amount: u64) -> Record {
    Record { sender: ctx.sender, receiver: ctx.receiver, vault: ctx.vault, amount }
}

/// What a deposit decides: it refuses an amount under the minimum, then a
/// service that is switched off, then sums that no account can hold, and
/// otherwise gives the record and the transfers.
pub open spec fn drop_outcome(ctx: Drop, amount: u64, rent_floor: u64) -> Result<
    (Record, Seq<Transfer>),
    EscrowError,
> {
    if amount < ctx.app_state.min_drop_amount {
        Err(EscrowError::Policy(DropSomeError::InsufficientDropAmount))
    } else if !ctx.app_state.is_active {
        Err(EscrowError::Policy(DropSomeError::AppNotActive))
    } else if amount + rent_floor > u64::MAX || service_fee(amount, ctx.app_state.fee_basis_points)
        > u64::MAX {
        Err(EscrowError::InsufficientFunds)
    } else {
        Ok((drop_record(ctx, amount), drop_transfers(ctx, amount, rent_floor)))
    }
}

/// Decides a deposit of `amount` into a vault that needs `rent_floor` to
/// exist: fills the record and gives the transfers to make, in order. On
/// failure nothing changes.
pub fn drop_some(ctx: &mut Drop, amount: u64, rent_floor: u64) -> (plan: Result<Vec<Transfer>, EscrowError>)
    ensures
        match drop_outcome(*old(ctx), amount, rent_floor) {
            Ok((record, transfers)) => {
                &&& plan matches Ok(made)
                &&& made@ == transfers
                &&& *final(ctx) == (Drop { record, ..*old(ctx) })
            },
            Err(e) => plan == Err::<Vec<Transfer>, EscrowError>(e) && *final(ctx) == *old(ctx),
        },
{
    if amount < ctx.app_state.min_drop_amount {
        return Err(EscrowError::Policy(DropSomeError::InsufficientDropAmount));
    }
    if !ctx.app_state.is_active {
        return Err(EscrowError::Policy(DropSomeError::AppNotActive));
    }
    let rate: u16 = ctx.app_state.fee_basis_points;
    assert((amount as u128) * (rate as u128) <= 0xffff_ffff_ffff_ffff * 0xffff) by (nonlinear_arith)
        requires
            amount <= 0xffff_ffff_ffff_ffff,
            rate <= 0xffff,
    ;
    let wide_fee: u128 = (amount as u128) * (rate as u128) / 10_000;
    let total_vault_amount = match amount.checked_add(rent_floor) {
        Some(total) => total,
        None => {
            return Err(EscrowError::InsufficientFunds);
        },
    };
    if wide_fee > u64::MAX as u128 {
        return Err(EscrowError::InsufficientFunds);
    }
    let service_fee: u64 = wide_fee as u64;

    ctx.record.sender = ctx.sender;
    ctx.record.receiver = ctx.receiver;
    ctx.record.vault = ctx.vault;
    ctx.record.amount = amount;

    let mut transfers: Vec<Transfer> = Vec::new();
    transfers.push(
        Transfer {
            from: ctx.sender,
            to: ctx.receiver,
            amount: Amount::Exact(ctx.app_state.network_fee_reserve),
            seeds: None,
        },
    );
    transfers.push(
        Transfer { from: ctx.sender, to: ctx.vault, amount: Amount::Exact(total_vault_amount), seeds: None },
    );
    transfers.push(
        Transfer { from: ctx.sender, to: ctx.treasury, amount: Amount::Exact(service_fee), seeds: None },
    );
    proof {
        assert(transfers@ =~= drop_transfers(*old(ctx), amount, rent_floor));
    }
    Ok(transfers)
}

} // verus!

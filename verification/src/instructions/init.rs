//! Setting the configuration for the first and only time.

use vstd::prelude::*;
use crate::errors::{DropSomeError, EscrowError};
use crate::identity::Identity;
use crate::states::{AppState, MAX_FEE_BASIS_POINTS};

verus! {

/// The policy that the caller asks for.
#[derive(Clone, Copy, Debug, PartialEq, Eq)]
pub struct AppStateParameters {
    pub authority: Identity,
    pub is_active: bool,
    pub network_fee_reserve: u64,
    pub treasury: Identity,
    pub fee_basis_points: u16,
    pub min_drop_amount: u64,
}

impl AppStateParameters {
    /// The initialized configuration that holds exactly these parameters.
    pub open spec fn configured(self) -> AppState {
        AppState {
            is_initialized: true,
            authority: self.authority,
            is_active: self.is_active,
            network_fee_reserve: self.network_fee_reserve,
            treasury: self.treasury,
            fee_basis_points: self.fee_basis_points,
            min_drop_amount: self.min_drop_amount,
        }
    }

    /// The parameters that a configuration holds.
    pub open spec fn of(state: AppState) -> AppStateParameters {
        AppStateParameters {
            authority: state.authority,
            is_active: state.is_active,
            network_fee_reserve: state.network_fee_reserve,
            treasury: state.treasury,
            fee_basis_points: state.fee_basis_points,
            min_drop_amount: state.min_drop_amount,
        }
    }
}

/// The accounts of the first configuration: the caller, the configuration
/// to fill, and who the deployment names as its authority.
#[derive(Clone, Copy, Debug, PartialEq, Eq)]
pub struct Initialize {
    /// The caller, who has signed.
    pub authority: Identity,
    pub app_state: AppState,
    /// The deployment's authority; the all-zero address stands for none.
    pub upgrade_authority_address: Option<Identity>,
}

impl Initialize {
    /// The deployment's authority, or the all-zero address where it names none.
    pub open spec fn deployment_authority(self) -> Identity {
        match self.upgrade_authority_address {
            Some(authority) => authority,
            None => Identity::zero(),
        }
    }

    /// The caller must be the deployment's authority.
    pub open spec fn constraints(self) -> Result<(), EscrowError> {
        if self.authority != self.deployment_authority() {
            Err(EscrowError::ConstraintRaw)
        } else {
            Ok(())
        }
    }

    /// Checks the accounts.
    pub fn validate(&self) -> (checked: Result<(), EscrowError>)
        ensures
            checked == self.constraints(),
    {
        let expected = match self.upgrade_authority_address {
            Some(authority) => authority,
            None => Identity::default(),
        };
        if self.authority == expected {
            Ok(())
        } else {
            Err(EscrowError::ConstraintRaw)
        }
    }
}

/// What the first configuration decides: it refuses a configuration that is
/// already set, then a fee rate above the whole amount, and otherwise sets
/// every field and marks the configuration as set.
pub open spec fn initialize_outcome(state: AppState, parameters: AppStateParameters) -> Result<
    AppState,
    EscrowError,
> {
    if state.is_initialized {
        Err(EscrowError::Policy(DropSomeError::AppStateAlreadyInitialized))
    } else if parameters.fee_basis_points > MAX_FEE_BASIS_POINTS {
        Err(EscrowError::Policy(DropSomeError::FeeBasisPointsTooHigh))
    } else {
        Ok(parameters.configured())
    }
}

/// Sets the configuration for the first time. On failure nothing changes.
pub fn initialize(ctx: &mut Initialize, parameters: AppStateParameters) -> (done: Result<(), EscrowError>)
    ensures
        match initialize_outcome(old(ctx).app_state, parameters) {
            Ok(state) => done == Ok::<(), EscrowError>(()) && *final(ctx) == (Initialize {
                app_state: state,
                ..*old(ctx)
            }),
            Err(e) => done == Err::<(), EscrowError>(e) && *final(ctx) == *old(ctx),
        },
{
    if ctx.app_state.is_initialized {
        return Err(EscrowError::Policy(DropSomeError::AppStateAlreadyInitialized));
    }
    if parameters.fee_basis_points > MAX_FEE_BASIS_POINTS {
        return Err(EscrowError::Policy(DropSomeError::FeeBasisPointsTooHigh));
    }
    ctx.app_state.is_initialized = true;
    ctx.app_state.authority = parameters.authority;
    ctx.app_state.is_active = parameters.is_active;
    ctx.app_state.network_fee_reserve = parameters.network_fee_reserve;
    ctx.app_state.treasury = parameters.treasury;
    ctx.app_state.fee_basis_points = parameters.fee_basis_points;
    ctx.app_state.min_drop_amount = parameters.min_drop_amount;
    Ok(())
}

} // verus!

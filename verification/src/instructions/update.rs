//! Changing the configuration.

use vstd::prelude::*;
use crate::errors::{DropSomeError, EscrowError};
use crate::identity::Identity;
use crate::instructions::init::AppStateParameters;
use crate::states::{AppState, MAX_FEE_BASIS_POINTS};

verus! {

/// The accounts of a change of configuration: the caller and the
/// configuration to change.
#[derive(Clone, Copy, Debug, PartialEq, Eq)]
pub struct UpdateState {
    /// The caller, who has signed.
    pub authority: Identity,
    pub app_state: AppState,
}

/// What a change of configuration decides: it refuses a configuration that
/// was never set, then a caller other than the stored authority, then a fee
/// rate above the whole amount, and otherwise stores the parameters.
pub open spec fn update_outcome(state: AppState, caller: Identity, parameters: AppStateParameters) -> Result<
    AppState,
    EscrowError,
> {
    if !state.is_initialized {
        Err(EscrowError::AccountNotInitialized)
    } else if state.authority != caller {
        Err(EscrowError::ConstraintHasOne)
    } else if parameters.fee_basis_points > MAX_FEE_BASIS_POINTS {
        Err(EscrowError::Policy(DropSomeError::FeeBasisPointsTooHigh))
    } else {
        Ok(parameters.configured())
    }
}

/// Changes the configuration, writing only the fields that differ. On
/// failure nothing changes.
pub fn update_state(ctx: &mut UpdateState, parameters: AppStateParameters) -> (done: Result<(), EscrowError>)
    ensures
        match update_outcome(old(ctx).app_state, old(ctx).authority, parameters) {
            Ok(state) => done == Ok::<(), EscrowError>(()) && *final(ctx) == (UpdateState {
                app_state: state,
                ..*old(ctx)
            }),
            Err(e) => done == Err::<(), EscrowError>(e) && *final(ctx) == *old(ctx),
        },
{
    if !ctx.app_state.is_initialized {
        return Err(EscrowError::AccountNotInitialized);
    }
    if !(ctx.app_state.authority == ctx.authority) {
        return Err(EscrowError::ConstraintHasOne);
    }
    if parameters.fee_basis_points > MAX_FEE_BASIS_POINTS {
        return Err(EscrowError::Policy(DropSomeError::FeeBasisPointsTooHigh));
    }
    if !(ctx.app_state.authority == parameters.authority) {
        ctx.app_state.authority = parameters.authority;
    }
    if ctx.app_state.is_active != parameters.is_active {
        ctx.app_state.is_active = parameters.is_active;
    }
    if ctx.app_state.network_fee_reserve != parameters.network_fee_reserve {
        ctx.app_state.network_fee_reserve = parameters.network_fee_reserve;
    }
    if !(ctx.app_state.treasury == parameters.treasury) {
        ctx.app_state.treasury = parameters.treasury;
    }
    if ctx.app_state.fee_basis_points != parameters.fee_basis_points {
        ctx.app_state.fee_basis_points = parameters.fee_basis_points;
    }
    if ctx.app_state.min_drop_amount != parameters.min_drop_amount {
        ctx.app_state.min_drop_amount = parameters.min_drop_amount;
    }
    Ok(())
}

} // verus!

use dropsome::address::{derive_address, Role};
use dropsome::errors::{DropSomeError, EscrowError};
use dropsome::identity::Identity;
use dropsome::instructions::claim::{claim, Claim, ClaimBumps};
use dropsome::instructions::drop::{drop_some, Drop, DropBumps};
use dropsome::instructions::refund::{refund, Refund, RefundBumps};
use dropsome::states::{AppState, Record};
use dropsome::transfer::{Amount, SignerSeeds, Transfer};

const RENT_FLOOR: u64 = 890_880;

fn party(tag: u8) -> Identity {
    Identity::new([tag; 32])
}

fn program() -> Identity {
    party(7)
}

fn policy(fee_basis_points: u16) -> AppState {
    AppState {
        is_initialized: true,
        authority: party(1),
        is_active: true,
        network_fee_reserve: 5000,
        treasury: party(9),
        fee_basis_points,
        min_drop_amount: 1000,
    }
}

fn vault_of(sender: Identity, receiver: Identity) -> (Identity, u8) {
    derive_address(Role::Vault, &sender, &receiver, &program()).unwrap()
}

fn record_of(sender: Identity, receiver: Identity) -> (Identity, u8) {
    derive_address(Role::Record, &sender, &receiver, &program()).unwrap()
}

fn empty_record() -> Record {
    Record { sender: Identity::default(), receiver: Identity::default(), vault: Identity::default(), amount: 0 }
}

fn deposit_accounts(fee_basis_points: u16) -> Drop {
    let (sender, receiver) = (party(1), party(2));
    Drop {
        sender,
        receiver,
        receiver_lamports: 0,
        vault: vault_of(sender, receiver).0,
        record_address: record_of(sender, receiver).0,
        record: empty_record(),
        app_state: policy(fee_basis_points),
        treasury: party(9),
    }
}

fn open_record() -> Record {
    Record { sender: party(1), receiver: party(2), vault: vault_of(party(1), party(2)).0, amount: 10_000 }
}

fn claim_accounts() -> Claim {
    Claim {
        receiver: party(2),
        sender: party(1),
        vault: vault_of(party(1), party(2)).0,
        record_address: record_of(party(1), party(2)).0,
        record: open_record(),
    }
}

fn refund_accounts() -> Refund {
    Refund {
        sender: party(1),
        vault: vault_of(party(1), party(2)).0,
        record_address: record_of(party(1), party(2)).0,
        record: open_record(),
    }
}

fn fee_of(amount: u64, fee_basis_points: u16) -> Amount {
    let mut ctx = deposit_accounts(fee_basis_points);
    ctx.app_state.min_drop_amount = 0;
    drop_some(&mut ctx, amount, 0).unwrap()[2].amount
}

#[test]
fn deposit_plans_three_transfers_from_the_sender() {
    let mut ctx = deposit_accounts(250);
    let before = ctx;
    let plan = drop_some(&mut ctx, 10_000, RENT_FLOOR).unwrap();
    assert_eq!(
        plan,
        vec![
            Transfer { from: party(1), to: party(2), amount: Amount::Exact(5000), seeds: None },
            Transfer { from: party(1), to: before.vault, amount: Amount::Exact(900_880), seeds: None },
            Transfer { from: party(1), to: party(9), amount: Amount::Exact(250), seeds: None },
        ]
    );
    assert_eq!(ctx.record, Record { sender: party(1), receiver: party(2), vault: before.vault, amount: 10_000 });
    assert_eq!(ctx, Drop { record: ctx.record, ..before });
}

#[test]
fn fee_is_the_rate_in_basis_points_rounded_down() {
    assert_eq!(fee_of(10_000, 250), Amount::Exact(250));
    assert_eq!(fee_of(10_000, 0), Amount::Exact(0));
    assert_eq!(fee_of(10_000, 10_000), Amount::Exact(10_000));
    assert_eq!(fee_of(9_999, 1), Amount::Exact(0));
    assert_eq!(fee_of(10_000, 1), Amount::Exact(1));
    assert_eq!(fee_of(19_999, 1), Amount::Exact(1));
    assert_eq!(fee_of(1_999, 250), Amount::Exact(49));
    assert_eq!(fee_of(0, 10_000), Amount::Exact(0));
    assert_eq!(fee_of(1, 9_999), Amount::Exact(0));
}

#[test]
fn fee_of_the_widest_amount_does_not_wrap() {
    assert_eq!(fee_of(u64::MAX, 10_000), Amount::Exact(u64::MAX));
    assert_eq!(fee_of(u64::MAX, 5_000), Amount::Exact(u64::MAX / 2));
    assert_eq!(fee_of(u64::MAX, 1), Amount::Exact(1_844_674_407_370_955));
}

#[test]
fn deposit_below_the_minimum_is_refused() {
    let mut ctx = deposit_accounts(250);
    let before = ctx;
    assert_eq!(
        drop_some(&mut ctx, 500, RENT_FLOOR),
        Err(EscrowError::Policy(DropSomeError::InsufficientDropAmount))
    );
    assert_eq!(ctx, before);
    assert_eq!(
        drop_some(&mut ctx, 999, RENT_FLOOR),
        Err(EscrowError::Policy(DropSomeError::InsufficientDropAmount))
    );
    assert!(drop_some(&mut ctx, 1000, RENT_FLOOR).is_ok());
}

#[test]
fn deposit_into_an_inactive_service_is_refused() {
    let mut ctx = deposit_accounts(250);
    ctx.app_state.is_active = false;
    let before = ctx;
    assert_eq!(drop_some(&mut ctx, 10_000, RENT_FLOOR), Err(EscrowError::Policy(DropSomeError::AppNotActive)));
    assert_eq!(ctx, before);
}

#[test]
fn minimum_is_looked_at_before_the_switch() {
    let mut ctx = deposit_accounts(250);
    ctx.app_state.is_active = false;
    assert_eq!(
        drop_some(&mut ctx, 500, RENT_FLOOR),
        Err(EscrowError::Policy(DropSomeError::InsufficientDropAmount))
    );
}

#[test]
fn deposit_wider_than_any_balance_is_refused() {
    let mut ctx = deposit_accounts(250);
    let before = ctx;
    assert_eq!(drop_some(&mut ctx, u64::MAX, 1), Err(EscrowError::InsufficientFunds));
    assert_eq!(ctx, before);
    assert_eq!(drop_some(&mut ctx, u64::MAX - RENT_FLOOR + 1, RENT_FLOOR), Err(EscrowError::InsufficientFunds));
    assert!(drop_some(&mut ctx, u64::MAX - RENT_FLOOR, RENT_FLOOR).is_ok());
}

#[test]
fn fee_wider_than_any_balance_is_refused() {
    let mut ctx = deposit_accounts(20_000);
    let before = ctx;
    assert_eq!(drop_some(&mut ctx, u64::MAX, 0), Err(EscrowError::InsufficientFunds));
    assert_eq!(ctx, before);
    assert_eq!(drop_some(&mut ctx, 10_000, 0).unwrap()[2].amount, Amount::Exact(20_000));
}

#[test]
fn deposit_accounts_pass_with_their_bumps() {
    let ctx = deposit_accounts(250);
    assert_eq!(
        ctx.validate(&program()),
        Ok(DropBumps { vault: vault_of(party(1), party(2)).1, record: record_of(party(1), party(2)).1 })
    );
}

#[test]
fn deposit_to_a_funded_receiver_is_refused() {
    let ctx = Drop { receiver_lamports: 1, ..deposit_accounts(250) };
    assert_eq!(ctx.validate(&program()), Err(EscrowError::Policy(DropSomeError::ReceiverBalanceNotEmpty)));
    let rich = Drop { receiver_lamports: u64::MAX, ..deposit_accounts(250) };
    assert_eq!(rich.validate(&program()), Err(EscrowError::Policy(DropSomeError::ReceiverBalanceNotEmpty)));
}

#[test]
fn deposit_accounts_are_checked_in_order() {
    let good = deposit_accounts(250);
    let wrong_record = Drop { record_address: party(5), receiver_lamports: 1, ..good };
    assert_eq!(wrong_record.validate(&program()), Err(EscrowError::ConstraintSeeds));
    let unset = Drop { app_state: AppState::new(), receiver_lamports: 1, treasury: Identity::default(), ..good };
    assert_eq!(unset.validate(&program()), Err(EscrowError::AccountNotInitialized));
    let funded = Drop { receiver_lamports: 1, vault: party(5), ..good };
    assert_eq!(funded.validate(&program()), Err(EscrowError::Policy(DropSomeError::ReceiverBalanceNotEmpty)));
    let wrong_vault = Drop { vault: party(5), treasury: party(8), ..good };
    assert_eq!(wrong_vault.validate(&program()), Err(EscrowError::ConstraintSeeds));
    let wrong_treasury = Drop { treasury: party(8), ..good };
    assert_eq!(wrong_treasury.validate(&program()), Err(EscrowError::ConstraintHasOne));
    let swapped = Drop { vault: good.record_address, record_address: good.vault, ..good };
    assert_eq!(swapped.validate(&program()), Err(EscrowError::ConstraintSeeds));
    assert_eq!(good.validate(&party(8)), Err(EscrowError::ConstraintSeeds));
}

#[test]
fn claim_accounts_pass_with_their_bumps() {
    assert_eq!(
        claim_accounts().validate(&program()),
        Ok(ClaimBumps { vault: vault_of(party(1), party(2)).1, record: record_of(party(1), party(2)).1 })
    );
}

#[test]
fn claim_by_another_than_the_receiver_is_refused() {
    let stranger = Claim { receiver: party(3), ..claim_accounts() };
    assert_eq!(stranger.validate(&program()), Err(EscrowError::Policy(DropSomeError::UnauthorizedClaim)));
    let sender = Claim { receiver: party(1), ..claim_accounts() };
    assert_eq!(sender.validate(&program()), Err(EscrowError::Policy(DropSomeError::UnauthorizedClaim)));
}

#[test]
fn claim_accounts_are_checked_in_order() {
    let good = claim_accounts();
    let wrong_vault = Claim { vault: party(5), record_address: party(5), ..good };
    assert_eq!(wrong_vault.validate(&program()), Err(EscrowError::ConstraintSeeds));
    let wrong_record = Claim { record_address: party(5), sender: party(3), ..good };
    assert_eq!(wrong_record.validate(&program()), Err(EscrowError::ConstraintSeeds));
    let forged_vault = Claim { record: Record { vault: party(5), ..good.record }, sender: party(3), ..good };
    assert_eq!(forged_vault.validate(&program()), Err(EscrowError::ConstraintHasOne));
    let wrong_sender = Claim { sender: party(3), ..good };
    assert_eq!(wrong_sender.validate(&program()), Err(EscrowError::ConstraintHasOne));
    let forged_sender = Claim { record: Record { sender: party(3), ..good.record }, ..good };
    assert_eq!(forged_sender.validate(&program()), Err(EscrowError::ConstraintSeeds));
    assert_eq!(good.validate(&party(8)), Err(EscrowError::ConstraintSeeds));
}

#[test]
fn claim_pays_the_principal_then_the_rest() {
    let ctx = claim_accounts();
    let bumps = ctx.validate(&program()).unwrap();
    let seeds = SignerSeeds { role: Role::Vault, sender: party(1), receiver: party(2), bump: bumps.vault };
    assert_eq!(
        claim(&ctx, &bumps),
        vec![
            Transfer { from: ctx.vault, to: party(2), amount: Amount::Exact(10_000), seeds: Some(seeds) },
            Transfer { from: ctx.vault, to: party(1), amount: Amount::Balance, seeds: Some(seeds) },
        ]
    );
}

#[test]
fn refund_accounts_pass_with_their_bumps() {
    assert_eq!(
        refund_accounts().validate(&program()),
        Ok(RefundBumps { vault: vault_of(party(1), party(2)).1, record: record_of(party(1), party(2)).1 })
    );
}

#[test]
fn refund_to_another_than_the_sender_is_refused() {
    let stranger = Refund { sender: party(3), ..refund_accounts() };
    assert_eq!(stranger.validate(&program()), Err(EscrowError::ConstraintHasOne));
    let receiver = Refund { sender: party(2), ..refund_accounts() };
    assert_eq!(receiver.validate(&program()), Err(EscrowError::ConstraintHasOne));
}

#[test]
fn refund_accounts_are_checked_in_order() {
    let good = refund_accounts();
    let wrong_vault = Refund { vault: party(5), record_address: party(5), ..good };
    assert_eq!(wrong_vault.validate(&program()), Err(EscrowError::ConstraintSeeds));
    let forged_vault = Refund { record: Record { vault: party(5), ..good.record }, record_address: party(5), ..good };
    assert_eq!(forged_vault.validate(&program()), Err(EscrowError::ConstraintRaw));
    let wrong_record = Refund { record_address: party(5), ..good };
    assert_eq!(wrong_record.validate(&program()), Err(EscrowError::ConstraintSeeds));
    let forged_receiver = Refund { record: Record { receiver: party(3), ..good.record }, ..good };
    assert_eq!(forged_receiver.validate(&program()), Err(EscrowError::ConstraintSeeds));
    assert_eq!(good.validate(&party(8)), Err(EscrowError::ConstraintSeeds));
}

#[test]
fn refund_returns_the_whole_vault() {
    let ctx = refund_accounts();
    let bumps = ctx.validate(&program()).unwrap();
    let seeds = SignerSeeds { role: Role::Vault, sender: party(1), receiver: party(2), bump: bumps.vault };
    assert_eq!(
        refund(&ctx, &bumps),
        vec![Transfer { from: ctx.vault, to: party(1), amount: Amount::Balance, seeds: Some(seeds) }]
    );
}

use anchor_lang::prelude::Pubkey;
use anchor_lang::solana_program::system_instruction;
use dropsome::address::{derive_address, Role};
use dropsome::errors::EscrowError;
use dropsome::identity::Identity;
use dropsome::ledger::Ledger;
use dropsome::transfer::{AccountMeta, Amount, SignerSeeds, Transfer};

fn who(tag: u8) -> Identity {
    Identity::new([tag; 32])
}

fn signed(from: Identity, to: Identity, lamports: u64) -> Transfer {
    Transfer { from, to, amount: Amount::Exact(lamports), seeds: None }
}

fn funded(holder: Identity, lamports: u64) -> Ledger {
    let mut ledger = Ledger::new(who(7), None, 0);
    assert!(ledger.fund(&holder, lamports));
    ledger
}

#[test]
fn amount_is_exact_or_the_whole_balance() {
    assert_eq!(Amount::Exact(5).units(100), 5);
    assert_eq!(Amount::Exact(500).units(100), 500);
    assert_eq!(Amount::Balance.units(100), 100);
    assert_eq!(Amount::Balance.units(0), 0);
}

#[test]
fn instruction_is_the_system_transfer() {
    let ix = signed(who(1), who(2), 0x0102_0304_0506_0708).instruction(0);
    assert_eq!(ix.program_id, Identity::default());
    assert_eq!(
        ix.accounts,
        vec![
            AccountMeta { pubkey: who(1), is_signer: true, is_writable: true },
            AccountMeta { pubkey: who(2), is_signer: false, is_writable: true },
        ]
    );
    assert_eq!(ix.data, vec![2, 0, 0, 0, 8, 7, 6, 5, 4, 3, 2, 1]);
}

#[test]
fn instruction_matches_the_ledgers_builder() {
    let built = system_instruction::transfer(
        &Pubkey::new_from_array([1u8; 32]),
        &Pubkey::new_from_array([2u8; 32]),
        10_000,
    );
    let ix = signed(who(1), who(2), 10_000).instruction(77);
    assert_eq!(ix.program_id.to_bytes(), built.program_id.to_bytes());
    assert_eq!(ix.data, built.data);
    assert_eq!(ix.accounts.len(), built.accounts.len());
    for (mine, theirs) in ix.accounts.iter().zip(built.accounts.iter()) {
        assert_eq!(mine.pubkey.to_bytes(), theirs.pubkey.to_bytes());
        assert_eq!(mine.is_signer, theirs.is_signer);
        assert_eq!(mine.is_writable, theirs.is_writable);
    }
}

#[test]
fn instruction_of_a_whole_balance_carries_the_balance() {
    let all = Transfer { from: who(1), to: who(2), amount: Amount::Balance, seeds: None };
    assert_eq!(all.instruction(900_880).data, vec![2, 0, 0, 0, 0x10, 0xbf, 0x0d, 0, 0, 0, 0, 0]);
    assert_eq!(all.instruction(0).data, vec![2, 0, 0, 0, 0, 0, 0, 0, 0, 0, 0, 0]);
    assert_eq!(all.instruction(u64::MAX).data, vec![2, 0, 0, 0, 255, 255, 255, 255, 255, 255, 255, 255]);
}

#[test]
fn transfer_moves_funds() {
    let mut ledger = funded(who(1), 1000);
    assert_eq!(ledger.transfer(&signed(who(1), who(2), 300), &who(1)), Ok(()));
    assert_eq!(ledger.balance(&who(1)), 700);
    assert_eq!(ledger.balance(&who(2)), 300);
    assert_eq!(ledger.total(), 1000);
}

#[test]
fn transfer_of_everything_empties_the_source() {
    let mut ledger = funded(who(1), 1000);
    let all = Transfer { from: who(1), to: who(2), amount: Amount::Balance, seeds: None };
    assert_eq!(ledger.transfer(&all, &who(1)), Ok(()));
    assert_eq!(ledger.balance(&who(1)), 0);
    assert_eq!(ledger.balance(&who(2)), 1000);
}

#[test]
fn transfer_to_oneself_changes_nothing() {
    let mut ledger = funded(who(1), 1000);
    assert_eq!(ledger.transfer(&signed(who(1), who(1), 400), &who(1)), Ok(()));
    assert_eq!(ledger.balance(&who(1)), 1000);
    assert_eq!(ledger.total(), 1000);
}

#[test]
fn transfer_of_nothing_from_an_unknown_address_succeeds() {
    let mut ledger = funded(who(1), 1000);
    assert_eq!(ledger.transfer(&signed(who(3), who(2), 0), &who(3)), Ok(()));
    assert_eq!(ledger.balance(&who(3)), 0);
    assert_eq!(ledger.balance(&who(2)), 0);
}

#[test]
fn transfer_fails_without_funds() {
    let mut ledger = funded(who(1), 1000);
    assert_eq!(ledger.transfer(&signed(who(1), who(2), 1001), &who(1)), Err(EscrowError::InsufficientFunds));
    assert_eq!(ledger.balance(&who(1)), 1000);
    assert_eq!(ledger.balance(&who(2)), 0);
    assert_eq!(ledger.transfer(&signed(who(3), who(2), 1), &who(3)), Err(EscrowError::InsufficientFunds));
}

#[test]
fn transfer_fails_without_signature() {
    let mut ledger = funded(who(1), 1000);
    assert_eq!(
        ledger.transfer(&signed(who(1), who(2), 300), &who(2)),
        Err(EscrowError::MissingRequiredSignature)
    );
    assert_eq!(ledger.balance(&who(1)), 1000);
    assert_eq!(ledger.balance(&who(2)), 0);
}

#[test]
fn signature_is_looked_at_before_funds() {
    let mut ledger = funded(who(1), 1000);
    assert_eq!(
        ledger.transfer(&signed(who(1), who(2), 5000), &who(2)),
        Err(EscrowError::MissingRequiredSignature)
    );
}

#[test]
fn seeds_stand_in_for_a_vaults_signature() {
    let program = who(7);
    let (vault, bump) = derive_address(Role::Vault, &who(1), &who(2), &program).unwrap();
    let mut ledger = funded(vault, 1000);
    let seeds = SignerSeeds { role: Role::Vault, sender: who(1), receiver: who(2), bump };
    let out = Transfer { from: vault, to: who(2), amount: Amount::Exact(400), seeds: Some(seeds) };
    assert!(out.is_authorized(&who(2), &program));
    assert_eq!(ledger.transfer(&out, &who(2)), Ok(()));
    assert_eq!(ledger.balance(&vault), 600);
    assert_eq!(ledger.balance(&who(2)), 400);

    let unproved = Transfer { seeds: None, ..out };
    assert!(!unproved.is_authorized(&who(2), &program));
    assert_eq!(ledger.transfer(&unproved, &who(2)), Err(EscrowError::MissingRequiredSignature));
    let foreign = Transfer { seeds: Some(SignerSeeds { sender: who(3), ..seeds }), ..out };
    assert_eq!(ledger.transfer(&foreign, &who(2)), Err(EscrowError::MissingRequiredSignature));
    assert_eq!(ledger.balance(&vault), 600);
}

#[test]
fn plan_runs_in_order() {
    let mut ledger = funded(who(1), 1000);
    let plan = vec![
        signed(who(1), who(2), 600),
        Transfer { from: who(1), to: who(3), amount: Amount::Balance, seeds: None },
    ];
    assert_eq!(ledger.execute(&plan, &who(1)), Ok(()));
    assert_eq!(ledger.balance(&who(1)), 0);
    assert_eq!(ledger.balance(&who(2)), 600);
    assert_eq!(ledger.balance(&who(3)), 400);
    assert_eq!(ledger.total(), 1000);
}

#[test]
fn plan_is_all_or_nothing() {
    let mut ledger = funded(who(1), 1000);
    let plan = vec![signed(who(1), who(2), 600), signed(who(1), who(3), 600)];
    assert_eq!(ledger.execute(&plan, &who(1)), Err(EscrowError::InsufficientFunds));
    assert_eq!(ledger.balance(&who(1)), 1000);
    assert_eq!(ledger.balance(&who(2)), 0);
    assert_eq!(ledger.balance(&who(3)), 0);
    let unsigned = vec![signed(who(1), who(2), 600), signed(who(2), who(3), 100)];
    assert_eq!(ledger.execute(&unsigned, &who(1)), Err(EscrowError::MissingRequiredSignature));
    assert_eq!(ledger.balance(&who(1)), 1000);
    assert_eq!(ledger.balance(&who(2)), 0);
}

#[test]
fn empty_plan_succeeds() {
    let mut ledger = funded(who(1), 1000);
    assert_eq!(ledger.execute(&Vec::new(), &who(9)), Ok(()));
    assert_eq!(ledger.balance(&who(1)), 1000);
}

#[test]
fn funds_beyond_the_widest_amount_are_refused() {
    let mut ledger = funded(who(1), u64::MAX - 10);
    assert!(!ledger.fund(&who(2), 11));
    assert_eq!(ledger.balance(&who(2)), 0);
    assert_eq!(ledger.total(), u64::MAX - 10);
    assert!(ledger.fund(&who(2), 10));
    assert_eq!(ledger.balance(&who(2)), 10);
    assert_eq!(ledger.total(), u64::MAX);
    assert!(!ledger.fund(&who(1), 1));
    assert!(ledger.fund(&who(1), 0));
    assert_eq!(ledger.transfer(&signed(who(1), who(2), u64::MAX - 10), &who(1)), Ok(()));
    assert_eq!(ledger.balance(&who(2)), u64::MAX);
    assert_eq!(ledger.balance(&who(1)), 0);
}

#[test]
fn new_ledger_is_empty() {
    let ledger = Ledger::new(who(7), Some(who(1)), 890_880);
    assert_eq!(ledger.program_id(), who(7));
    assert_eq!(ledger.rent_floor(), 890_880);
    assert!(!ledger.app_state().is_initialized);
    assert_eq!(ledger.balance(&who(1)), 0);
    assert_eq!(ledger.record(&who(1)), None);
    assert_eq!(ledger.total(), 0);
}

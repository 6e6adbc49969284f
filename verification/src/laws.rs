//! What holds of the escrow whatever its callers do: funds are conserved, a
//! pair of principals has at most one open deposit, a deposit is resolved at
//! most once, and the fee rate never exceeds the whole amount.

use vstd::prelude::*;
use crate::address::{pair_address, Role};
use crate::errors::{DropSomeError, EscrowError};
use crate::identity::Identity;
use crate::instructions::claim::claim_transfers;
use crate::instructions::drop::{drop_outcome, drop_transfers, service_fee};
use crate::instructions::init::{initialize_outcome, AppStateParameters};
use crate::instructions::refund::refund_transfers;
use crate::instructions::update::update_outcome;
use crate::ledger::LedgerState;
use crate::states::{AppState, Record, MAX_FEE_BASIS_POINTS};
use crate::transfer::{moved, plan_outcome, Transfer};

verus! {

/// The vault of a pair: the address derived for it in the vault's role.
pub open spec fn vault_of(state: LedgerState, sender: Identity, receiver: Identity) -> Identity {
    pair_address(Role::Vault, sender, receiver, state.program_id).unwrap().0
}

/// The address at which the record of a pair lies.
pub open spec fn record_address_of(state: LedgerState, sender: Identity, receiver: Identity) -> Identity {
    pair_address(Role::Record, sender, receiver, state.program_id).unwrap().0
}

/// The fee that the ledger's configuration puts on a deposit of the amount.
pub open spec fn fee_of(state: LedgerState, amount: u64) -> nat {
    service_fee(amount, state.app_state.fee_basis_points)
}

/// A deposit that succeeds, step by step: the sender could pay each of the
/// three parts in turn, the balances are those after the three movements,
/// and the one new record is that of the deposit, at the address of its
/// pair, where no record was open.
pub proof fn lemma_deposit_moves(
    before: LedgerState,
    sender: Identity,
    receiver: Identity,
    amount: u64,
    after: LedgerState,
)
    requires
        before.drop(sender, receiver, amount) == Ok::<LedgerState, EscrowError>(after),
    ensures
        before.balances[receiver] == 0,
        ({
            let reserve = before.app_state.network_fee_reserve as nat;
            let funds = (amount + before.rent_floor) as nat;
            let first = moved(before.balances, sender, receiver, reserve);
            let second = moved(first, sender, vault_of(before, sender, receiver), funds);
            &&& before.balances[sender] >= reserve
            &&& first[sender] >= funds
            &&& second[sender] >= fee_of(before, amount)
            &&& after.balances == moved(second, sender, before.app_state.treasury, fee_of(before, amount))
        }),
        !before.records.dom().contains(record_address_of(before, sender, receiver)),
        after.records == before.records.insert(
            record_address_of(before, sender, receiver),
            Record { sender, receiver, vault: vault_of(before, sender, receiver), amount },
        ),
        after.app_state == before.app_state,
        after.rent_floor == before.rent_floor,
        after.program_id == before.program_id,
        after.upgrade_authority == before.upgrade_authority,
{
    let vault = vault_of(before, sender, receiver);
    let record_address = record_address_of(before, sender, receiver);
    let ctx = before.drop_accounts(sender, receiver, vault, record_address);
    let transfers = drop_transfers(ctx, amount, before.rent_floor);
    assert(ctx.constraints(before.program_id) is Ok);
    assert(drop_outcome(ctx, amount, before.rent_floor) is Ok);
    reveal_with_fuel(plan_outcome, 4);
    let first = transfers[0].outcome(before.balances, sender, before.program_id);
    assert(first is Ok);
    assert(transfers.drop_first()[0] == transfers[1]);
    let second = transfers[1].outcome(first.unwrap(), sender, before.program_id);
    assert(second is Ok);
    assert(transfers.drop_first().drop_first()[0] == transfers[2]);
    let third = transfers[2].outcome(second.unwrap(), sender, before.program_id);
    assert(third is Ok);
    assert(transfers.drop_first().drop_first().drop_first().len() == 0);
    assert(after.balances == third.unwrap());
}

/// A claim that succeeds, step by step: the record was open and the caller
/// is its receiver, the vault held the principal, the balances are those
/// after the principal went to the caller and the rest of the vault to the
/// sender, and the record is closed.
pub proof fn lemma_claim_moves(before: LedgerState, caller: Identity, record_address: Identity, after: LedgerState)
    requires
        before.claim(caller, record_address) == Ok::<LedgerState, EscrowError>(after),
    ensures
        before.records.dom().contains(record_address),
        before.records[record_address].receiver == caller,
        before.balances[before.records[record_address].vault] >= before.records[record_address].amount,
        after.balances == ({
            let record = before.records[record_address];
            let paid = moved(before.balances, record.vault, caller, record.amount as nat);
            moved(paid, record.vault, record.sender, paid[record.vault])
        }),
        after.records == before.records.remove(record_address),
        after.app_state == before.app_state,
        after.rent_floor == before.rent_floor,
        after.program_id == before.program_id,
        after.upgrade_authority == before.upgrade_authority,
{
    let ctx = before.claim_accounts(caller, record_address);
    let bumps = ctx.constraints(before.program_id).unwrap();
    let transfers = claim_transfers(ctx, bumps);
    reveal_with_fuel(plan_outcome, 3);
    let first = transfers[0].outcome(before.balances, caller, before.program_id);
    assert(first is Ok);
    assert(transfers.drop_first()[0] == transfers[1]);
    let second = transfers[1].outcome(first.unwrap(), caller, before.program_id);
    assert(second is Ok);
    assert(transfers.drop_first().drop_first().len() == 0);
    assert(after.balances == second.unwrap());
}

/// A refund that succeeds, step by step: the record was open and the caller
/// is its sender, the balances are those after everything in the vault went
/// to the caller, and the record is closed.
pub proof fn lemma_refund_moves(before: LedgerState, caller: Identity, record_address: Identity, after: LedgerState)
    requires
        before.refund(caller, record_address) == Ok::<LedgerState, EscrowError>(after),
    ensures
        before.records.dom().contains(record_address),
        before.records[record_address].sender == caller,
        after.balances == ({
            let record = before.records[record_address];
            moved(before.balances, record.vault, caller, before.balances[record.vault])
        }),
        after.records == before.records.remove(record_address),
        after.app_state == before.app_state,
        after.rent_floor == before.rent_floor,
        after.program_id == before.program_id,
        after.upgrade_authority == before.upgrade_authority,
{
    let ctx = before.refund_accounts(caller, record_address);
    let bumps = ctx.constraints(before.program_id).unwrap();
    let transfers = refund_transfers(ctx, bumps);
    reveal_with_fuel(plan_outcome, 2);
    let first = transfers[0].outcome(before.balances, caller, before.program_id);
    assert(first is Ok);
    assert(transfers.drop_first().len() == 0);
    assert(after.balances == first.unwrap());
}

/// Conservation at the sender: a deposit that succeeds costs the sender the
/// network fee reserve, the amount, the rent floor and the service fee, and
/// nothing else. A part that the sender pays to itself is not a cost, so
/// each of the three parts must be zero where the sender is also the one
/// who receives it.
pub proof fn lemma_deposit_conserves_sender(
    before: LedgerState,
    sender: Identity,
    receiver: Identity,
    amount: u64,
    after: LedgerState,
)
    requires
        before.drop(sender, receiver, amount) == Ok::<LedgerState, EscrowError>(after),
        sender == receiver ==> before.app_state.network_fee_reserve == 0,
        sender == vault_of(before, sender, receiver) ==> amount + before.rent_floor == 0,
        sender == before.app_state.treasury ==> fee_of(before, amount) == 0,
    ensures
        before.balances[sender] == after.balances[sender] + before.app_state.network_fee_reserve + amount
            + before.rent_floor + fee_of(before, amount),
{
    lemma_deposit_moves(before, sender, receiver, amount, after);
}

/// What a deposit that succeeds gives to the others: the receiver has the
/// network fee reserve, the vault has the amount and the rent floor more
/// than before, and the treasury has the fee more than before, where the
/// four addresses differ from one another.
pub proof fn lemma_deposit_pays_out(
    before: LedgerState,
    sender: Identity,
    receiver: Identity,
    amount: u64,
    after: LedgerState,
)
    requires
        before.drop(sender, receiver, amount) == Ok::<LedgerState, EscrowError>(after),
        sender != receiver,
        sender != vault_of(before, sender, receiver),
        sender != before.app_state.treasury,
        receiver != vault_of(before, sender, receiver),
        receiver != before.app_state.treasury,
        vault_of(before, sender, receiver) != before.app_state.treasury,
    ensures
        after.balances[receiver] == before.app_state.network_fee_reserve,
        after.balances[vault_of(before, sender, receiver)] == before.balances[vault_of(
            before,
            sender,
            receiver,
        )] + amount + before.rent_floor,
        after.balances[before.app_state.treasury] == before.balances[before.app_state.treasury] + fee_of(
            before,
            amount,
        ),
{
    lemma_deposit_moves(before, sender, receiver, amount, after);
}

/// What a claim that succeeds moves: the receiver has the principal more
/// than before, the sender has the rest of what the vault held, and the
/// vault holds nothing; where the three addresses differ from one another.
pub proof fn lemma_claim_pays_out(
    before: LedgerState,
    caller: Identity,
    record_address: Identity,
    after: LedgerState,
)
    requires
        before.claim(caller, record_address) == Ok::<LedgerState, EscrowError>(after),
        before.records[record_address].sender != caller,
        before.records[record_address].vault != caller,
        before.records[record_address].vault != before.records[record_address].sender,
    ensures
        after.balances[caller] == before.balances[caller] + before.records[record_address].amount,
        after.balances[before.records[record_address].sender] == before.balances[before.records[record_address].sender]
            + before.balances[before.records[record_address].vault] - before.records[record_address].amount,
        after.balances[before.records[record_address].vault] == 0,
{
    lemma_claim_moves(before, caller, record_address, after);
}

/// What a refund that succeeds moves: the sender has everything that the
/// vault held more than before, and the vault holds nothing; where the
/// vault is not the sender.
pub proof fn lemma_refund_pays_out(
    before: LedgerState,
    caller: Identity,
    record_address: Identity,
    after: LedgerState,
)
    requires
        before.refund(caller, record_address) == Ok::<LedgerState, EscrowError>(after),
        before.records[record_address].vault != caller,
    ensures
        after.balances[caller] == before.balances[caller] + before.balances[before.records[record_address].vault],
        after.balances[before.records[record_address].vault] == 0,
{
    lemma_refund_moves(before, caller, record_address, after);
}

/// A deposit can be claimed at once: after a deposit that succeeds, the
/// claim of its record by its receiver succeeds. Where the sender, the
/// receiver, the vault and the treasury differ from one another, the
/// receiver then holds the network fee reserve and the amount, the treasury
/// has the fee, the vault holds nothing, and the sender has paid the
/// reserve, the amount and the fee, and has the rent floor back together
/// with whatever the vault held before.
pub proof fn lemma_deposit_then_claim(
    before: LedgerState,
    sender: Identity,
    receiver: Identity,
    amount: u64,
    opened: LedgerState,
)
    requires
        before.drop(sender, receiver, amount) == Ok::<LedgerState, EscrowError>(opened),
        sender != receiver,
        sender != vault_of(before, sender, receiver),
        sender != before.app_state.treasury,
        receiver != vault_of(before, sender, receiver),
        receiver != before.app_state.treasury,
        vault_of(before, sender, receiver) != before.app_state.treasury,
    ensures
        opened.claim(receiver, record_address_of(before, sender, receiver)) matches Ok(after) && {
            &&& after.balances[receiver] == before.app_state.network_fee_reserve + amount
            &&& after.balances[before.app_state.treasury] == before.balances[before.app_state.treasury]
                + fee_of(before, amount)
            &&& after.balances[vault_of(before, sender, receiver)] == 0
            &&& after.balances[sender] + before.app_state.network_fee_reserve + amount + fee_of(before, amount)
                == before.balances[sender] + before.balances[vault_of(before, sender, receiver)]
            &&& after.records == before.records
        },
{
    lemma_deposit_moves(before, sender, receiver, amount, opened);
    let record_address = record_address_of(before, sender, receiver);
    let ctx = opened.claim_accounts(receiver, record_address);
    assert(ctx.constraints(opened.program_id) is Ok);
    let transfers = claim_transfers(ctx, ctx.constraints(opened.program_id).unwrap());
    reveal_with_fuel(plan_outcome, 3);
    let first = transfers[0].outcome(opened.balances, receiver, opened.program_id);
    assert(first is Ok);
    assert(transfers.drop_first()[0] == transfers[1]);
    assert(transfers[1].outcome(first.unwrap(), receiver, opened.program_id) is Ok);
    assert(transfers.drop_first().drop_first().len() == 0);
    let after = opened.claim(receiver, record_address).unwrap();
    lemma_claim_moves(opened, receiver, record_address, after);
    assert(after.records =~= before.records);
}

/// A deposit can be refunded at once: after a deposit that succeeds, the
/// refund of its record to its sender succeeds. Where the sender, the
/// receiver, the vault and the treasury differ from one another, the
/// receiver then keeps the network fee reserve, the treasury keeps the fee,
/// the vault holds nothing, and the sender has paid the reserve and the
/// fee, and has the amount and the rent floor back together with whatever
/// the vault held before.
pub proof fn lemma_deposit_then_refund(
    before: LedgerState,
    sender: Identity,
    receiver: Identity,
    amount: u64,
    opened: LedgerState,
)
    requires
        before.drop(sender, receiver, amount) == Ok::<LedgerState, EscrowError>(opened),
        sender != receiver,
        sender != vault_of(before, sender, receiver),
        sender != before.app_state.treasury,
        receiver != vault_of(before, sender, receiver),
        receiver != before.app_state.treasury,
        vault_of(before, sender, receiver) != before.app_state.treasury,
    ensures
        opened.refund(sender, record_address_of(before, sender, receiver)) matches Ok(after) && {
            &&& after.balances[receiver] == before.app_state.network_fee_reserve
            &&& after.balances[before.app_state.treasury] == before.balances[before.app_state.treasury]
                + fee_of(before, amount)
            &&& after.balances[vault_of(before, sender, receiver)] == 0
            &&& after.balances[sender] + before.app_state.network_fee_reserve + fee_of(before, amount)
                == before.balances[sender] + before.balances[vault_of(before, sender, receiver)]
            &&& after.records == before.records
        },
{
    lemma_deposit_moves(before, sender, receiver, amount, opened);
    let record_address = record_address_of(before, sender, receiver);
    let ctx = opened.refund_accounts(sender, record_address);
    assert(ctx.constraints(opened.program_id) is Ok);
    let transfers = refund_transfers(ctx, ctx.constraints(opened.program_id).unwrap());
    reveal_with_fuel(plan_outcome, 2);
    assert(transfers[0].outcome(opened.balances, sender, opened.program_id) is Ok);
    assert(transfers.drop_first().len() == 0);
    let after = opened.refund(sender, record_address).unwrap();
    lemma_refund_moves(opened, sender, record_address, after);
    assert(after.records =~= before.records);
}

/// A deposit takes funds from its sender alone: where it succeeds, every
/// other address holds at least what it held.
pub proof fn lemma_deposit_debits_only_sender(
    before: LedgerState,
    sender: Identity,
    receiver: Identity,
    amount: u64,
    after: LedgerState,
    who: Identity,
)
    requires
        before.drop(sender, receiver, amount) == Ok::<LedgerState, EscrowError>(after),
        who != sender,
    ensures
        after.balances[who] >= before.balances[who],
{
    lemma_deposit_moves(before, sender, receiver, amount, after);
}

/// A claim and a refund take funds from the record's vault alone: where one
/// succeeds, every other address holds at least what it held.
pub proof fn lemma_resolution_debits_only_vault(
    before: LedgerState,
    caller: Identity,
    record_address: Identity,
    who: Identity,
)
    requires
        who != before.records[record_address].vault,
    ensures
        before.claim(caller, record_address) matches Ok(after) ==> after.balances[who] >= before.balances[who],
        before.refund(caller, record_address) matches Ok(after) ==> after.balances[who] >= before.balances[who],
{
    if let Ok(after) = before.claim(caller, record_address) {
        lemma_claim_moves(before, caller, record_address, after);
    }
    if let Ok(after) = before.refund(caller, record_address) {
        lemma_refund_moves(before, caller, record_address, after);
    }
}

/// Funds leave an address only under its authority: a transfer that
/// succeeds was signed by its source, or carries the seeds that prove the
/// source to be the program's own.
pub proof fn lemma_transfer_needs_authority(
    balances: Map<Identity, nat>,
    transfer: Transfer,
    signer: Identity,
    program_id: Identity,
)
    requires
        transfer.outcome(balances, signer, program_id) is Ok,
    ensures
        transfer.from == signer || (transfer.seeds matches Some(seeds) && seeds.proves(transfer.from, program_id)),
{
}

/// Every open record is backed: its vault holds at least the principal and
/// the rent floor.
pub open spec fn backed(state: LedgerState) -> bool {
    forall|address: Identity| #[trigger]
        state.records.dom().contains(address) ==> state.balances[state.records[address].vault]
            >= state.records[address].amount + state.rent_floor
}

/// No two open records share a vault.
pub open spec fn vaults_apart(state: LedgerState) -> bool {
    forall|first: Identity, second: Identity|
        #![trigger state.records[first], state.records[second]]
        state.records.dom().contains(first) && state.records.dom().contains(second) && first != second
            ==> state.records[first].vault != state.records[second].vault
}

/// No open record has the address as its vault.
pub open spec fn not_a_vault(state: LedgerState, who: Identity) -> bool {
    forall|address: Identity| #[trigger]
        state.records.dom().contains(address) ==> state.records[address].vault != who
}

/// An open record that is backed is never left dangling: its receiver can
/// claim it, and its sender can have it refunded.
pub proof fn lemma_backed_record_can_be_resolved(state: LedgerState, record_address: Identity)
    requires
        state.wf(),
        backed(state),
        state.records.dom().contains(record_address),
    ensures
        state.claim(state.records[record_address].receiver, record_address) is Ok,
        state.refund(state.records[record_address].sender, record_address) is Ok,
{
    let record = state.records[record_address];
    assert(state.record_in_place(record_address, record));
    reveal_with_fuel(plan_outcome, 3);
    let claiming = state.claim_accounts(record.receiver, record_address);
    let to_claim = claim_transfers(claiming, claiming.constraints(state.program_id).unwrap());
    let first = to_claim[0].outcome(state.balances, record.receiver, state.program_id);
    assert(first is Ok);
    assert(to_claim.drop_first()[0] == to_claim[1]);
    assert(to_claim[1].outcome(first.unwrap(), record.receiver, state.program_id) is Ok);
    assert(to_claim.drop_first().drop_first().len() == 0);
    let refunding = state.refund_accounts(record.sender, record_address);
    let to_refund = refund_transfers(refunding, refunding.constraints(state.program_id).unwrap());
    assert(to_refund[0].outcome(state.balances, record.sender, state.program_id) is Ok);
    assert(to_refund.drop_first().len() == 0);
}

/// Where no two open records share a vault, a claim and a refund keep every
/// remaining record backed, and the vaults apart.
pub proof fn lemma_resolution_keeps_backing(state: LedgerState, caller: Identity, record_address: Identity)
    requires
        backed(state),
        vaults_apart(state),
    ensures
        state.claim(caller, record_address) matches Ok(after) ==> backed(after) && vaults_apart(after),
        state.refund(caller, record_address) matches Ok(after) ==> backed(after) && vaults_apart(after),
{
    if let Ok(after) = state.claim(caller, record_address) {
        lemma_claim_moves(state, caller, record_address, after);
        lemma_remaining_stay_backed(state, record_address, after);
    }
    if let Ok(after) = state.refund(caller, record_address) {
        lemma_refund_moves(state, caller, record_address, after);
        lemma_remaining_stay_backed(state, record_address, after);
    }
}

/// Closing one record and taking funds from its vault alone keeps the other
/// records backed and the vaults apart.
proof fn lemma_remaining_stay_backed(state: LedgerState, record_address: Identity, after: LedgerState)
    requires
        backed(state),
        vaults_apart(state),
        state.records.dom().contains(record_address),
        after.records == state.records.remove(record_address),
        after.rent_floor == state.rent_floor,
        forall|who: Identity|
            who != state.records[record_address].vault ==> #[trigger] after.balances[who]
                >= state.balances[who],
    ensures
        backed(after),
        vaults_apart(after),
{
    assert forall|address: Identity| #[trigger]
        after.records.dom().contains(address) implies after.balances[after.records[address].vault]
        >= after.records[address].amount + after.rent_floor by {
        assert(state.records.dom().contains(address));
        assert(state.records[address].vault != state.records[record_address].vault);
    }
    assert forall|first: Identity, second: Identity|
        #![trigger after.records[first], after.records[second]]
        after.records.dom().contains(first) && after.records.dom().contains(second) && first
            != second implies after.records[first].vault != after.records[second].vault by {
        assert(state.records[first].vault != state.records[second].vault);
    }
}

/// Where the sender is no vault, neither of an open record nor of its own
/// deposit, and the vault of the deposit is not yet the vault of an open
/// record, a deposit keeps every record backed, the new one too, and the
/// vaults apart.
pub proof fn lemma_deposit_keeps_backing(
    before: LedgerState,
    sender: Identity,
    receiver: Identity,
    amount: u64,
    after: LedgerState,
)
    requires
        backed(before),
        vaults_apart(before),
        before.drop(sender, receiver, amount) == Ok::<LedgerState, EscrowError>(after),
        not_a_vault(before, sender),
        not_a_vault(before, vault_of(before, sender, receiver)),
        sender != vault_of(before, sender, receiver),
    ensures
        backed(after),
        vaults_apart(after),
{
    let record_address = record_address_of(before, sender, receiver);
    lemma_deposit_moves(before, sender, receiver, amount, after);
    assert forall|address: Identity| #[trigger]
        after.records.dom().contains(address) implies after.balances[after.records[address].vault]
        >= after.records[address].amount + after.rent_floor by {
        if address != record_address {
            assert(before.records.dom().contains(address));
        }
    }
    assert forall|first: Identity, second: Identity|
        #![trigger after.records[first], after.records[second]]
        after.records.dom().contains(first) && after.records.dom().contains(second) && first
            != second implies after.records[first].vault != after.records[second].vault by {
        if first != record_address && second != record_address {
            assert(before.records[first].vault != before.records[second].vault);
        } else if first == record_address {
            assert(before.records.dom().contains(second));
        } else {
            assert(before.records.dom().contains(first));
        }
    }
}

/// Exclusivity: on a well-formed ledger two open records of the same sender
/// and receiver lie at the same address, so they are one record.
pub proof fn lemma_one_record_per_pair(state: LedgerState, first: Identity, second: Identity)
    requires
        state.wf(),
        state.records.dom().contains(first),
        state.records.dom().contains(second),
        state.records[first].sender == state.records[second].sender,
        state.records[first].receiver == state.records[second].receiver,
    ensures
        first == second,
{
    assert(state.record_in_place(first, state.records[first]));
    assert(state.record_in_place(second, state.records[second]));
}

/// Exclusivity: while a record of a pair is open, a further deposit from its
/// sender for its receiver is refused, whatever the amount.
pub proof fn lemma_second_deposit_refused(state: LedgerState, open: Identity, amount: u64)
    requires
        state.wf(),
        state.records.dom().contains(open),
    ensures
        state.drop(state.records[open].sender, state.records[open].receiver, amount) == Err::<
            LedgerState,
            EscrowError,
        >(EscrowError::AccountAlreadyInUse),
{
    assert(state.record_in_place(open, state.records[open]));
}

/// Resolution exclusivity: once a claim or a refund has succeeded, every
/// further claim and every further refund of the same record, by whomever,
/// finds no record.
pub proof fn lemma_resolved_is_final(
    before: LedgerState,
    caller: Identity,
    record_address: Identity,
    after: LedgerState,
    next: Identity,
)
    requires
        before.claim(caller, record_address) == Ok::<LedgerState, EscrowError>(after) || before.refund(
            caller,
            record_address,
        ) == Ok::<LedgerState, EscrowError>(after),
    ensures
        after.claim(next, record_address) == Err::<LedgerState, EscrowError>(EscrowError::AccountNotInitialized),
        after.refund(next, record_address) == Err::<LedgerState, EscrowError>(
            EscrowError::AccountNotInitialized,
        ),
{
}

/// Every operation that succeeds takes a well-formed ledger to a
/// well-formed ledger.
pub proof fn lemma_operations_keep_wf(
    state: LedgerState,
    caller: Identity,
    other: Identity,
    amount: u64,
    parameters: AppStateParameters,
)
    requires
        state.wf(),
    ensures
        state.initialize(caller, parameters) matches Ok(after) ==> after.wf(),
        state.update_state(caller, parameters) matches Ok(after) ==> after.wf(),
        state.drop(caller, other, amount) matches Ok(after) ==> after.wf(),
        state.claim(caller, other) matches Ok(after) ==> after.wf(),
        state.refund(caller, other) matches Ok(after) ==> after.wf(),
        state.fund(caller, amount).wf(),
{
    if let Ok(after) = state.drop(caller, other, amount) {
        lemma_deposit_moves(state, caller, other, amount, after);
        let record_address = record_address_of(state, caller, other);
        assert forall|address: Identity| #[trigger]
            after.records.dom().contains(address) implies after.record_in_place(
            address,
            after.records[address],
        ) by {
            if address != record_address {
                assert(state.records.dom().contains(address));
            }
        }
    }
    if let Ok(after) = state.claim(caller, other) {
        assert forall|address: Identity| #[trigger]
            after.records.dom().contains(address) implies after.record_in_place(
            address,
            after.records[address],
        ) by {
            assert(state.records.dom().contains(address));
        }
    }
    if let Ok(after) = state.refund(caller, other) {
        assert forall|address: Identity| #[trigger]
            after.records.dom().contains(address) implies after.record_in_place(
            address,
            after.records[address],
        ) by {
            assert(state.records.dom().contains(address));
        }
    }
}

/// With a rate of at most the whole amount, the fee is at most the amount.
pub proof fn lemma_fee_at_most_amount(amount: u64, fee_basis_points: u16)
    requires
        fee_basis_points <= MAX_FEE_BASIS_POINTS,
    ensures
        service_fee(amount, fee_basis_points) <= amount,
{
    assert(amount as nat * fee_basis_points as nat <= amount as nat * 10_000) by (nonlinear_arith)
        requires
            fee_basis_points <= 10_000,
    ;
}

/// The fee bound: a fee rate above the whole amount is refused by the first
/// configuration and by every change; on a configuration that was never
/// set, every rate up to the whole amount is accepted by the first
/// configuration; the stored authority can change a set configuration to
/// every rate up to the whole amount; and whatever either of them stores
/// has a rate of at most the whole amount.
pub proof fn lemma_fee_bound(state: AppState, caller: Identity, parameters: AppStateParameters)
    ensures
        parameters.fee_basis_points > MAX_FEE_BASIS_POINTS ==> initialize_outcome(state, parameters) is Err
            && update_outcome(state, caller, parameters) is Err,
        parameters.fee_basis_points > MAX_FEE_BASIS_POINTS && !state.is_initialized ==> initialize_outcome(
            state,
            parameters,
        ) == Err::<AppState, EscrowError>(EscrowError::Policy(DropSomeError::FeeBasisPointsTooHigh)),
        parameters.fee_basis_points > MAX_FEE_BASIS_POINTS && state.is_initialized && state.authority
            == caller ==> update_outcome(state, caller, parameters) == Err::<AppState, EscrowError>(
            EscrowError::Policy(DropSomeError::FeeBasisPointsTooHigh),
        ),
        parameters.fee_basis_points <= MAX_FEE_BASIS_POINTS && !state.is_initialized ==> initialize_outcome(
            state,
            parameters,
        ) == Ok::<AppState, EscrowError>(parameters.configured()),
        parameters.fee_basis_points <= MAX_FEE_BASIS_POINTS && state.is_initialized && state.authority
            == caller ==> update_outcome(state, caller, parameters) == Ok::<AppState, EscrowError>(
            parameters.configured(),
        ),
        initialize_outcome(state, parameters) matches Ok(after) ==> after.fee_in_range(),
        update_outcome(state, caller, parameters) matches Ok(after) ==> after.fee_in_range(),
{
}

/// A change of configuration to the parameters that the configuration
/// already holds changes nothing: where it succeeds, the configuration
/// after it is the configuration before it; and it succeeds for the stored
/// authority on a set configuration whose fee rate is in range.
pub proof fn lemma_identical_update_changes_nothing(state: AppState, caller: Identity)
    ensures
        update_outcome(state, caller, AppStateParameters::of(state)) matches Ok(after) ==> after == state,
        state.is_initialized && state.authority == caller && state.fee_in_range() ==> update_outcome(
            state,
            caller,
            AppStateParameters::of(state),
        ) == Ok::<AppState, EscrowError>(state),
{
}

/// The same on the ledger: a change to the parameters already held leaves
/// the whole ledger as it was.
pub proof fn lemma_identical_update_keeps_ledger(state: LedgerState, caller: Identity)
    ensures
        state.update_state(caller, AppStateParameters::of(state.app_state)) matches Ok(after) ==> after
            == state,
{
    lemma_identical_update_changes_nothing(state.app_state, caller);
}

} // verus!

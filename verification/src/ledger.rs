//! The ledger that the escrow runs on: who holds how much, which deposits
//! are open, and the configuration. Every operation either takes effect as a
//! whole or leaves the ledger as it was.

use vstd::prelude::*;
use crate::address::{derive_address, pair_address, Role};
use crate::errors::EscrowError;
use crate::identity::Identity;
use crate::instructions::claim::{claim_transfers, Claim};
use crate::instructions::drop::{drop_outcome, drop_some, Drop};
use crate::instructions::init::{initialize_outcome, AppStateParameters, Initialize};
use crate::instructions::refund::{refund_transfers, Refund};
use crate::instructions::update::{update_outcome, UpdateState};
use crate::states::{AppState, Record};
use crate::table::{
    as_balances, as_map, distinct, find, lemma_index_of, lemma_one_within_sum,
    lemma_push_balances, lemma_push_map, lemma_push_sum, lemma_remove_map, lemma_update_balances,
    lemma_update_map, lemma_update_sum, sum, Entry,
};
use crate::transfer::{moved, plan_outcome, Transfer};

verus! {

/// The amount as the ledger stores it: itself, or the widest amount where it
/// is wider.
pub open spec fn clip(lamports: nat) -> u64 {
    if lamports > u64::MAX {
        u64::MAX
    } else {
        lamports as u64
    }
}

/// The ledger as a value.
pub struct LedgerState {
    /// The program whose derived addresses the vaults and records are.
    pub program_id: Identity,
    /// Who the deployment names as its authority.
    pub upgrade_authority: Option<Identity>,
    /// What an address must hold to exist.
    pub rent_floor: u64,
    pub app_state: AppState,
    /// What every address holds; nothing where it never received anything.
    pub balances: Map<Identity, nat>,
    /// The open deposits, each under the address of its record.
    pub records: Map<Identity, Record>,
}

impl LedgerState {
    /// The record lies at the address derived for its pair, and names the
    /// vault derived for its pair.
    pub open spec fn record_in_place(self, address: Identity, record: Record) -> bool {
        &&& pair_address(Role::Record, record.sender, record.receiver, self.program_id) matches Some(found)
        &&& found.0 == address
        &&& pair_address(Role::Vault, record.sender, record.receiver, self.program_id) matches Some(found)
        &&& found.0 == record.vault
    }

    /// What holds of the ledger at all times: a configuration that was set
    /// has a fee rate of at most the whole amount, and every open record is
    /// in its place.
    pub open spec fn wf(self) -> bool {
        &&& self.app_state.is_initialized ==> self.app_state.fee_in_range()
        &&& forall|address: Identity| #[trigger]
            self.records.dom().contains(address) ==> self.record_in_place(
                address,
                self.records[address],
            )
    }

    /// The ledger before anything happened on it.
    pub open spec fn empty(
        program_id: Identity,
        upgrade_authority: Option<Identity>,
        rent_floor: u64,
    ) -> LedgerState {
        LedgerState {
            program_id,
            upgrade_authority,
            rent_floor,
            app_state: AppState::blank(),
            balances: Map::total(|who: Identity| 0nat),
            records: Map::empty(),
        }
    }

    /// The ledger after `who` received `lamports` from outside.
    pub open spec fn fund(self, who: Identity, lamports: u64) -> LedgerState {
        LedgerState { balances: self.balances.insert(who, self.balances[who] + lamports as nat), ..self }
    }

    /// The accounts that a first configuration by `caller` works on.
    pub open spec fn initialize_accounts(self, caller: Identity) -> Initialize {
        Initialize {
            authority: caller,
            app_state: self.app_state,
            upgrade_authority_address: self.upgrade_authority,
        }
    }

    /// The first configuration: the caller must be the deployment's
    /// authority; then as `initialize_outcome` decides.
    pub open spec fn initialize(self, caller: Identity, parameters: AppStateParameters) -> Result<
        LedgerState,
        EscrowError,
    > {
        match self.initialize_accounts(caller).constraints() {
            Err(e) => Err(e),
            Ok(_) => match initialize_outcome(self.app_state, parameters) {
                Err(e) => Err(e),
                Ok(app_state) => Ok(LedgerState { app_state, ..self }),
            },
        }
    }

    /// A change of configuration, as `update_outcome` decides.
    pub open spec fn update_state(self, caller: Identity, parameters: AppStateParameters) -> Result<
        LedgerState,
        EscrowError,
    > {
        match update_outcome(self.app_state, caller, parameters) {
            Err(e) => Err(e),
            Ok(app_state) => Ok(LedgerState { app_state, ..self }),
        }
    }

    /// The accounts that a deposit from `sender` for `receiver` works on,
    /// with the record and the vault at the given addresses.
    pub open spec fn drop_accounts(
        self,
        sender: Identity,
        receiver: Identity,
        vault: Identity,
        record_address: Identity,
    ) -> Drop {
        Drop {
            sender,
            receiver,
            receiver_lamports: clip(self.balances[receiver]),
            vault,
            record_address,
            record: Record {
                sender: Identity::zero(),
                receiver: Identity::zero(),
                vault: Identity::zero(),
                amount: 0,
            },
            app_state: self.app_state,
            treasury: self.app_state.treasury,
        }
    }

    /// A deposit of `amount` from `sender` for `receiver`. The two addresses
    /// of the pair are derived; a record that is already open at the pair's
    /// address ends the deposit; then the accounts are checked, the deposit
    /// is decided, and its transfers run. A success opens the record.
    pub open spec fn drop(self, sender: Identity, receiver: Identity, amount: u64) -> Result<
        LedgerState,
        EscrowError,
    > {
        match pair_address(Role::Record, sender, receiver, self.program_id) {
            None => Err(EscrowError::ConstraintSeeds),
            Some((record_address, _)) => match pair_address(Role::Vault, sender, receiver, self.program_id) {
                None => Err(EscrowError::ConstraintSeeds),
                Some((vault, _)) => {
                    let ctx = self.drop_accounts(sender, receiver, vault, record_address);
                    if self.records.dom().contains(record_address) {
                        Err(EscrowError::AccountAlreadyInUse)
                    } else {
                        match ctx.constraints(self.program_id) {
                            Err(e) => Err(e),
                            Ok(_) => match drop_outcome(ctx, amount, self.rent_floor) {
                                Err(e) => Err(e),
                                Ok((record, transfers)) => match plan_outcome(
                                    self.balances,
                                    transfers,
                                    sender,
                                    self.program_id,
                                ) {
                                    Err(e) => Err(e),
                                    Ok(balances) => Ok(
                                        LedgerState {
                                            balances,
                                            records: self.records.insert(record_address, record),
                                            ..self
                                        },
                                    ),
                                },
                            },
                        }
                    }
                },
            },
        }
    }

    /// The accounts that a claim by `caller` of the record at the address works on.
    pub open spec fn claim_accounts(self, caller: Identity, record_address: Identity) -> Claim {
        let record = self.records[record_address];
        Claim { receiver: caller, sender: record.sender, vault: record.vault, record_address, record }
    }

    /// A claim by `caller` of the record at the address: the record must be
    /// open; then the accounts are checked and the transfers run. A success
    /// closes the record.
    pub open spec fn claim(self, caller: Identity, record_address: Identity) -> Result<LedgerState, EscrowError> {
        if !self.records.dom().contains(record_address) {
            Err(EscrowError::AccountNotInitialized)
        } else {
            let ctx = self.claim_accounts(caller, record_address);
            match ctx.constraints(self.program_id) {
                Err(e) => Err(e),
                Ok(bumps) => match plan_outcome(
                    self.balances,
                    claim_transfers(ctx, bumps),
                    caller,
                    self.program_id,
                ) {
                    Err(e) => Err(e),
                    Ok(balances) => Ok(
                        LedgerState { balances, records: self.records.remove(record_address), ..self },
                    ),
                },
            }
        }
    }

    /// The accounts that a refund to `caller` of the record at the address works on.
    pub open spec fn refund_accounts(self, caller: Identity, record_address: Identity) -> Refund {
        let record = self.records[record_address];
        Refund { sender: caller, vault: record.vault, record_address, record }
    }

    /// A refund to `caller` of the record at the address: the record must be
    /// open; then the accounts are checked and the transfer runs. A success
    /// closes the record.
    pub open spec fn refund(self, caller: Identity, record_address: Identity) -> Result<LedgerState, EscrowError> {
        if !self.records.dom().contains(record_address) {
            Err(EscrowError::AccountNotInitialized)
        } else {
            let ctx = self.refund_accounts(caller, record_address);
            match ctx.constraints(self.program_id) {
                Err(e) => Err(e),
                Ok(bumps) => match plan_outcome(
                    self.balances,
                    refund_transfers(ctx, bumps),
                    caller,
                    self.program_id,
                ) {
                    Err(e) => Err(e),
                    Ok(balances) => Ok(
                        LedgerState { balances, records: self.records.remove(record_address), ..self },
                    ),
                },
            }
        }
    }
}

/// The ledger: balances, open records and the configuration.
pub struct Ledger {
    program_id: Identity,
    upgrade_authority: Option<Identity>,
    rent_floor: u64,
    app_state: AppState,
    accounts: Vec<Entry<u64>>,
    records: Vec<Entry<Record>>,
}

impl View for Ledger {
    type V = LedgerState;

    closed spec fn view(&self) -> LedgerState {
        LedgerState {
            program_id: self.program_id,
            upgrade_authority: self.upgrade_authority,
            rent_floor: self.rent_floor,
            app_state: self.app_state,
            balances: as_balances(self.accounts@),
            records: as_map(self.records@),
        }
    }
}

/// Copies a table of balances.
fn copy_accounts(accounts: &Vec<Entry<u64>>) -> (copy: Vec<Entry<u64>>)
    ensures
        copy@ == accounts@,
{
    let mut copy: Vec<Entry<u64>> = Vec::new();
    let mut i: usize = 0;
    while i < accounts.len()
        invariant
            i <= accounts.len(),
            copy@ == accounts@.take(i as int),
        decreases accounts.len() - i,
    {
        copy.push(Entry { key: accounts[i].key, value: accounts[i].value });
        proof {
            assert(copy@ =~= accounts@.take(i + 1));
        }
        i += 1;
    }
    proof {
        assert(accounts@.take(accounts.len() as int) =~= accounts@);
    }
    copy
}

/// What the table holds under the address.
fn held(accounts: &Vec<Entry<u64>>, who: &Identity) -> (lamports: u64)
    requires
        distinct(accounts@),
    ensures
        lamports == as_balances(accounts@)[*who],
{
    match find(accounts, who) {
        Some(i) => {
            proof {
                lemma_index_of(accounts@, i as int);
            }
            accounts[i].value
        },
        None => 0,
    }
}

/// Adds to what the table holds under the address.
fn credit(accounts: &mut Vec<Entry<u64>>, who: &Identity, lamports: u64)
    requires
        distinct(old(accounts)@),
        sum(old(accounts)@) + lamports <= u64::MAX,
    ensures
        distinct(final(accounts)@),
        sum(final(accounts)@) == sum(old(accounts)@) + lamports,
        as_balances(final(accounts)@) == as_balances(old(accounts)@).insert(
            *who,
            as_balances(old(accounts)@)[*who] + lamports as nat,
        ),
{
    match find(accounts, who) {
        Some(j) => {
            let before: u64 = accounts[j].value;
            proof {
                lemma_one_within_sum(accounts@, j as int);
                lemma_update_balances(accounts@, j as int, (before + lamports) as u64);
                lemma_update_map(accounts@, j as int, (before + lamports) as u64);
                lemma_update_sum(
                    accounts@,
                    j as int,
                    Entry { key: accounts@[j as int].key, value: (before + lamports) as u64 },
                );
            }
            accounts[j] = Entry { key: *who, value: before + lamports };
        },
        None => {
            let entry = Entry { key: *who, value: lamports };
            proof {
                lemma_push_balances(accounts@, entry);
                lemma_push_map(accounts@, entry);
                lemma_push_sum(accounts@, entry);
            }
            accounts.push(entry);
        },
    }
}

/// Runs one transfer on a table of balances. A failure changes nothing.
fn apply(accounts: &mut Vec<Entry<u64>>, transfer: &Transfer, signer: &Identity, program_id: &Identity) -> (done:
    Result<(), EscrowError>)
    requires
        distinct(old(accounts)@),
        sum(old(accounts)@) <= u64::MAX,
    ensures
        distinct(final(accounts)@),
        sum(final(accounts)@) == sum(old(accounts)@),
        match transfer.outcome(as_balances(old(accounts)@), *signer, *program_id) {
            Ok(balances) => done == Ok::<(), EscrowError>(()) && as_balances(final(accounts)@) == balances,
            Err(e) => done == Err::<(), EscrowError>(e) && final(accounts)@ == old(accounts)@,
        },
{
    if !transfer.is_authorized(signer, program_id) {
        return Err(EscrowError::MissingRequiredSignature);
    }
    let source = find(accounts, &transfer.from);
    let before: u64 = match source {
        Some(i) => {
            proof {
                lemma_index_of(accounts@, i as int);
            }
            accounts[i].value
        },
        None => 0,
    };
    let lamports = transfer.amount.units(before);
    if before < lamports {
        return Err(EscrowError::InsufficientFunds);
    }
    match source {
        None => {
            proof {
                let balances = as_balances(accounts@);
                assert(moved(balances, transfer.from, transfer.to, 0) =~= balances);
            }
        },
        Some(i) => {
            proof {
                lemma_update_balances(accounts@, i as int, (before - lamports) as u64);
                lemma_update_map(accounts@, i as int, (before - lamports) as u64);
                lemma_update_sum(
                    accounts@,
                    i as int,
                    Entry { key: accounts@[i as int].key, value: (before - lamports) as u64 },
                );
            }
            accounts[i] = Entry { key: transfer.from, value: before - lamports };
            credit(accounts, &transfer.to, lamports);
        },
    }
    Ok(())
}

/// Runs the transfers in order on a table of balances, up to the first failure.
fn run(accounts: &mut Vec<Entry<u64>>, plan: &Vec<Transfer>, signer: &Identity, program_id: &Identity) -> (done:
    Result<(), EscrowError>)
    requires
        distinct(old(accounts)@),
        sum(old(accounts)@) <= u64::MAX,
    ensures
        distinct(final(accounts)@),
        sum(final(accounts)@) == sum(old(accounts)@),
        match plan_outcome(as_balances(old(accounts)@), plan@, *signer, *program_id) {
            Ok(balances) => done == Ok::<(), EscrowError>(()) && as_balances(final(accounts)@) == balances,
            Err(e) => done == Err::<(), EscrowError>(e),
        },
{
    let mut k: usize = 0;
    proof {
        assert(plan@.skip(0) =~= plan@);
    }
    while k < plan.len()
        invariant
            k <= plan.len(),
            distinct(accounts@),
            sum(accounts@) == sum(old(accounts)@),
            sum(old(accounts)@) <= u64::MAX,
            plan_outcome(as_balances(old(accounts)@), plan@, *signer, *program_id) == plan_outcome(
                as_balances(accounts@),
                plan@.skip(k as int),
                *signer,
                *program_id,
            ),
        decreases plan.len() - k,
    {
        proof {
            assert(plan@.skip(k as int)[0] == plan@[k as int]);
            assert(plan@.skip(k as int).drop_first() =~= plan@.skip(k + 1));
        }
        match apply(accounts, &plan[k], signer, program_id) {
            Err(e) => {
                return Err(e);
            },
            Ok(_) => {},
        }
        k += 1;
    }
    Ok(())
}

impl Ledger {
    /// What holds of the ledger at all times: no address occurs twice among
    /// the balances or among the records, all funds together fit the widest
    /// amount, and the ledger as a value is well formed.
    #[verifier::type_invariant]
    spec fn inv(self) -> bool {
        &&& distinct(self.accounts@)
        &&& distinct(self.records@)
        &&& sum(self.accounts@) <= u64::MAX
        &&& self@.wf()
    }

    /// All funds on the ledger together.
    pub closed spec fn total_funds(&self) -> nat {
        sum(self.accounts@)
    }

    /// A ledger on which nothing has happened yet.
    pub fn new(program_id: Identity, upgrade_authority: Option<Identity>, rent_floor: u64) -> (ledger: Ledger)
        ensures
            ledger@.wf(),
            ledger@ == LedgerState::empty(program_id, upgrade_authority, rent_floor),
            ledger.total_funds() == 0,
    {
        let ledger = Ledger {
            program_id,
            upgrade_authority,
            rent_floor,
            app_state: AppState::new(),
            accounts: Vec::new(),
            records: Vec::new(),
        };
        proof {
            assert(ledger@.balances =~= Map::total(|who: Identity| 0nat));
            assert(ledger@.records =~= Map::empty());
        }
        ledger
    }

    /// The program whose derived addresses the vaults and records are.
    pub fn program_id(&self) -> (id: Identity)
        ensures
            id == self@.program_id,
    {
        self.program_id
    }

    /// What an address must hold to exist.
    pub fn rent_floor(&self) -> (lamports: u64)
        ensures
            lamports == self@.rent_floor,
    {
        self.rent_floor
    }

    /// The configuration.
    pub fn app_state(&self) -> (state: AppState)
        ensures
            state == self@.app_state,
            self@.wf(),
    {
        proof {
            use_type_invariant(self);
        }
        self.app_state
    }

    /// What the address holds.
    pub fn balance(&self, who: &Identity) -> (lamports: u64)
        ensures
            lamports == self@.balances[*who],
    {
        proof {
            use_type_invariant(self);
        }
        held(&self.accounts, who)
    }

    /// The open record at the address, if there is one.
    pub fn record(&self, address: &Identity) -> (found: Option<Record>)
        ensures
            match found {
                Some(record) => self@.records.dom().contains(*address) && self@.records[*address] == record,
                None => !self@.records.dom().contains(*address),
            },
            self@.wf(),
    {
        proof {
            use_type_invariant(self);
        }
        match find(&self.records, address) {
            Some(i) => {
                proof {
                    lemma_index_of(self.records@, i as int);
                }
                Some(self.records[i].value)
            },
            None => None,
        }
    }

    /// Lets `who` receive `lamports` from outside the escrow. Funds that
    /// would take the ledger over the widest amount are refused, and the
    /// ledger stays as it was.
    pub fn fund(&mut self, who: &Identity, lamports: u64) -> (accepted: bool)
        ensures
            final(self)@.wf(),
            accepted == (old(self).total_funds() + lamports <= u64::MAX),
            accepted ==> final(self)@ == old(self)@.fund(*who, lamports),
            accepted ==> final(self).total_funds() == old(self).total_funds() + lamports,
            !accepted ==> final(self)@ == old(self)@ && final(self).total_funds() == old(self).total_funds(),
    {
        proof {
            use_type_invariant(&*self);
        }
        let total = self.total();
        if lamports > u64::MAX - total {
            return false;
        }
        let mut accounts: Vec<Entry<u64>> = Vec::new();
        std::mem::swap(&mut accounts, &mut self.accounts);
        credit(&mut accounts, who, lamports);
        self.accounts = accounts;
        true
    }

    /// All funds on the ledger together.
    pub fn total(&self) -> (lamports: u64)
        ensures
            lamports == self.total_funds(),
    {
        proof {
            use_type_invariant(self);
        }
        let mut total: u64 = 0;
        let mut i: usize = 0;
        while i < self.accounts.len()
            invariant
                i <= self.accounts.len(),
                total == sum(self.accounts@.take(i as int)),
                sum(self.accounts@) <= u64::MAX,
            decreases self.accounts.len() - i,
        {
            proof {
                let whole = self.accounts@;
                assert(whole.take(i + 1).drop_last() =~= whole.take(i as int));
                lemma_prefix_within_sum(whole, i + 1);
            }
            total = total + self.accounts[i].value;
            i += 1;
        }
        proof {
            assert(self.accounts@.take(self.accounts.len() as int) =~= self.accounts@);
        }
        total
    }

    /// Runs one transfer that `signer` has signed. A failure leaves the
    /// ledger as it was.
    pub fn transfer(&mut self, transfer: &Transfer, signer: &Identity) -> (done: Result<(), EscrowError>)
        ensures
            final(self)@.wf(),
            final(self).total_funds() == old(self).total_funds(),
            match transfer.outcome(old(self)@.balances, *signer, old(self)@.program_id) {
                Ok(balances) => done == Ok::<(), EscrowError>(()) && final(self)@ == (LedgerState {
                    balances,
                    ..old(self)@
                }),
                Err(e) => done == Err::<(), EscrowError>(e) && final(self)@ == old(self)@,
            },
    {
        proof {
            use_type_invariant(&*self);
        }
        let program_id = self.program_id;
        let mut accounts: Vec<Entry<u64>> = Vec::new();
        std::mem::swap(&mut accounts, &mut self.accounts);
        let done = apply(&mut accounts, transfer, signer, &program_id);
        self.accounts = accounts;
        done
    }

    /// Runs the transfers in order, all signed by `signer`, as one step:
    /// where one fails, none takes effect.
    pub fn execute(&mut self, plan: &Vec<Transfer>, signer: &Identity) -> (done: Result<(), EscrowError>)
        ensures
            final(self)@.wf(),
            final(self).total_funds() == old(self).total_funds(),
            match plan_outcome(old(self)@.balances, plan@, *signer, old(self)@.program_id) {
                Ok(balances) => done == Ok::<(), EscrowError>(()) && final(self)@ == (LedgerState {
                    balances,
                    ..old(self)@
                }),
                Err(e) => done == Err::<(), EscrowError>(e) && final(self)@ == old(self)@,
            },
    {
        settle(self, plan, signer)
    }
}

/// Runs the transfers in order as one step, and touches nothing but the
/// balances.
fn settle(ledger: &mut Ledger, plan: &Vec<Transfer>, signer: &Identity) -> (done: Result<(), EscrowError>)
    ensures
        final(ledger)@.wf(),
        final(ledger).total_funds() == old(ledger).total_funds(),
        final(ledger).records@ == old(ledger).records@,
        match plan_outcome(old(ledger)@.balances, plan@, *signer, old(ledger)@.program_id) {
            Ok(balances) => done == Ok::<(), EscrowError>(()) && final(ledger)@ == (LedgerState {
                balances,
                ..old(ledger)@
            }),
            Err(e) => done == Err::<(), EscrowError>(e) && *final(ledger) == *old(ledger),
        },
{
    proof {
        use_type_invariant(&*ledger);
    }
    let mut working = copy_accounts(&ledger.accounts);
    match run(&mut working, plan, signer, &ledger.program_id) {
        Err(e) => Err(e),
        Ok(_) => {
            ledger.accounts = working;
            Ok(())
        },
    }
}

/// Sets the configuration for the first time, on behalf of `caller`. On
/// failure the ledger stays as it was.
pub fn initialize(ledger: &mut Ledger, caller: &Identity, parameters: AppStateParameters) -> (done: Result<
    (),
    EscrowError,
>)
    ensures
        final(ledger)@.wf(),
        final(ledger).total_funds() == old(ledger).total_funds(),
        match old(ledger)@.initialize(*caller, parameters) {
            Ok(state) => done == Ok::<(), EscrowError>(()) && final(ledger)@ == state,
            Err(e) => done == Err::<(), EscrowError>(e) && final(ledger)@ == old(ledger)@,
        },
{
    proof {
        use_type_invariant(&*ledger);
    }
    let mut ctx = Initialize {
        authority: *caller,
        app_state: ledger.app_state,
        upgrade_authority_address: ledger.upgrade_authority,
    };
    match ctx.validate() {
        Err(e) => {
            return Err(e);
        },
        Ok(_) => {},
    }
    match crate::instructions::init::initialize(&mut ctx, parameters) {
        Err(e) => Err(e),
        Ok(_) => {
            ledger.app_state = ctx.app_state;
            Ok(())
        },
    }
}

/// Changes the configuration on behalf of `caller`. On failure the ledger
/// stays as it was.
pub fn update_state(ledger: &mut Ledger, caller: &Identity, parameters: AppStateParameters) -> (done: Result<
    (),
    EscrowError,
>)
    ensures
        final(ledger)@.wf(),
        final(ledger).total_funds() == old(ledger).total_funds(),
        match old(ledger)@.update_state(*caller, parameters) {
            Ok(state) => done == Ok::<(), EscrowError>(()) && final(ledger)@ == state,
            Err(e) => done == Err::<(), EscrowError>(e) && final(ledger)@ == old(ledger)@,
        },
{
    proof {
        use_type_invariant(&*ledger);
    }
    let mut ctx = UpdateState { authority: *caller, app_state: ledger.app_state };
    match crate::instructions::update::update_state(&mut ctx, parameters) {
        Err(e) => Err(e),
        Ok(_) => {
            ledger.app_state = ctx.app_state;
            Ok(())
        },
    }
}

/// Deposits `amount` from `sender` for `receiver` and gives the record that
/// is now open. On failure the ledger stays as it was.
pub fn drop(ledger: &mut Ledger, sender: &Identity, receiver: &Identity, amount: u64) -> (done: Result<
    Record,
    EscrowError,
>)
    ensures
        final(ledger)@.wf(),
        final(ledger).total_funds() == old(ledger).total_funds(),
        match old(ledger)@.drop(*sender, *receiver, amount) {
            Ok(state) => {
                &&& final(ledger)@ == state
                &&& done matches Ok(record)
                &&& pair_address(Role::Record, *sender, *receiver, state.program_id) matches Some(found)
                &&& state.records.dom().contains(found.0)
                &&& state.records[found.0] == record
                &&& record.sender == *sender
                &&& record.receiver == *receiver
                &&& record.amount == amount
            },
            Err(e) => done == Err::<Record, EscrowError>(e) && final(ledger)@ == old(ledger)@,
        },
{
    proof {
        use_type_invariant(&*ledger);
    }
    let program_id = ledger.program_id;
    let record_address = match derive_address(Role::Record, sender, receiver, &program_id) {
        None => {
            return Err(EscrowError::ConstraintSeeds);
        },
        Some((address, _)) => address,
    };
    let vault = match derive_address(Role::Vault, sender, receiver, &program_id) {
        None => {
            return Err(EscrowError::ConstraintSeeds);
        },
        Some((address, _)) => address,
    };
    match find(&ledger.records, &record_address) {
        Some(i) => {
            proof {
                lemma_index_of(ledger.records@, i as int);
            }
            return Err(EscrowError::AccountAlreadyInUse);
        },
        None => {},
    }
    let blank = Identity::default();
    let mut ctx = Drop {
        sender: *sender,
        receiver: *receiver,
        receiver_lamports: held(&ledger.accounts, receiver),
        vault,
        record_address,
        record: Record { sender: blank, receiver: blank, vault: blank, amount: 0 },
        app_state: ledger.app_state,
        treasury: ledger.app_state.treasury,
    };
    assert(ctx == old(ledger)@.drop_accounts(*sender, *receiver, vault, record_address));
    match ctx.validate(&program_id) {
        Err(e) => {
            return Err(e);
        },
        Ok(_) => {},
    }
    let plan = match drop_some(&mut ctx, amount, ledger.rent_floor) {
        Err(e) => {
            return Err(e);
        },
        Ok(plan) => plan,
    };
    match settle(ledger, &plan, sender) {
        Err(e) => {
            return Err(e);
        },
        Ok(_) => {},
    }
    let record = ctx.record;
    proof {
        use_type_invariant(&*ledger);
        lemma_push_map(ledger.records@, Entry { key: record_address, value: record });
    }
    let mut records: Vec<Entry<Record>> = Vec::new();
    std::mem::swap(&mut records, &mut ledger.records);
    records.push(Entry { key: record_address, value: record });
    ledger.records = records;
    Ok(record)
}

/// Lets `caller` claim the deposit whose record lies at the address. On
/// failure the ledger stays as it was.
pub fn claim(ledger: &mut Ledger, caller: &Identity, record_address: &Identity) -> (done: Result<
    (),
    EscrowError,
>)
    ensures
        final(ledger)@.wf(),
        final(ledger).total_funds() == old(ledger).total_funds(),
        match old(ledger)@.claim(*caller, *record_address) {
            Ok(state) => done == Ok::<(), EscrowError>(()) && final(ledger)@ == state,
            Err(e) => done == Err::<(), EscrowError>(e) && final(ledger)@ == old(ledger)@,
        },
{
    proof {
        use_type_invariant(&*ledger);
    }
    let place = match find(&ledger.records, record_address) {
        None => {
            return Err(EscrowError::AccountNotInitialized);
        },
        Some(i) => i,
    };
    proof {
        lemma_index_of(ledger.records@, place as int);
    }
    let record = ledger.records[place].value;
    let ctx = Claim {
        receiver: *caller,
        sender: record.sender,
        vault: record.vault,
        record_address: *record_address,
        record,
    };
    let bumps = match ctx.validate(&ledger.program_id) {
        Err(e) => {
            return Err(e);
        },
        Ok(bumps) => bumps,
    };
    let plan = crate::instructions::claim::claim(&ctx, &bumps);
    match settle(ledger, &plan, caller) {
        Err(e) => {
            return Err(e);
        },
        Ok(_) => {},
    }
    proof {
        use_type_invariant(&*ledger);
        lemma_remove_map(ledger.records@, place as int);
    }
    let mut records: Vec<Entry<Record>> = Vec::new();
    std::mem::swap(&mut records, &mut ledger.records);
    records.remove(place);
    ledger.records = records;
    Ok(())
}

/// Gives the deposit whose record lies at the address back to `caller`. On
/// failure the ledger stays as it was.
pub fn refund(ledger: &mut Ledger, caller: &Identity, record_address: &Identity) -> (done: Result<
    (),
    EscrowError,
>)
    ensures
        final(ledger)@.wf(),
        final(ledger).total_funds() == old(ledger).total_funds(),
        match old(ledger)@.refund(*caller, *record_address) {
            Ok(state) => done == Ok::<(), EscrowError>(()) && final(ledger)@ == state,
            Err(e) => done == Err::<(), EscrowError>(e) && final(ledger)@ == old(ledger)@,
        },
{
    proof {
        use_type_invariant(&*ledger);
    }
    let place = match find(&ledger.records, record_address) {
        None => {
            return Err(EscrowError::AccountNotInitialized);
        },
        Some(i) => i,
    };
    proof {
        lemma_index_of(ledger.records@, place as int);
    }
    let record = ledger.records[place].value;
    let ctx = Refund { sender: *caller, vault: record.vault, record_address: *record_address, record };
    let bumps = match ctx.validate(&ledger.program_id) {
        Err(e) => {
            return Err(e);
        },
        Ok(bumps) => bumps,
    };
    let plan = crate::instructions::refund::refund(&ctx, &bumps);
    match settle(ledger, &plan, caller) {
        Err(e) => {
            return Err(e);
        },
        Ok(_) => {},
    }
    proof {
        use_type_invariant(&*ledger);
        lemma_remove_map(ledger.records@, place as int);
    }
    let mut records: Vec<Entry<Record>> = Vec::new();
    std::mem::swap(&mut records, &mut ledger.records);
    records.remove(place);
    ledger.records = records;
    Ok(())
}

/// The sum of the first entries is at most the sum of all.
proof fn lemma_prefix_within_sum(s: Seq<Entry<u64>>, n: int)
    requires
        0 <= n <= s.len(),
    ensures
        sum(s.take(n)) <= sum(s),
    decreases s.len() - n,
{
    if n < s.len() {
        lemma_prefix_within_sum(s, n + 1);
        assert(s.take(n + 1).drop_last() =~= s.take(n));
    } else {
        assert(s.take(n) =~= s);
    }
}

} // verus!

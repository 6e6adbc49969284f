//! The two persistent records: the global configuration and the open escrow.

use vstd::prelude::*;
use vstd::bytes::{
    lemma_auto_spec_u16_to_from_le_bytes, lemma_auto_spec_u64_to_from_le_bytes, spec_u16_to_le_bytes,
    spec_u64_to_le_bytes, u16_from_le_bytes, u16_to_le_bytes, u64_from_le_bytes, u64_to_le_bytes,
};
use vstd::slice::slice_subrange;
use crate::identity::Identity;

verus! {

/// The highest fee rate: ten thousand basis points, the whole amount.
pub const MAX_FEE_BASIS_POINTS: u16 = 10_000;

/// One open deposit: who sent it, who may claim it, where the funds lie, and
/// how much of them is principal.
#[derive(Clone, Copy, Debug, PartialEq, Eq)]
pub struct Record {
    pub sender: Identity,
    pub receiver: Identity,
    pub vault: Identity,
    pub amount: u64,
}

impl Record {
    /// The size of a stored record in bytes.
    pub const LEN: usize = 32 * 3 + 8;

    /// The stored form of the record: the three addresses, then the amount,
    /// little-endian.
    pub open spec fn encoded(self) -> Seq<u8> {
        self.sender@ + self.receiver@ + self.vault@ + spec_u64_to_le_bytes(self.amount)
    }

    /// The stored form of the record.
    pub fn to_bytes(&self) -> (bytes: Vec<u8>)
        ensures
            bytes@ == self.encoded(),
            bytes@.len() == Record::LEN,
    {
        let mut bytes = self.sender.to_vec();
        let mut receiver = self.receiver.to_vec();
        let mut vault = self.vault.to_vec();
        let mut amount = u64_to_le_bytes(self.amount);
        bytes.append(&mut receiver);
        bytes.append(&mut vault);
        bytes.append(&mut amount);
        bytes
    }

    /// The record stored in the bytes; none where their number is not that
    /// of a stored record.
    pub fn from_bytes(bytes: &[u8]) -> (found: Option<Record>)
        ensures
            match found {
                Some(record) => record.encoded() == bytes@,
                None => bytes@.len() != Record::LEN,
            },
    {
        if bytes.len() != Record::LEN {
            return None;
        }
        let sender = Identity::from_slice(slice_subrange(bytes, 0, 32)).unwrap();
        let receiver = Identity::from_slice(slice_subrange(bytes, 32, 64)).unwrap();
        let vault = Identity::from_slice(slice_subrange(bytes, 64, 96)).unwrap();
        let amount = u64_from_le_bytes(slice_subrange(bytes, 96, 104));
        let record = Record { sender, receiver, vault, amount };
        proof {
            lemma_auto_spec_u64_to_from_le_bytes();
            assert(spec_u64_to_le_bytes(amount) == bytes@.subrange(96, 104));
            assert(record.encoded() =~= bytes@);
        }
        Some(record)
    }

    /// Records with the same stored form are the same record, and the stored
    /// form has the length of a stored record.
    pub proof fn lemma_encoding_injective(a: Record, b: Record)
        ensures
            a.encoded().len() == Record::LEN,
            a.encoded() == b.encoded() <==> a == b,
    {
        lemma_auto_spec_u64_to_from_le_bytes();
        if a.encoded() == b.encoded() {
            assert(a.encoded().subrange(0, 32) =~= a.sender@);
            assert(b.encoded().subrange(0, 32) =~= b.sender@);
            assert(a.encoded().subrange(32, 64) =~= a.receiver@);
            assert(b.encoded().subrange(32, 64) =~= b.receiver@);
            assert(a.encoded().subrange(64, 96) =~= a.vault@);
            assert(b.encoded().subrange(64, 96) =~= b.vault@);
            assert(a.encoded().subrange(96, 104) =~= spec_u64_to_le_bytes(a.amount));
            assert(b.encoded().subrange(96, 104) =~= spec_u64_to_le_bytes(b.amount));
            Identity::lemma_view_injective(a.sender, b.sender);
            Identity::lemma_view_injective(a.receiver, b.receiver);
            Identity::lemma_view_injective(a.vault, b.vault);
        }
    }
}

/// The global policy of the service.
#[derive(Clone, Copy, Debug, PartialEq, Eq)]
pub struct AppState {
    pub is_initialized: bool,
    pub authority: Identity,
    pub is_active: bool,
    pub network_fee_reserve: u64,
    pub treasury: Identity,
    pub fee_basis_points: u16,
    pub min_drop_amount: u64,
}

impl AppState {
    /// The size of the stored configuration in bytes.
    pub const LEN: usize = 1 + 32 + 1 + 8 + 32 + 2 + 8;

    /// The configuration before it was ever set: every field zero.
    pub open spec fn blank() -> AppState {
        AppState {
            is_initialized: false,
            authority: Identity::zero(),
            is_active: false,
            network_fee_reserve: 0,
            treasury: Identity::zero(),
            fee_basis_points: 0,
            min_drop_amount: 0,
        }
    }

    /// The fee rate is at most the whole amount.
    pub open spec fn fee_in_range(self) -> bool {
        self.fee_basis_points <= MAX_FEE_BASIS_POINTS
    }

    /// The stored form of a flag: one for set, zero for not set.
    pub open spec fn flag(set: bool) -> Seq<u8> {
        seq![if set { 1u8 } else { 0u8 }]
    }

    /// The stored form of the configuration: each field in turn, a flag as
    /// one byte, an address as its bytes, a number little-endian.
    pub open spec fn encoded(self) -> Seq<u8> {
        AppState::flag(self.is_initialized) + self.authority@ + AppState::flag(self.is_active)
            + spec_u64_to_le_bytes(self.network_fee_reserve) + self.treasury@ + spec_u16_to_le_bytes(
            self.fee_basis_points,
        ) + spec_u64_to_le_bytes(self.min_drop_amount)
    }

    /// The stored form of the configuration.
    pub fn to_bytes(&self) -> (bytes: Vec<u8>)
        ensures
            bytes@ == self.encoded(),
            bytes@.len() == AppState::LEN,
    {
        let mut bytes: Vec<u8> = Vec::new();
        bytes.push(if self.is_initialized { 1 } else { 0 });
        let mut authority = self.authority.to_vec();
        bytes.append(&mut authority);
        bytes.push(if self.is_active { 1 } else { 0 });
        let mut reserve = u64_to_le_bytes(self.network_fee_reserve);
        bytes.append(&mut reserve);
        let mut treasury = self.treasury.to_vec();
        bytes.append(&mut treasury);
        let mut rate = u16_to_le_bytes(self.fee_basis_points);
        bytes.append(&mut rate);
        let mut minimum = u64_to_le_bytes(self.min_drop_amount);
        bytes.append(&mut minimum);
        proof {
            assert(bytes@ =~= self.encoded());
        }
        bytes
    }

    /// The configuration stored in the bytes; none where their number is
    /// not that of a stored configuration, or where a flag is neither zero
    /// nor one.
    pub fn from_bytes(bytes: &[u8]) -> (found: Option<AppState>)
        ensures
            match found {
                Some(state) => state.encoded() == bytes@,
                None => bytes@.len() != AppState::LEN || bytes@[0] > 1 || bytes@[33] > 1,
            },
    {
        if bytes.len() != AppState::LEN {
            return None;
        }
        if bytes[0] > 1 || bytes[33] > 1 {
            return None;
        }
        let state = AppState {
            is_initialized: bytes[0] == 1,
            authority: Identity::from_slice(slice_subrange(bytes, 1, 33)).unwrap(),
            is_active: bytes[33] == 1,
            network_fee_reserve: u64_from_le_bytes(slice_subrange(bytes, 34, 42)),
            treasury: Identity::from_slice(slice_subrange(bytes, 42, 74)).unwrap(),
            fee_basis_points: u16_from_le_bytes(slice_subrange(bytes, 74, 76)),
            min_drop_amount: u64_from_le_bytes(slice_subrange(bytes, 76, 84)),
        };
        proof {
            lemma_auto_spec_u64_to_from_le_bytes();
            lemma_auto_spec_u16_to_from_le_bytes();
            assert(spec_u64_to_le_bytes(state.network_fee_reserve) == bytes@.subrange(34, 42));
            assert(spec_u16_to_le_bytes(state.fee_basis_points) == bytes@.subrange(74, 76));
            assert(spec_u64_to_le_bytes(state.min_drop_amount) == bytes@.subrange(76, 84));
            assert(state.encoded() =~= bytes@);
        }
        Some(state)
    }

    /// Configurations with the same stored form are the same configuration,
    /// and the stored form has the length of a stored configuration.
    pub proof fn lemma_encoding_injective(a: AppState, b: AppState)
        ensures
            a.encoded().len() == AppState::LEN,
            a.encoded() == b.encoded() <==> a == b,
    {
        lemma_auto_spec_u64_to_from_le_bytes();
        lemma_auto_spec_u16_to_from_le_bytes();
        if a.encoded() == b.encoded() {
            assert(a.encoded()[0] == AppState::flag(a.is_initialized)[0]);
            assert(b.encoded()[0] == AppState::flag(b.is_initialized)[0]);
            assert(a.encoded().subrange(1, 33) =~= a.authority@);
            assert(b.encoded().subrange(1, 33) =~= b.authority@);
            assert(a.encoded()[33] == AppState::flag(a.is_active)[0]);
            assert(b.encoded()[33] == AppState::flag(b.is_active)[0]);
            assert(a.encoded().subrange(34, 42) =~= spec_u64_to_le_bytes(a.network_fee_reserve));
            assert(b.encoded().subrange(34, 42) =~= spec_u64_to_le_bytes(b.network_fee_reserve));
            assert(a.encoded().subrange(42, 74) =~= a.treasury@);
            assert(b.encoded().subrange(42, 74) =~= b.treasury@);
            assert(a.encoded().subrange(74, 76) =~= spec_u16_to_le_bytes(a.fee_basis_points));
            assert(b.encoded().subrange(74, 76) =~= spec_u16_to_le_bytes(b.fee_basis_points));
            assert(a.encoded().subrange(76, 84) =~= spec_u64_to_le_bytes(a.min_drop_amount));
            assert(b.encoded().subrange(76, 84) =~= spec_u64_to_le_bytes(b.min_drop_amount));
            Identity::lemma_view_injective(a.authority, b.authority);
            Identity::lemma_view_injective(a.treasury, b.treasury);
        }
    }

    /// The configuration before it was ever set.
    pub fn new() -> (state: AppState)
        ensures
            state == AppState::blank(),
    {
        AppState {
            is_initialized: false,
            authority: Identity::default(),
            is_active: false,
            network_fee_reserve: 0,
            treasury: Identity::default(),
            fee_basis_points: 0,
            min_drop_amount: 0,
        }
    }
}

} // verus!

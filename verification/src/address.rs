//! Derived addresses: where the vault and the record of a pair of principals lie.
//!
//! The ledger derives an address from a list of seeds and the identity of the
//! program that owns it. Nobody holds a key for such an address; whoever knows
//! the seeds can show that the address is the program's own.

use vstd::prelude::*;
use crate::identity::Identity;

verus! {

/// What the ledger's search for a program address yields for the given seeds
/// and program: the address with its bump seed, or nothing where no bump seed
/// gives one.
pub uninterp spec fn program_address(seeds: Seq<Seq<u8>>, program_id: Identity) -> Option<(Identity, u8)>;

/// What a derived address is for.
#[derive(Clone, Copy, Debug, PartialEq, Eq, Structural)]
pub enum Role {
    /// The address that holds the funds of a deposit.
    Vault,
    /// The address that holds the record of a deposit.
    Record,
}

impl Role {
    /// The first seed of the role: the ASCII bytes of its name.
    pub open spec fn label(self) -> Seq<u8> {
        match self {
            Role::Vault => seq![0x76u8, 0x61u8, 0x75u8, 0x6cu8, 0x74u8],
            Role::Record => seq![0x72u8, 0x65u8, 0x63u8, 0x6fu8, 0x72u8, 0x64u8],
        }
    }

    /// The first seed of the role: the ASCII bytes of its name.
    pub fn label_bytes(&self) -> (label: Vec<u8>)
        ensures
            label@ == self.label(),
    {
        let label = match self {
            Role::Vault => vec![0x76u8, 0x61u8, 0x75u8, 0x6cu8, 0x74u8],
            Role::Record => vec![0x72u8, 0x65u8, 0x63u8, 0x6fu8, 0x72u8, 0x64u8],
        };
        assert(label@ =~= self.label());
        label
    }
}

/// The seeds of a pair's address: the role's label, the sender, the receiver.
pub open spec fn pair_seeds(role: Role, sender: Identity, receiver: Identity) -> Seq<Seq<u8>> {
    seq![role.label(), sender@, receiver@]
}

/// The address that the given program holds in the given role for the pair,
/// with its bump seed.
pub open spec fn pair_address(
    role: Role,
    sender: Identity,
    receiver: Identity,
    program_id: Identity,
) -> Option<(Identity, u8)> {
    program_address(pair_seeds(role, sender, receiver), program_id)
}

/// Calls `Pubkey::try_find_program_address` with the three seeds in the given
/// order. Trusted: the result is the outcome of the ledger's search, which
/// depends on the seeds and the program alone.
#[verifier::external_body]
fn find_program_address(
    label: &Vec<u8>,
    first: &Identity,
    second: &Identity,
    program_id: &Identity,
) -> (found: Option<(Identity, u8)>)
    ensures
        found == program_address(seq![label@, first@, second@], *program_id),
{
    let program = anchor_lang::prelude::Pubkey::new_from_array(program_id.bytes);
    let seeds: [&[u8]; 3] = [label.as_slice(), &first.bytes, &second.bytes];
    match anchor_lang::prelude::Pubkey::try_find_program_address(&seeds, &program) {
        Some((key, bump)) => Some((Identity { bytes: key.to_bytes() }, bump)),
        None => None,
    }
}

/// Derives the address that the program holds in the given role for the pair.
pub fn derive_address(role: Role, sender: &Identity, receiver: &Identity, program_id: &Identity) -> (found: Option<
    (Identity, u8),
>)
    ensures
        found == pair_address(role, *sender, *receiver, *program_id),
{
    let label = role.label_bytes();
    find_program_address(&label, sender, receiver, program_id)
}

} // verus!

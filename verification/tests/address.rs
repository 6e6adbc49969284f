use anchor_lang::prelude::Pubkey;
use dropsome::address::{derive_address, Role};
use dropsome::identity::Identity;
use dropsome::transfer::SignerSeeds;

fn addr(tag: u8) -> Identity {
    Identity::new([tag; 32])
}

fn outside(id: &Identity) -> Pubkey {
    Pubkey::new_from_array(id.to_bytes())
}

#[test]
fn labels_are_the_role_names() {
    assert_eq!(Role::Vault.label_bytes(), b"vault".to_vec());
    assert_eq!(Role::Record.label_bytes(), b"record".to_vec());
}

#[test]
fn vault_address_is_the_ledgers_own() {
    let (sender, receiver, program) = (addr(1), addr(2), addr(7));
    let expected = Pubkey::find_program_address(
        &[b"vault", outside(&sender).as_ref(), outside(&receiver).as_ref()],
        &outside(&program),
    );
    let found = derive_address(Role::Vault, &sender, &receiver, &program);
    assert_eq!(found, Some((Identity::new(expected.0.to_bytes()), expected.1)));
}

#[test]
fn record_address_is_the_ledgers_own() {
    let (sender, receiver, program) = (addr(1), addr(2), addr(7));
    let expected = Pubkey::find_program_address(
        &[b"record", outside(&sender).as_ref(), outside(&receiver).as_ref()],
        &outside(&program),
    );
    let found = derive_address(Role::Record, &sender, &receiver, &program);
    assert_eq!(found, Some((Identity::new(expected.0.to_bytes()), expected.1)));
}

#[test]
fn derived_address_proves_itself_with_its_bump() {
    let (sender, receiver, program) = (addr(3), addr(4), addr(7));
    let (vault, bump) = derive_address(Role::Vault, &sender, &receiver, &program).unwrap();
    let rebuilt = Pubkey::create_program_address(
        &[b"vault", &sender.to_bytes(), &receiver.to_bytes(), &[bump]],
        &outside(&program),
    )
    .unwrap();
    assert_eq!(rebuilt.to_bytes(), vault.to_bytes());
}

#[test]
fn derivation_is_repeatable() {
    let (sender, receiver, program) = (addr(1), addr(2), addr(7));
    assert_eq!(
        derive_address(Role::Vault, &sender, &receiver, &program),
        derive_address(Role::Vault, &sender, &receiver, &program)
    );
}

#[test]
fn derivation_tells_roles_pairs_and_programs_apart() {
    let (sender, receiver, program) = (addr(1), addr(2), addr(7));
    let vault = derive_address(Role::Vault, &sender, &receiver, &program).unwrap().0;
    assert_ne!(vault, sender);
    assert_ne!(vault, receiver);
    assert_ne!(vault, program);
    assert_ne!(vault, derive_address(Role::Record, &sender, &receiver, &program).unwrap().0);
    assert_ne!(vault, derive_address(Role::Vault, &receiver, &sender, &program).unwrap().0);
    assert_ne!(vault, derive_address(Role::Vault, &sender, &addr(3), &program).unwrap().0);
    assert_ne!(vault, derive_address(Role::Vault, &sender, &receiver, &addr(8)).unwrap().0);
}

#[test]
fn signer_seeds_are_label_pair_and_bump() {
    let seeds = SignerSeeds { role: Role::Vault, sender: addr(1), receiver: addr(2), bump: 254 };
    assert_eq!(seeds.seeds(), vec![b"vault".to_vec(), vec![1u8; 32], vec![2u8; 32], vec![254u8]]);
    let other = SignerSeeds { role: Role::Record, sender: addr(5), receiver: addr(6), bump: 0 };
    assert_eq!(other.seeds(), vec![b"record".to_vec(), vec![5u8; 32], vec![6u8; 32], vec![0u8]]);
}

#[test]
fn signer_seeds_prove_only_their_own_address() {
    let (sender, receiver, program) = (addr(1), addr(2), addr(7));
    let (vault, bump) = derive_address(Role::Vault, &sender, &receiver, &program).unwrap();
    let seeds = SignerSeeds { role: Role::Vault, sender, receiver, bump };
    assert!(seeds.check(&vault, &program));
    assert!(!seeds.check(&sender, &program));
    assert!(!seeds.check(&vault, &addr(8)));
    let wrong_bump = SignerSeeds { bump: bump.wrapping_sub(1), ..seeds };
    assert!(!wrong_bump.check(&vault, &program));
    let wrong_role = SignerSeeds { role: Role::Record, ..seeds };
    assert!(!wrong_role.check(&vault, &program));
}

#[test]
fn identity_keeps_its_bytes() {
    let mut bytes = [0u8; 32];
    for (i, byte) in bytes.iter_mut().enumerate() {
        *byte = i as u8;
    }
    let id = Identity::new(bytes);
    assert_eq!(id.to_bytes(), bytes);
    assert_eq!(id.to_vec(), bytes.to_vec());
    assert_eq!(id, Identity::new(bytes));
    let mut last = bytes;
    last[31] = 0;
    assert_ne!(id, Identity::new(last));
    let mut first = bytes;
    first[0] = 1;
    assert_ne!(id, Identity::new(first));
}

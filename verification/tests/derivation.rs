use anchor_lang::prelude::Pubkey;

use escrow::address::locate;
use escrow::maker_order;
use escrow::Address;
use escrow::Caller;
use escrow::EscrowError;
use escrow::EscrowProgram;
use escrow::Maker;
use escrow::Role;
use escrow::Transfer;

fn key(tag: u8) -> Address {
    Address::new([tag; 32])
}

fn expected(tag: &[u8], maker: &Address, seed: u64, program: &Address) -> Address {
    let (at, _bump) = Pubkey::find_program_address(
        &[tag, &maker.bytes, &seed.to_le_bytes()],
        &Pubkey::new_from_array(program.bytes),
    );
    Address::new(at.to_bytes())
}

#[test]
fn record_location_is_derived_from_tag_maker_and_seed() {
    let program = key(9);
    let maker = key(1);
    let at = locate(&program, Role::Record, &maker, 1).unwrap();
    assert_eq!(at, expected(b"escrow", &maker, 1, &program));
    assert_ne!(at, maker);
    assert_ne!(at, program);
}

#[test]
fn vault_location_is_derived_under_its_own_tag() {
    let program = key(9);
    let maker = key(1);
    let vault = locate(&program, Role::Vault, &maker, 1).unwrap();
    assert_eq!(vault, expected(b"vault", &maker, 1, &program));
    assert_ne!(vault, locate(&program, Role::Record, &maker, 1).unwrap());
}

#[test]
fn location_depends_on_maker_seed_and_program() {
    let program = key(9);
    let maker = key(1);
    let at = locate(&program, Role::Record, &maker, 1).unwrap();
    assert_eq!(locate(&program, Role::Record, &maker, 1), Some(at));
    assert_ne!(locate(&program, Role::Record, &maker, 2), Some(at));
    assert_ne!(locate(&program, Role::Record, &key(2), 1), Some(at));
    assert_ne!(locate(&key(8), Role::Record, &maker, 1), Some(at));
    assert_eq!(
        locate(&program, Role::Record, &maker, 0x0102030405060708).unwrap(),
        expected(b"escrow", &maker, 0x0102030405060708, &program)
    );
}

#[test]
fn create_opens_the_offer_at_the_derived_locations() {
    let program_id = key(9);
    let maker = key(1);
    let mut program = EscrowProgram::new(program_id);
    assert_eq!(program.program_id(), program_id);
    let caller = Caller { key: maker, is_signer: true };
    let id = program.create(&caller, 7, key(0xA), 100, key(0xB), 30).unwrap();
    assert_eq!(id, expected(b"escrow", &maker, 7, &program_id));
    let opened = program.get(&id).unwrap();
    assert_eq!(opened.id, id);
    assert_eq!(opened.vault.address, expected(b"vault", &maker, 7, &program_id));
    assert_eq!(opened.vault.owner, maker);
    assert_eq!(opened.vault.asset, key(0xA));
    assert_eq!(opened.vault.held, 0);
}

#[test]
fn create_twice_for_one_maker_and_seed_is_a_duplicate() {
    let mut program = EscrowProgram::new(key(9));
    let caller = Caller { key: key(1), is_signer: true };
    let id = program.create(&caller, 7, key(0xA), 100, key(0xB), 30).unwrap();
    let before = program.get(&id).unwrap();
    assert_eq!(
        program.create(&caller, 7, key(0xC), 1, key(0xD), 2),
        Err(EscrowError::DuplicateEscrow)
    );
    assert_eq!(program.get(&id), Some(before));
    assert_eq!(program.open_offers(), 1);
}

#[test]
fn maker_order_pays_into_the_derived_vault() {
    let program_id = key(9);
    let maker = key(1);
    let program = EscrowProgram::new(program_id);
    let ctx = Maker { maker: Caller { key: maker, is_signer: true }, mint_m: key(0xA), mint_n: key(0xB) };
    assert_eq!(
        maker_order(&program, &ctx, 3, 30, 100),
        Ok(Transfer {
            from: maker,
            to: expected(b"vault", &maker, 3, &program_id),
            asset: key(0xA),
            amount: 100,
        })
    );
}

#[test]
fn an_offer_is_found_again_by_maker_and_seed() {
    let mut program = EscrowProgram::new(key(9));
    let caller = Caller { key: key(1), is_signer: true };
    assert_eq!(program.find(&key(1), 7), None);
    let id = program.create(&caller, 7, key(0xA), 100, key(0xB), 30).unwrap();
    let found = program.find(&key(1), 7).unwrap();
    assert_eq!(found.id, id);
    assert_eq!(Some(found), program.get(&id));
    assert_eq!(found.record.seed, 7);
    assert_eq!(found.record.maker, key(1));
    assert_eq!(program.find(&key(1), 8), None);
    assert_eq!(program.find(&key(2), 7), None);
}

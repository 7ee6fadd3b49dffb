use escrow::auth::authorize;
use escrow::auth::authorize_signer;
use escrow::auth::check_reference;
use escrow::auth::check_tender;
use escrow::deposit_vault;
use escrow::deposit_vault_order;
use escrow::maker;
use escrow::maker_order;
use escrow::refund;
use escrow::taker;
use escrow::Address;
use escrow::Caller;
use escrow::DepositVault;
use escrow::Escrow;
use escrow::EscrowError;
use escrow::EscrowProgram;
use escrow::EscrowRef;
use escrow::Maker;
use escrow::Phase;
use escrow::Refund;
use escrow::Taker;
use escrow::Tender;
use escrow::Transfer;
use escrow::TransferOutcome;
use escrow::VaultCustody;

fn at(tag: u8) -> Address {
    Address::new([tag; 32])
}

fn signing(key: Address) -> Caller {
    Caller { key, is_signer: true }
}

#[test]
fn addresses_compare_by_their_bytes() {
    let mut bytes = [7u8; 32];
    assert_eq!(Address::new(bytes), at(7));
    bytes[31] = 8;
    assert_ne!(Address::new(bytes), at(7));
    bytes[31] = 7;
    bytes[0] = 6;
    assert_ne!(Address::new(bytes), at(7));
    assert_eq!(Address::new(bytes).to_bytes(), bytes);
    assert_eq!(Address::new(bytes).to_seed(), bytes.to_vec());
}

#[test]
fn a_new_record_has_nothing_deposited() {
    let record = Escrow::new(at(1), 4, at(0xA), 100, at(0xB), 30).unwrap();
    assert_eq!(
        record,
        Escrow {
            seed: 4,
            maker: at(1),
            taker: None,
            give_asset: at(0xA),
            give_amount: 100,
            want_asset: at(0xB),
            want_amount: 30,
            maker_deposited: false,
            taker_deposited: false,
        }
    );
    assert_eq!(record.current_phase(), Phase::Open);
    assert_eq!(Escrow::new(at(1), 4, at(0xA), 0, at(0xB), 30), Err(EscrowError::InvalidAmount));
    assert_eq!(Escrow::new(at(1), 4, at(0xA), 100, at(0xB), 0), Err(EscrowError::InvalidAmount));
    assert_eq!(Escrow::new(at(1), 4, at(0xA), 0, at(0xB), 0), Err(EscrowError::InvalidAmount));
}

#[test]
fn deposits_are_marked_once_and_in_order() {
    let mut record = Escrow::new(at(1), 4, at(0xA), 100, at(0xB), 30).unwrap();
    assert_eq!(record.mark_taker_deposited(at(2)), Err(EscrowError::NotReady));
    assert_eq!(record.taker, None);
    assert!(!record.taker_deposited);

    assert_eq!(record.mark_maker_deposited(), Ok(()));
    assert!(record.maker_deposited);
    assert_eq!(record.current_phase(), Phase::Funded);
    assert_eq!(record.mark_maker_deposited(), Err(EscrowError::AlreadyDeposited));
    assert!(record.maker_deposited);

    assert_eq!(record.mark_taker_deposited(at(2)), Ok(()));
    assert_eq!(record.taker, Some(at(2)));
    assert!(record.taker_deposited);
    assert_eq!(record.current_phase(), Phase::Settled);
    assert_eq!(record.mark_taker_deposited(at(3)), Err(EscrowError::AlreadyTaken));
    assert_eq!(record.taker, Some(at(2)));
    assert_eq!(record.maker, at(1));
}

#[test]
fn a_vault_takes_only_its_own_asset() {
    let mut vault = VaultCustody::new(at(1), at(0x51), at(0xA));
    assert_eq!(vault, VaultCustody { owner: at(1), address: at(0x51), asset: at(0xA), held: 0 });
    assert!(vault.is_empty());
    assert_eq!(vault.deposit(0, at(0xA)), Err(EscrowError::InvalidAmount));
    assert_eq!(vault.deposit(5, at(0xB)), Err(EscrowError::InvalidAsset));
    assert_eq!(vault.held, 0);
    assert_eq!(vault.deposit(40, at(0xA)), Ok(()));
    assert_eq!(vault.deposit(2, at(0xA)), Ok(()));
    assert_eq!(vault.held, 42);
    assert_eq!(vault.holding(&at(0xA)), 42);
    assert_eq!(vault.holding(&at(0xB)), 0);
    assert!(!vault.is_empty());
}

#[test]
fn a_vault_never_holds_more_than_fits() {
    let mut vault = VaultCustody::new(at(1), at(0x51), at(0xA));
    assert_eq!(vault.deposit(u64::MAX - 1, at(0xA)), Ok(()));
    assert_eq!(vault.deposit(2, at(0xA)), Err(EscrowError::InvalidAmount));
    assert_eq!(vault.held, u64::MAX - 1);
    assert_eq!(vault.deposit(1, at(0xA)), Ok(()));
    assert_eq!(vault.held, u64::MAX);
    assert_eq!(vault.deposit(1, at(0xA)), Err(EscrowError::InvalidAmount));
}

#[test]
fn a_vault_releases_no_more_than_it_holds() {
    let mut vault = VaultCustody::new(at(1), at(0x51), at(0xA));
    vault.deposit(100, at(0xA)).unwrap();
    assert_eq!(vault.release(0, at(0xA), at(2)), Err(EscrowError::InvalidAmount));
    assert_eq!(vault.release(101, at(0xA), at(2)), Err(EscrowError::InsufficientCustody));
    assert_eq!(vault.release(1, at(0xB), at(2)), Err(EscrowError::InsufficientCustody));
    assert_eq!(vault.held, 100);
    assert_eq!(
        vault.release(60, at(0xA), at(2)),
        Ok(Transfer { from: at(0x51), to: at(2), asset: at(0xA), amount: 60 })
    );
    assert_eq!(vault.held, 40);
    assert_eq!(
        vault.release(40, at(0xA), at(3)),
        Ok(Transfer { from: at(0x51), to: at(3), asset: at(0xA), amount: 40 })
    );
    assert!(vault.is_empty());
    assert_eq!(vault.release(1, at(0xA), at(3)), Err(EscrowError::InsufficientCustody));
}

#[test]
fn callers_are_held_to_their_role() {
    assert_eq!(authorize(&signing(at(1)), &at(1)), Ok(()));
    assert_eq!(authorize(&signing(at(2)), &at(1)), Err(EscrowError::Unauthorized));
    assert_eq!(authorize(&Caller { key: at(1), is_signer: false }, &at(1)), Err(EscrowError::Unauthorized));
    assert_eq!(authorize_signer(&signing(at(2))), Ok(()));
    assert_eq!(authorize_signer(&Caller { key: at(2), is_signer: false }), Err(EscrowError::Unauthorized));
}

#[test]
fn tenders_are_held_to_asset_and_amount() {
    let tender = Tender { asset: at(0xB), amount: 30 };
    assert_eq!(check_tender(&tender, &at(0xB), 30), Ok(()));
    assert_eq!(check_tender(&tender, &at(0xA), 30), Err(EscrowError::InvalidAsset));
    assert_eq!(check_tender(&tender, &at(0xA), 31), Err(EscrowError::InvalidAsset));
    assert_eq!(check_tender(&tender, &at(0xB), 31), Err(EscrowError::InvalidAmount));
    assert_eq!(check_tender(&tender, &at(0xB), 29), Err(EscrowError::InvalidAmount));
}

#[test]
fn references_are_held_to_every_field() {
    let recorded = EscrowRef { maker: at(1), seed: 1, escrow: at(0x50), vault: at(0x51) };
    assert_eq!(check_reference(&recorded, &recorded), Ok(()));
    assert_eq!(check_reference(&EscrowRef { maker: at(2), ..recorded }, &recorded), Err(EscrowError::InvalidAccount));
    assert_eq!(check_reference(&EscrowRef { seed: 2, ..recorded }, &recorded), Err(EscrowError::InvalidAccount));
    assert_eq!(check_reference(&EscrowRef { escrow: at(2), ..recorded }, &recorded), Err(EscrowError::InvalidAccount));
    assert_eq!(check_reference(&EscrowRef { vault: at(2), ..recorded }, &recorded), Err(EscrowError::InvalidAccount));
}

fn user_vault(held: u64) -> DepositVault {
    DepositVault {
        user: signing(at(1)),
        user_vault: VaultCustody { owner: at(1), address: at(0x51), asset: at(0xA), held },
        user_vault_lamports: at(0x51),
        asset: at(0xA),
    }
}

#[test]
fn deposit_vault_adds_to_what_the_vault_holds() {
    let mut ctx = user_vault(40);
    assert_eq!(
        deposit_vault_order(&ctx, 2),
        Ok(Transfer { from: at(1), to: at(0x51), asset: at(0xA), amount: 2 })
    );
    assert_eq!(deposit_vault(&mut ctx, 2, TransferOutcome::Completed), Ok(()));
    assert_eq!(ctx.user_vault.held, 42);
    assert_eq!(ctx, DepositVault { user_vault: VaultCustody { held: 42, ..user_vault(40).user_vault }, ..user_vault(40) });
}

#[test]
fn deposit_vault_refuses_what_is_out_of_order() {
    let mut ctx = user_vault(40);
    assert_eq!(deposit_vault(&mut ctx, 0, TransferOutcome::Completed), Err(EscrowError::InvalidAmount));

    let mut stranger = DepositVault { user: signing(at(2)), ..user_vault(40) };
    assert_eq!(deposit_vault(&mut stranger, 5, TransferOutcome::Completed), Err(EscrowError::Unauthorized));
    assert_eq!(stranger.user_vault.held, 40);

    let mut unsigned = DepositVault { user: Caller { key: at(1), is_signer: false }, ..user_vault(40) };
    assert_eq!(deposit_vault(&mut unsigned, 5, TransferOutcome::Completed), Err(EscrowError::Unauthorized));

    let mut elsewhere = DepositVault { user_vault_lamports: at(0x52), ..user_vault(40) };
    assert_eq!(deposit_vault(&mut elsewhere, 5, TransferOutcome::Completed), Err(EscrowError::InvalidAccount));
    assert_eq!(deposit_vault_order(&elsewhere, 5), Err(EscrowError::InvalidAccount));

    let mut other_asset = DepositVault { asset: at(0xB), ..user_vault(40) };
    assert_eq!(deposit_vault(&mut other_asset, 5, TransferOutcome::Completed), Err(EscrowError::InvalidAsset));

    let mut full = user_vault(u64::MAX - 4);
    assert_eq!(deposit_vault(&mut full, 5, TransferOutcome::Completed), Err(EscrowError::InvalidAmount));
    assert_eq!(full.user_vault.held, u64::MAX - 4);
    assert_eq!(deposit_vault(&mut full, 4, TransferOutcome::Completed), Ok(()));
    assert_eq!(full.user_vault.held, u64::MAX);

    let mut zero_by_a_stranger = DepositVault { user: signing(at(2)), ..user_vault(40) };
    assert_eq!(deposit_vault(&mut zero_by_a_stranger, 0, TransferOutcome::Completed), Err(EscrowError::InvalidAmount));
}

#[test]
fn deposit_vault_that_could_not_be_moved_changes_nothing() {
    let mut ctx = user_vault(40);
    assert_eq!(deposit_vault(&mut ctx, 2, TransferOutcome::Failed), Err(EscrowError::TransferFailure));
    assert_eq!(ctx, user_vault(40));
}

#[test]
fn maker_opens_and_funds_in_one_step() {
    let mut program = EscrowProgram::new(at(9));
    let ctx = Maker { maker: signing(at(1)), mint_m: at(0xA), mint_n: at(0xB) };
    let order = maker_order(&program, &ctx, 1, 30, 100).unwrap();
    assert_eq!(order.from, at(1));
    assert_eq!(order.asset, at(0xA));
    assert_eq!(order.amount, 100);

    let id = maker(&mut program, &ctx, 1, 30, 100, TransferOutcome::Completed).unwrap();
    let account = program.get(&id).unwrap();
    assert_eq!(account.vault.address, order.to);
    assert_eq!(account.vault.held, 100);
    assert!(account.record.maker_deposited);
    assert_eq!(account.record.maker, at(1));
    assert_eq!(account.record.seed, 1);
    assert_eq!(account.record.give_asset, at(0xA));
    assert_eq!(account.record.give_amount, 100);
    assert_eq!(account.record.want_asset, at(0xB));
    assert_eq!(account.record.want_amount, 30);

    assert_eq!(maker_order(&program, &ctx, 1, 30, 100), Err(EscrowError::DuplicateEscrow));
    assert_eq!(
        maker(&mut program, &ctx, 1, 30, 100, TransferOutcome::Completed),
        Err(EscrowError::DuplicateEscrow)
    );
    assert_eq!(program.get(&id), Some(account));
}

#[test]
fn maker_opens_nothing_when_the_deposit_could_not_be_moved() {
    let mut program = EscrowProgram::new(at(9));
    let ctx = Maker { maker: signing(at(1)), mint_m: at(0xA), mint_n: at(0xB) };
    assert_eq!(maker(&mut program, &ctx, 1, 30, 100, TransferOutcome::Failed), Err(EscrowError::TransferFailure));
    assert_eq!(program.open_offers(), 0);
    assert_eq!(maker(&mut program, &ctx, 1, 30, 0, TransferOutcome::Completed), Err(EscrowError::InvalidAmount));
    assert_eq!(maker(&mut program, &ctx, 1, 0, 100, TransferOutcome::Completed), Err(EscrowError::InvalidAmount));
    assert_eq!(maker_order(&program, &ctx, 1, 0, 100), Err(EscrowError::InvalidAmount));
    let unsigned = Maker { maker: Caller { key: at(1), is_signer: false }, ..ctx };
    assert_eq!(maker(&mut program, &unsigned, 1, 30, 100, TransferOutcome::Completed), Err(EscrowError::Unauthorized));
    assert_eq!(maker_order(&program, &unsigned, 1, 30, 100), Err(EscrowError::Unauthorized));
    assert_eq!(program.open_offers(), 0);
    assert!(maker(&mut program, &ctx, 1, 30, 100, TransferOutcome::Completed).is_ok());
}

#[test]
fn taker_settles_what_maker_opened() {
    let mut program = EscrowProgram::new(at(9));
    let ctx = Maker { maker: signing(at(1)), mint_m: at(0xA), mint_n: at(0xB) };
    let id = maker(&mut program, &ctx, 1, 30, 100, TransferOutcome::Completed).unwrap();
    let target = program.get(&id).unwrap().reference_of();

    let short = Taker { taker: signing(at(2)), escrow: target, tender: Tender { asset: at(0xB), amount: 3 } };
    assert_eq!(taker(&mut program, &short, TransferOutcome::Completed), Err(EscrowError::InvalidAmount));
    let exact = Taker { taker: signing(at(2)), escrow: target, tender: Tender { asset: at(0xB), amount: 30 } };
    let closed = taker(&mut program, &exact, TransferOutcome::Completed).unwrap();
    assert_eq!(closed.record.taker, Some(at(2)));
    assert_eq!(closed.vault.held, 0);
    assert_eq!(program.get(&id), None);
    assert_eq!(taker(&mut program, &exact, TransferOutcome::Completed), Err(EscrowError::AlreadyTaken));
}

#[test]
fn refund_gives_back_what_maker_opened() {
    let mut program = EscrowProgram::new(at(9));
    let ctx = Maker { maker: signing(at(1)), mint_m: at(0xA), mint_n: at(0xB) };
    let id = maker(&mut program, &ctx, 1, 30, 100, TransferOutcome::Completed).unwrap();
    let target = program.get(&id).unwrap().reference_of();

    let by_another = Refund { maker: signing(at(2)), escrow: target };
    assert_eq!(refund(&mut program, &by_another, TransferOutcome::Completed), Err(EscrowError::Unauthorized));
    let by_maker = Refund { maker: signing(at(1)), escrow: target };
    let closed = refund(&mut program, &by_maker, TransferOutcome::Completed).unwrap();
    assert_eq!(closed.vault.held, 0);
    assert_eq!(closed.record.taker, None);
    assert_eq!(program.get(&id), None);
    assert_eq!(refund(&mut program, &by_maker, TransferOutcome::Completed), Err(EscrowError::InvalidAccount));
}

#[test]
fn every_refusal_has_its_words() {
    assert_eq!(EscrowError::InvalidAmount.message(), "Invalid amount");
    assert_eq!(EscrowError::InvalidAsset.message(), "Invalid asset");
    let all = [
        EscrowError::DuplicateEscrow,
        EscrowError::InvalidAmount,
        EscrowError::InvalidAsset,
        EscrowError::Unauthorized,
        EscrowError::InvalidAccount,
        EscrowError::AlreadyDeposited,
        EscrowError::NotReady,
        EscrowError::AlreadyTaken,
        EscrowError::CannotCancel,
        EscrowError::InsufficientCustody,
        EscrowError::TransferFailure,
        EscrowError::NotEmpty,
    ];
    for (i, a) in all.iter().enumerate() {
        assert!(!a.message().is_empty());
        for b in all.iter().skip(i + 1) {
            assert_ne!(a, b);
            assert_ne!(a.message(), b.message());
        }
    }
}

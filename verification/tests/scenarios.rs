use std::collections::HashMap;

use escrow::Address;
use escrow::Caller;
use escrow::EscrowError;
use escrow::EscrowProgram;
use escrow::EscrowRef;
use escrow::Phase;
use escrow::Tender;
use escrow::Transfer;
use escrow::TransferOutcome;

/// A host's ledger: who holds how much of what.
struct Books {
    balances: HashMap<([u8; 32], [u8; 32]), i128>,
}

impl Books {
    fn new() -> Books {
        Books { balances: HashMap::new() }
    }

    fn balance(&self, holder: &Address, asset: &Address) -> i128 {
        *self.balances.get(&(holder.bytes, asset.bytes)).unwrap_or(&0)
    }

    fn credit(&mut self, holder: &Address, asset: &Address, amount: i128) {
        *self.balances.entry((holder.bytes, asset.bytes)).or_insert(0) += amount;
    }

    /// Makes the moves, all or none: a holder cannot pay out more than it has.
    fn perform(&mut self, moves: &[Transfer]) -> TransferOutcome {
        let mut trial = self.balances.clone();
        for m in moves {
            let from = trial.entry((m.from.bytes, m.asset.bytes)).or_insert(0);
            if *from < m.amount as i128 {
                return TransferOutcome::Failed;
            }
            *from -= m.amount as i128;
            *trial.entry((m.to.bytes, m.asset.bytes)).or_insert(0) += m.amount as i128;
        }
        self.balances = trial;
        TransferOutcome::Completed
    }
}

fn named(tag: u8) -> Address {
    Address::new([tag; 32])
}

fn signer(key: Address) -> Caller {
    Caller { key, is_signer: true }
}

struct Setup {
    program: EscrowProgram,
    books: Books,
    maker: Address,
    taker: Address,
    asset_a: Address,
    asset_b: Address,
    target: EscrowRef,
}

/// Maker opens seed 1, giving 100 of A for 30 of B, and deposits the 100 A.
fn funded_offer() -> Setup {
    let maker = named(1);
    let taker = named(2);
    let asset_a = named(0xA);
    let asset_b = named(0xB);
    let mut books = Books::new();
    books.credit(&maker, &asset_a, 100);
    books.credit(&taker, &asset_b, 30);

    let mut program = EscrowProgram::new(named(9));
    let id = program.create(&signer(maker), 1, asset_a, 100, asset_b, 30).unwrap();
    let opened = program.get(&id).unwrap();
    assert_eq!(opened.record.current_phase(), Phase::Open);
    let target = opened.reference_of();
    assert_eq!(target.escrow, id);
    assert_eq!(target.maker, maker);
    assert_eq!(target.seed, 1);

    let tender = Tender { asset: asset_a, amount: 100 };
    let order = program.maker_deposit_order(&signer(maker), &target, &tender).unwrap();
    assert_eq!(order, Transfer { from: maker, to: target.vault, asset: asset_a, amount: 100 });
    let moved = books.perform(&[order]);
    assert_eq!(moved, TransferOutcome::Completed);
    assert_eq!(program.maker_deposit(&signer(maker), &target, &tender, moved), Ok(()));

    let funded = program.get(&id).unwrap();
    assert!(funded.record.maker_deposited);
    assert!(!funded.record.taker_deposited);
    assert_eq!(funded.record.taker, None);
    assert_eq!(funded.vault.held, 100);
    assert_eq!(funded.record.current_phase(), Phase::Funded);
    assert_eq!(books.balance(&target.vault, &asset_a), 100);
    assert_eq!(books.balance(&maker, &asset_a), 0);

    Setup { program, books, maker, taker, asset_a, asset_b, target }
}

#[test]
fn settle_exchanges_both_assets_and_closes_the_offer() {
    let mut s = funded_offer();
    let pay = Tender { asset: s.asset_b, amount: 30 };

    let (payment, release) = s.program.settlement_orders(&signer(s.taker), &s.target, &pay).unwrap();
    assert_eq!(payment, Transfer { from: s.taker, to: s.maker, asset: s.asset_b, amount: 30 });
    assert_eq!(release, Transfer { from: s.target.vault, to: s.taker, asset: s.asset_a, amount: 100 });
    let moved = s.books.perform(&[payment, release]);
    assert_eq!(moved, TransferOutcome::Completed);
    let closed = s.program.taker_deposit_and_settle(&signer(s.taker), &s.target, &pay, moved).unwrap();

    assert_eq!(s.books.balance(&s.maker, &s.asset_b), 30);
    assert_eq!(s.books.balance(&s.taker, &s.asset_a), 100);
    assert_eq!(s.books.balance(&s.taker, &s.asset_b), 0);
    assert_eq!(s.books.balance(&s.target.vault, &s.asset_a), 0);
    assert_eq!(closed.vault.held, 0);
    assert_eq!(closed.record.taker, Some(s.taker));
    assert!(closed.record.taker_deposited);
    assert_eq!(closed.record.current_phase(), Phase::Settled);
    assert_eq!(s.program.get(&s.target.escrow), None);
    assert_eq!(s.program.open_offers(), 0);

    assert_eq!(
        s.program.settlement_orders(&signer(s.taker), &s.target, &pay),
        Err(EscrowError::AlreadyTaken)
    );
    assert_eq!(
        s.program.taker_deposit_and_settle(&signer(s.taker), &s.target, &pay, TransferOutcome::Completed),
        Err(EscrowError::AlreadyTaken)
    );
}

#[test]
fn cancel_before_any_taker_refunds_the_maker_and_closes_the_offer() {
    let mut s = funded_offer();

    let order = s.program.refund_order(&signer(s.maker), &s.target).unwrap();
    assert_eq!(
        order,
        Some(Transfer { from: s.target.vault, to: s.maker, asset: s.asset_a, amount: 100 })
    );
    let moved = s.books.perform(&[order.unwrap()]);
    assert_eq!(moved, TransferOutcome::Completed);
    let closed = s.program.cancel(&signer(s.maker), &s.target, moved).unwrap();

    assert_eq!(s.books.balance(&s.maker, &s.asset_a), 100);
    assert_eq!(s.books.balance(&s.target.vault, &s.asset_a), 0);
    assert_eq!(s.books.balance(&s.maker, &s.asset_b), 0);
    assert_eq!(s.books.balance(&s.taker, &s.asset_b), 30);
    assert_eq!(closed.vault.held, 0);
    assert_eq!(closed.record.taker, None);
    assert_eq!(s.program.get(&s.target.escrow), None);

    let give = Tender { asset: s.asset_a, amount: 100 };
    let pay = Tender { asset: s.asset_b, amount: 30 };
    assert_eq!(
        s.program.maker_deposit(&signer(s.maker), &s.target, &give, TransferOutcome::Completed),
        Err(EscrowError::InvalidAccount)
    );
    assert_eq!(
        s.program.cancel(&signer(s.maker), &s.target, TransferOutcome::Completed),
        Err(EscrowError::InvalidAccount)
    );
    assert_eq!(
        s.program.taker_deposit_and_settle(&signer(s.taker), &s.target, &pay, TransferOutcome::Completed),
        Err(EscrowError::AlreadyTaken)
    );
    assert_eq!(s.program.maker_deposit_order(&signer(s.maker), &s.target, &give), Err(EscrowError::InvalidAccount));
    assert_eq!(s.program.refund_order(&signer(s.maker), &s.target), Err(EscrowError::InvalidAccount));
}

#[test]
fn settlement_with_the_wrong_amount_changes_nothing() {
    let mut s = funded_offer();
    let short = Tender { asset: s.asset_b, amount: 29 };
    let before = s.program.get(&s.target.escrow).unwrap();

    assert_eq!(
        s.program.settlement_orders(&signer(s.taker), &s.target, &short),
        Err(EscrowError::InvalidAmount)
    );
    assert_eq!(
        s.program.taker_deposit_and_settle(&signer(s.taker), &s.target, &short, TransferOutcome::Completed),
        Err(EscrowError::InvalidAmount)
    );
    assert_eq!(s.program.get(&s.target.escrow), Some(before));
    assert_eq!(s.books.balance(&s.maker, &s.asset_b), 0);
    assert_eq!(s.books.balance(&s.taker, &s.asset_b), 30);
    assert_eq!(s.books.balance(&s.target.vault, &s.asset_a), 100);
}

#[test]
fn settlement_the_taker_cannot_pay_for_changes_nothing() {
    let mut s = funded_offer();
    let pay = Tender { asset: s.asset_b, amount: 30 };
    let poor = named(3);
    let before = s.program.get(&s.target.escrow).unwrap();

    let (payment, release) = s.program.settlement_orders(&signer(poor), &s.target, &pay).unwrap();
    let moved = s.books.perform(&[payment, release]);
    assert_eq!(moved, TransferOutcome::Failed);
    assert_eq!(
        s.program.taker_deposit_and_settle(&signer(poor), &s.target, &pay, moved),
        Err(EscrowError::TransferFailure)
    );
    assert_eq!(s.program.get(&s.target.escrow), Some(before));
    assert_eq!(s.books.balance(&s.target.vault, &s.asset_a), 100);
    assert_eq!(s.books.balance(&poor, &s.asset_a), 0);
    assert_eq!(s.books.balance(&s.maker, &s.asset_b), 0);
}

#[test]
fn second_maker_deposit_is_refused_and_moves_nothing() {
    let mut s = funded_offer();
    let give = Tender { asset: s.asset_a, amount: 100 };
    let before = s.program.get(&s.target.escrow).unwrap();

    assert_eq!(
        s.program.maker_deposit_order(&signer(s.maker), &s.target, &give),
        Err(EscrowError::AlreadyDeposited)
    );
    assert_eq!(
        s.program.maker_deposit(&signer(s.maker), &s.target, &give, TransferOutcome::Completed),
        Err(EscrowError::AlreadyDeposited)
    );
    assert_eq!(s.program.get(&s.target.escrow), Some(before));
    assert_eq!(s.books.balance(&s.target.vault, &s.asset_a), 100);
}

#[test]
fn cancel_of_an_unfunded_offer_moves_nothing() {
    let maker = named(1);
    let mut program = EscrowProgram::new(named(9));
    let id = program.create(&signer(maker), 5, named(0xA), 100, named(0xB), 30).unwrap();
    let target = program.get(&id).unwrap().reference_of();

    assert_eq!(program.refund_order(&signer(maker), &target), Ok(None));
    let closed = program.cancel(&signer(maker), &target, TransferOutcome::Failed).unwrap();
    assert_eq!(closed.vault.held, 0);
    assert!(!closed.record.maker_deposited);
    assert_eq!(program.get(&id), None);
}

#[test]
fn one_maker_keeps_several_offers_apart_by_seed() {
    let maker = named(1);
    let mut program = EscrowProgram::new(named(9));
    let first = program.create(&signer(maker), 1, named(0xA), 100, named(0xB), 30).unwrap();
    let second = program.create(&signer(maker), 2, named(0xA), 5, named(0xB), 7).unwrap();
    assert_ne!(first, second);
    assert_eq!(program.open_offers(), 2);
    assert_eq!(program.get(&first).unwrap().record.give_amount, 100);
    assert_eq!(program.get(&second).unwrap().record.give_amount, 5);

    let target = program.get(&first).unwrap().reference_of();
    program.cancel(&signer(maker), &target, TransferOutcome::Completed).unwrap();
    assert_eq!(program.get(&first), None);
    assert_eq!(program.get(&second).unwrap().record.seed, 2);
    assert_eq!(program.open_offers(), 1);
}

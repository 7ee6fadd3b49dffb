//! What holds of the offers whatever is asked of them. Each statement here is
//! proved from the definitions that the transitions are held to.

use crate::account::EscrowAccount;
use crate::address::derived;
use crate::address::Address;
use crate::address::Role;
use crate::auth::signed_by;
use crate::auth::Caller;
use crate::auth::EscrowRef;
use crate::auth::Tender;
use crate::errors::EscrowError;
use crate::instructions::maker::after_maker;
use crate::instructions::maker::Maker;
use crate::program::after_cancel;
use crate::program::after_create;
use crate::program::after_create_at;
use crate::program::after_maker_deposit;
use crate::program::after_settle;
use crate::program::book_anchored;
use crate::program::book_wf;
use crate::program::cancel_check;
use crate::program::deposit_check;
use crate::program::settle_check;
use crate::state::escrow::Escrow;
use crate::state::vault::VaultCustody;
use crate::transfer::lemma_single_move;
use crate::transfer::lemma_two_moves;
use crate::transfer::Ledger;
use crate::transfer::Transfer;
use crate::transfer::TransferOutcome;
use vstd::prelude::*;

verus! {

/// Settlement happens whole or not at all.
///
/// Take a sound book and an offer in it whose deposit is in the vault. If
/// settlement succeeds, the host made exactly two moves: the wanted amount
/// from the taker to the maker, and the deposit from the vault to the taker.
/// The offer is closed with the caller as its taker and an empty vault, and
/// every other offer is untouched. If it does not succeed, the request was
/// refused before any move was named, or the host made no move.
pub proof fn law_settlement_is_atomic(
    book: Map<Address, EscrowAccount>,
    caller: Caller,
    target: EscrowRef,
    tender: Tender,
    moved: TransferOutcome,
)
    requires
        book_wf(book),
        book.contains_key(target.escrow),
        book[target.escrow].record.maker_deposited,
    ensures
        after_settle(book, caller, target, tender, moved) is Ok <==> settle_check(
            book,
            caller,
            target,
            tender,
        ) is Ok && moved == TransferOutcome::Completed,
        after_settle(book, caller, target, tender, moved) matches Ok((closed, next)) ==> {
            let offer = book[target.escrow];
            &&& settle_check(book, caller, target, tender) == Ok::<
                (Transfer, Transfer),
                EscrowError,
            >((offer.payment_move(caller.key), offer.release_move(caller.key)))
            &&& offer.payment_move(caller.key) == Transfer {
                from: caller.key,
                to: offer.record.maker,
                asset: offer.record.want_asset,
                amount: offer.record.want_amount,
            }
            &&& offer.release_move(caller.key) == Transfer {
                from: offer.vault.address,
                to: caller.key,
                asset: offer.record.give_asset,
                amount: offer.record.give_amount,
            }
            &&& closed.record.taker == Some(caller.key)
            &&& closed.record.taker_deposited
            &&& closed.record.maker == offer.record.maker
            &&& closed.vault.held == 0
            &&& closed.wf()
            &&& next == book.remove(target.escrow)
            &&& !next.contains_key(target.escrow)
            &&& book_wf(next)
        },
{
}

/// What settlement's two moves do to any ledger: the maker has the wanted
/// amount more of the wanted asset, the taker has the deposit more of the
/// offered asset and the wanted amount less of the wanted asset, and the
/// vault has the deposit less. Nobody else's holdings change.
///
/// This is stated for a taker who is not the maker, a vault that is neither
/// of them, and two different assets; where parties or assets coincide,
/// `lemma_two_moves` gives the sum.
pub proof fn law_settlement_pays_both_sides(
    offer: EscrowAccount,
    caller: Caller,
    target: EscrowRef,
    tender: Tender,
    ledger: Ledger,
)
    requires
        offer.wf(),
        offer.record.maker_deposited,
        offer.settle_check(caller, target, tender) is Ok,
        caller.key != offer.record.maker,
        offer.vault.address != offer.record.maker,
        offer.vault.address != caller.key,
        offer.record.give_asset != offer.record.want_asset,
    ensures
        ({
            let (payment, release) = offer.settle_check(caller, target, tender)->Ok_0;
            let end = ledger.after(payment).after(release);
            let maker = offer.record.maker;
            let taker = caller.key;
            let vault = offer.vault.address;
            let give = offer.record.give_asset;
            let want = offer.record.want_asset;
            &&& end.balance(maker, want) == ledger.balance(maker, want) + offer.record.want_amount
            &&& end.balance(maker, give) == ledger.balance(maker, give)
            &&& end.balance(taker, give) == ledger.balance(taker, give) + offer.record.give_amount
            &&& end.balance(taker, want) == ledger.balance(taker, want) - offer.record.want_amount
            &&& end.balance(vault, give) == ledger.balance(vault, give) - offer.vault.held
            &&& offer.vault.held == offer.record.give_amount
            &&& offer.settled(taker).vault.held == 0
            &&& forall|holder: Address, asset: Address|
                holder != maker && holder != taker && holder != vault ==> end.balance(holder, asset)
                    == ledger.balance(holder, asset)
        }),
{
    let (payment, release) = offer.settle_check(caller, target, tender)->Ok_0;
    let mid = ledger.after(payment);
    assert forall|holder: Address, asset: Address|
        mid.after(release).balance(holder, asset) == ledger.balance(holder, asset) + (if asset
            == payment.asset && holder == payment.to {
            payment.amount as int
        } else {
            0
        }) - (if asset == payment.asset && holder == payment.from {
            payment.amount as int
        } else {
            0
        }) + (if asset == release.asset && holder == release.to {
            release.amount as int
        } else {
            0
        }) - (if asset == release.asset && holder == release.from {
            release.amount as int
        } else {
            0
        }) by {
        lemma_two_moves(ledger, payment, release, holder, asset);
    }
}

/// The maker's deposit is taken once.
///
/// After a deposit that succeeded, the same request is refused with
/// `AlreadyDeposited` before any move is named, whatever the host reports,
/// and no request at all gets a second deposit into that offer.
pub proof fn law_no_double_deposit(
    book: Map<Address, EscrowAccount>,
    caller: Caller,
    target: EscrowRef,
    tender: Tender,
    moved: TransferOutcome,
    again: TransferOutcome,
)
    requires
        after_maker_deposit(book, caller, target, tender, moved) is Ok,
    ensures
        ({
            let next = after_maker_deposit(book, caller, target, tender, moved)->Ok_0;
            &&& deposit_check(next, caller, target, tender) == Err::<Transfer, EscrowError>(
                EscrowError::AlreadyDeposited,
            )
            &&& after_maker_deposit(next, caller, target, tender, again) == Err::<
                Map<Address, EscrowAccount>,
                EscrowError,
            >(EscrowError::AlreadyDeposited)
            &&& forall|other: Caller, pointing: EscrowRef, bringing: Tender, report: TransferOutcome|
                pointing.escrow == target.escrow ==> #[trigger] after_maker_deposit(
                    next,
                    other,
                    pointing,
                    bringing,
                    report,
                ) is Err
        }),
{
}

/// Once a taker has committed, the offer cannot be cancelled.
///
/// Whoever asks and whatever the host reports, cancellation of such an
/// offer is refused and names no move; asked by the maker, pointing at the
/// offer, it is refused with `CannotCancel`.
pub proof fn law_no_late_cancel(offer: EscrowAccount, caller: Caller, target: EscrowRef, moved: TransferOutcome)
    requires
        offer.record.taker_deposited,
    ensures
        offer.cancel_check(caller, target) is Err,
        offer.after_cancel(caller, target, moved) is Err,
        signed_by(caller, offer.record.maker) && target == offer.reference() ==> offer.cancel_check(
            caller,
            target,
        ) == Err::<Option<Transfer>, EscrowError>(EscrowError::CannotCancel) && offer.after_cancel(
            caller,
            target,
            moved,
        ) == Err::<EscrowAccount, EscrowError>(EscrowError::CannotCancel),
{
}

/// The same for an offer in a book: with a taker committed, cancellation
/// leaves the book as it is.
pub proof fn law_no_late_cancel_in_book(
    book: Map<Address, EscrowAccount>,
    caller: Caller,
    target: EscrowRef,
    moved: TransferOutcome,
)
    requires
        book.contains_key(target.escrow),
        book[target.escrow].record.taker_deposited,
    ensures
        cancel_check(book, caller, target) is Err,
        after_cancel(book, caller, target, moved) is Err,
        signed_by(caller, book[target.escrow].record.maker) && target
            == book[target.escrow].reference() ==> after_cancel(book, caller, target, moved) == Err::<
            (EscrowAccount, Map<Address, EscrowAccount>),
            EscrowError,
        >(EscrowError::CannotCancel),
{
}

/// Opening, funding and cancelling an offer gives the maker back exactly
/// what the maker paid in.
///
/// The deposit moves the offered amount of the offered asset from the maker
/// to the vault, the refund moves the same amount of the same asset from the
/// vault to the maker, and after both every holding of every asset is what
/// it was. The offer is gone and the book is the book from before it was
/// opened.
pub proof fn law_refund_is_exact(
    book: Map<Address, EscrowAccount>,
    record_at: Option<Address>,
    vault_at: Option<Address>,
    caller: Caller,
    seed: u64,
    give_asset: Address,
    give_amount: u64,
    want_asset: Address,
    want_amount: u64,
    ledger: Ledger,
)
    requires
        after_create_at(
            book,
            record_at,
            vault_at,
            caller,
            seed,
            give_asset,
            give_amount,
            want_asset,
            want_amount,
        ) is Ok,
    ensures
        ({
            let (id, opened) = after_create_at(
                book,
                record_at,
                vault_at,
                caller,
                seed,
                give_asset,
                give_amount,
                want_asset,
                want_amount,
            )->Ok_0;
            let target = opened[id].reference();
            let tender = Tender { asset: give_asset, amount: give_amount };
            let deposit = Transfer {
                from: caller.key,
                to: vault_at->0,
                asset: give_asset,
                amount: give_amount,
            };
            let refund = Transfer {
                from: vault_at->0,
                to: caller.key,
                asset: give_asset,
                amount: give_amount,
            };
            let funded = after_maker_deposit(opened, caller, target, tender, TransferOutcome::Completed);
            &&& deposit_check(opened, caller, target, tender) == Ok::<Transfer, EscrowError>(deposit)
            &&& funded is Ok
            &&& cancel_check(funded->Ok_0, caller, target) == Ok::<Option<Transfer>, EscrowError>(
                Some(refund),
            )
            &&& after_cancel(funded->Ok_0, caller, target, TransferOutcome::Completed) matches Ok(
                (closed, last),
            ) && closed.vault.held == 0 && !closed.record.maker_deposited && !last.contains_key(id)
                && last == book
            &&& forall|holder: Address, asset: Address|
                ledger.after(deposit).after(refund).balance(holder, asset) == ledger.balance(
                    holder,
                    asset,
                )
            &&& forall|holder: Address, asset: Address|
                asset != give_asset ==> ledger.after(refund).balance(holder, asset) == ledger.balance(
                    holder,
                    asset,
                )
        }),
{
    let (id, opened) = after_create_at(
        book,
        record_at,
        vault_at,
        caller,
        seed,
        give_asset,
        give_amount,
        want_asset,
        want_amount,
    )->Ok_0;
    let target = opened[id].reference();
    let tender = Tender { asset: give_asset, amount: give_amount };
    let deposit = Transfer { from: caller.key, to: vault_at->0, asset: give_asset, amount: give_amount };
    let refund = Transfer { from: vault_at->0, to: caller.key, asset: give_asset, amount: give_amount };
    let funded = after_maker_deposit(opened, caller, target, tender, TransferOutcome::Completed);
    assert(funded is Ok);
    let end = after_cancel(funded->Ok_0, caller, target, TransferOutcome::Completed);
    assert(end is Ok);
    assert(end->Ok_0.1 =~= book);
    assert forall|holder: Address, asset: Address|
        ledger.after(deposit).after(refund).balance(holder, asset) == ledger.balance(
            holder,
            asset,
        ) by {
        lemma_two_moves(ledger, deposit, refund, holder, asset);
    }
    assert forall|holder: Address, asset: Address| asset != give_asset implies ledger.after(
        refund,
    ).balance(holder, asset) == ledger.balance(holder, asset) by {
        lemma_single_move(ledger, refund, holder, asset);
    }
}

/// Only the exact asset in the exact amount settles an offer.
///
/// A signed request that points at an open offer but brings another asset is
/// refused with `InvalidAsset`; one that brings the right asset in another
/// amount is refused with `InvalidAmount`. Either way no move is named and
/// nothing changes, whatever the host reports.
pub proof fn law_identity_binding(
    book: Map<Address, EscrowAccount>,
    caller: Caller,
    target: EscrowRef,
    tender: Tender,
    moved: TransferOutcome,
)
    requires
        book.contains_key(target.escrow),
        caller.is_signer,
        tender.asset != book[target.escrow].record.want_asset || tender.amount
            != book[target.escrow].record.want_amount,
    ensures
        ({
            let refusal = if tender.asset != book[target.escrow].record.want_asset {
                EscrowError::InvalidAsset
            } else {
                EscrowError::InvalidAmount
            };
            &&& settle_check(book, caller, target, tender) == Err::<(Transfer, Transfer), EscrowError>(
                refusal,
            )
            &&& after_settle(book, caller, target, tender, moved) == Err::<
                (EscrowAccount, Map<Address, EscrowAccount>),
                EscrowError,
            >(refusal)
        }),
{
}

/// A request that passes points at the derived locations.
///
/// In a book whose offers sit where their maker and seed put them, a
/// deposit, settlement or cancellation is only let through if the record
/// and the vault it names are the ones derived from the maker and seed it
/// claims.
pub proof fn law_requests_name_derived_locations(
    program: Address,
    book: Map<Address, EscrowAccount>,
    caller: Caller,
    target: EscrowRef,
    tender: Tender,
)
    requires
        deposit_check(book, caller, target, tender) is Ok || settle_check(
            book,
            caller,
            target,
            tender,
        ) is Ok || cancel_check(book, caller, target) is Ok,
    ensures
        book_anchored(program, book) ==> derived(program, Role::Record, target.maker, target.seed)
            == Some(target.escrow) && derived(program, Role::Vault, target.maker, target.seed) == Some(
            target.vault,
        ),
{
    assert(book.contains_key(target.escrow));
    assert(target == book[target.escrow].reference());
}

/// Every step keeps a sound book sound: amounts stay positive, no taker
/// deposits before the maker, a taker is named only by settlement, and each
/// vault holds exactly the deposit that is in custody.
pub proof fn law_steps_keep_offers_sound(
    book: Map<Address, EscrowAccount>,
    record_at: Option<Address>,
    vault_at: Option<Address>,
    caller: Caller,
    seed: u64,
    give_asset: Address,
    give_amount: u64,
    want_asset: Address,
    want_amount: u64,
    target: EscrowRef,
    tender: Tender,
    moved: TransferOutcome,
)
    requires
        book_wf(book),
    ensures
        after_create_at(
            book,
            record_at,
            vault_at,
            caller,
            seed,
            give_asset,
            give_amount,
            want_asset,
            want_amount,
        ) matches Ok((_, next)) ==> book_wf(next),
        after_maker_deposit(book, caller, target, tender, moved) matches Ok(next) ==> book_wf(next),
        after_settle(book, caller, target, tender, moved) matches Ok((closed, next)) ==> book_wf(next)
            && closed.wf(),
        after_cancel(book, caller, target, moved) matches Ok((closed, next)) ==> book_wf(next)
            && closed.wf(),
{
}

/// A maker and a seed name at most one open offer.
///
/// In a book whose offers sit where their maker and seed put them, a signed
/// request to open an offer for a maker and seed that already have one is
/// refused with `DuplicateEscrow`, whatever it offers.
pub proof fn law_one_offer_per_maker_and_seed(
    program: Address,
    book: Map<Address, EscrowAccount>,
    standing: Address,
    caller: Caller,
    seed: u64,
    give_asset: Address,
    give_amount: u64,
    want_asset: Address,
    want_amount: u64,
)
    requires
        book.contains_key(standing),
        book[standing].record.maker == caller.key,
        book[standing].record.seed == seed,
        caller.is_signer,
    ensures
        book_anchored(program, book) ==> after_create(
            program,
            book,
            caller,
            seed,
            give_asset,
            give_amount,
            want_asset,
            want_amount,
        ) == Err::<(Address, Map<Address, EscrowAccount>), EscrowError>(EscrowError::DuplicateEscrow),
{
}

/// A closed offer stays closed.
///
/// Once settlement or cancellation has closed an offer, nothing can be
/// asked of its location but to open a new offer there: a deposit and a
/// cancellation are refused with `InvalidAccount`, a settlement with
/// `AlreadyTaken`, whoever asks and whatever is brought, and no move is
/// named.
pub proof fn law_closed_offers_stay_closed(
    book: Map<Address, EscrowAccount>,
    caller: Caller,
    target: EscrowRef,
    tender: Tender,
    moved: TransferOutcome,
    later: Caller,
    pointing: EscrowRef,
    bringing: Tender,
    report: TransferOutcome,
)
    requires
        pointing.escrow == target.escrow,
    ensures
        after_settle(book, caller, target, tender, moved) matches Ok((_, next)) ==> refuses_all(
            next,
            later,
            pointing,
            bringing,
            report,
        ),
        after_cancel(book, caller, target, moved) matches Ok((_, next)) ==> refuses_all(
            next,
            later,
            pointing,
            bringing,
            report,
        ),
{
}

/// Every request that points at the location is refused as for a location
/// with no open offer.
pub open spec fn refuses_all(
    book: Map<Address, EscrowAccount>,
    caller: Caller,
    target: EscrowRef,
    tender: Tender,
    moved: TransferOutcome,
) -> bool {
    &&& !book.contains_key(target.escrow)
    &&& deposit_check(book, caller, target, tender) == Err::<Transfer, EscrowError>(
        EscrowError::InvalidAccount,
    )
    &&& after_maker_deposit(book, caller, target, tender, moved) == Err::<
        Map<Address, EscrowAccount>,
        EscrowError,
    >(EscrowError::InvalidAccount)
    &&& settle_check(book, caller, target, tender) == Err::<(Transfer, Transfer), EscrowError>(
        EscrowError::AlreadyTaken,
    )
    &&& after_settle(book, caller, target, tender, moved) == Err::<
        (EscrowAccount, Map<Address, EscrowAccount>),
        EscrowError,
    >(EscrowError::AlreadyTaken)
    &&& cancel_check(book, caller, target) == Err::<Option<Transfer>, EscrowError>(
        EscrowError::InvalidAccount,
    )
    &&& after_cancel(book, caller, target, moved) == Err::<
        (EscrowAccount, Map<Address, EscrowAccount>),
        EscrowError,
    >(EscrowError::InvalidAccount)
}

/// The terms of an offer never change, and a step touches one offer only.
///
/// The maker's deposit changes nothing of the record but the note that the
/// deposit is in, and nothing of the vault but what it holds. Settlement
/// adds the taker to the record and changes nothing else of it. Where an
/// offer is cancelled, its maker, seed, assets and amounts are as they were
/// opened. Every other offer in the book is as it was.
pub proof fn law_terms_are_fixed(
    book: Map<Address, EscrowAccount>,
    caller: Caller,
    target: EscrowRef,
    tender: Tender,
    moved: TransferOutcome,
    other: Address,
)
    requires
        other != target.escrow,
    ensures
        after_maker_deposit(book, caller, target, tender, moved) matches Ok(next) ==> {
            let before = book[target.escrow];
            let after = next[target.escrow];
            &&& next.contains_key(target.escrow)
            &&& after.id == before.id
            &&& after.record == Escrow { maker_deposited: true, ..before.record }
            &&& !before.record.maker_deposited
            &&& after.vault == VaultCustody { held: after.vault.held, ..before.vault }
            &&& next.contains_key(other) == book.contains_key(other)
            &&& next[other] == book[other]
        },
        after_settle(book, caller, target, tender, moved) matches Ok((closed, next)) ==> {
            let before = book[target.escrow];
            &&& closed.id == before.id
            &&& closed.record == Escrow {
                taker: Some(caller.key),
                taker_deposited: true,
                ..before.record
            }
            &&& before.record.taker_deposited == false
            &&& next.contains_key(other) == book.contains_key(other)
            &&& next[other] == book[other]
        },
        after_cancel(book, caller, target, moved) matches Ok((closed, next)) ==> {
            let before = book[target.escrow];
            &&& closed.id == before.id
            &&& closed.record == Escrow { maker_deposited: false, ..before.record }
            &&& closed.record.taker == before.record.taker
            &&& next.contains_key(other) == book.contains_key(other)
            &&& next[other] == book[other]
        },
{
}

/// Opening and funding in one step is opening, then the maker's deposit.
///
/// Where the offer can be opened, the one step ends as the deposit into the
/// newly opened offer ends, with the same refusal where the deposit could
/// not be moved; and then the book is the book from before, not one with an
/// unfunded offer left in it.
pub proof fn law_maker_is_create_then_deposit(
    program: Address,
    book: Map<Address, EscrowAccount>,
    ctx: Maker,
    seed: u64,
    token_mint_n_expected: u64,
    amount: u64,
    moved: TransferOutcome,
)
    ensures
        after_create(
            program,
            book,
            ctx.maker,
            seed,
            ctx.mint_m,
            amount,
            ctx.mint_n,
            token_mint_n_expected,
        ) matches Ok((id, opened)) ==> {
            let deposit = after_maker_deposit(
                opened,
                ctx.maker,
                opened[id].reference(),
                Tender { asset: ctx.mint_m, amount },
                moved,
            );
            let one_step = after_maker(program, book, ctx, seed, token_mint_n_expected, amount, moved);
            &&& deposit matches Ok(next) ==> one_step == Ok::<
                (Address, Map<Address, EscrowAccount>),
                EscrowError,
            >((id, next))
            &&& deposit matches Err(e) ==> one_step == Err::<
                (Address, Map<Address, EscrowAccount>),
                EscrowError,
            >(e) && e == EscrowError::TransferFailure
        },
        after_create(
            program,
            book,
            ctx.maker,
            seed,
            ctx.mint_m,
            amount,
            ctx.mint_n,
            token_mint_n_expected,
        ) matches Err(e) ==> after_maker(program, book, ctx, seed, token_mint_n_expected, amount, moved)
            == Err::<(Address, Map<Address, EscrowAccount>), EscrowError>(e),
{
}

} // verus!

//! All open offers of one program, found by the location of their record.
//!
//! An offer is opened at the location derived from its maker and seed, so a
//! maker and seed name at most one open offer, and nothing else is needed to
//! find it again. Settlement and cancellation close the offer: its record
//! and vault are gone afterwards.

use crate::account::EscrowAccount;
use crate::address::derived;
use crate::address::locate;
use crate::address::Address;
use crate::address::Role;
use crate::auth::authorize_signer;
use crate::auth::Caller;
use crate::auth::EscrowRef;
use crate::auth::Tender;
use crate::errors::EscrowError;
use crate::transfer::Transfer;
use crate::transfer::TransferOutcome;
use vstd::prelude::*;

verus! {

/// Every offer is kept under the location of its own record, and is sound.
pub open spec fn book_wf(book: Map<Address, EscrowAccount>) -> bool {
    forall|id: Address| #[trigger] book.contains_key(id) ==> book[id].id == id && book[id].wf()
}

/// Every offer's record and vault sit at the locations derived from its
/// maker and seed.
pub open spec fn book_anchored(program: Address, book: Map<Address, EscrowAccount>) -> bool {
    forall|id: Address| #[trigger]
        book.contains_key(id) ==> derived(
            program,
            Role::Record,
            book[id].record.maker,
            book[id].record.seed,
        ) == Some(id) && derived(
            program,
            Role::Vault,
            book[id].record.maker,
            book[id].record.seed,
        ) == Some(book[id].vault.address)
}

/// Opening an offer at given locations: the new book and the offer's
/// location, or why nothing is opened. The caller must have signed and
/// becomes the maker; both locations must exist; no offer may stand at the
/// record's location; and both amounts must be positive.
pub open spec fn after_create_at(
    book: Map<Address, EscrowAccount>,
    record_at: Option<Address>,
    vault_at: Option<Address>,
    caller: Caller,
    seed: u64,
    give_asset: Address,
    give_amount: u64,
    want_asset: Address,
    want_amount: u64,
) -> Result<(Address, Map<Address, EscrowAccount>), EscrowError> {
    if !caller.is_signer {
        Err(EscrowError::Unauthorized)
    } else if record_at is None || vault_at is None {
        Err(EscrowError::InvalidAccount)
    } else if book.contains_key(record_at->0) {
        Err(EscrowError::DuplicateEscrow)
    } else if give_amount == 0 || want_amount == 0 {
        Err(EscrowError::InvalidAmount)
    } else {
        Ok(
            (
                record_at->0,
                book.insert(
                    record_at->0,
                    EscrowAccount::opened(
                        record_at->0,
                        vault_at->0,
                        caller.key,
                        seed,
                        give_asset,
                        give_amount,
                        want_asset,
                        want_amount,
                    ),
                ),
            ),
        )
    }
}

/// Opening an offer at the locations derived from the caller and the seed.
pub open spec fn after_create(
    program: Address,
    book: Map<Address, EscrowAccount>,
    caller: Caller,
    seed: u64,
    give_asset: Address,
    give_amount: u64,
    want_asset: Address,
    want_amount: u64,
) -> Result<(Address, Map<Address, EscrowAccount>), EscrowError> {
    after_create_at(
        book,
        derived(program, Role::Record, caller.key, seed),
        derived(program, Role::Vault, caller.key, seed),
        caller,
        seed,
        give_asset,
        give_amount,
        want_asset,
        want_amount,
    )
}

/// The maker's deposit into the offer a request points at: the move it
/// needs, or why it is refused.
pub open spec fn deposit_check(
    book: Map<Address, EscrowAccount>,
    caller: Caller,
    target: EscrowRef,
    tender: Tender,
) -> Result<Transfer, EscrowError> {
    if !book.contains_key(target.escrow) {
        Err(EscrowError::InvalidAccount)
    } else {
        book[target.escrow].deposit_check(caller, target, tender)
    }
}

/// The book after the maker's deposit, or why it stays as it is.
pub open spec fn after_maker_deposit(
    book: Map<Address, EscrowAccount>,
    caller: Caller,
    target: EscrowRef,
    tender: Tender,
    moved: TransferOutcome,
) -> Result<Map<Address, EscrowAccount>, EscrowError> {
    if !book.contains_key(target.escrow) {
        Err(EscrowError::InvalidAccount)
    } else {
        match book[target.escrow].after_maker_deposit(caller, target, tender, moved) {
            Err(e) => Err(e),
            Ok(next) => Ok(book.insert(target.escrow, next)),
        }
    }
}

/// Settlement of the offer a request points at: the two moves it needs, or
/// why it is refused. An offer that is not open was taken or closed.
pub open spec fn settle_check(
    book: Map<Address, EscrowAccount>,
    caller: Caller,
    target: EscrowRef,
    tender: Tender,
) -> Result<(Transfer, Transfer), EscrowError> {
    if !book.contains_key(target.escrow) {
        Err(EscrowError::AlreadyTaken)
    } else {
        book[target.escrow].settle_check(caller, target, tender)
    }
}

/// The offer as it was closed and the book without it after settlement, or
/// why the book stays as it is.
pub open spec fn after_settle(
    book: Map<Address, EscrowAccount>,
    caller: Caller,
    target: EscrowRef,
    tender: Tender,
    moved: TransferOutcome,
) -> Result<(EscrowAccount, Map<Address, EscrowAccount>), EscrowError> {
    if !book.contains_key(target.escrow) {
        Err(EscrowError::AlreadyTaken)
    } else {
        match book[target.escrow].after_settle(caller, target, tender, moved) {
            Err(e) => Err(e),
            Ok(closed) => Ok((closed, book.remove(target.escrow))),
        }
    }
}

/// Cancellation of the offer a request points at: the move it needs, if
/// any, or why it is refused.
pub open spec fn cancel_check(book: Map<Address, EscrowAccount>, caller: Caller, target: EscrowRef) -> Result<
    Option<Transfer>,
    EscrowError,
> {
    if !book.contains_key(target.escrow) {
        Err(EscrowError::InvalidAccount)
    } else {
        book[target.escrow].cancel_check(caller, target)
    }
}

/// The offer as it was closed and the book without it after cancellation,
/// or why the book stays as it is.
pub open spec fn after_cancel(
    book: Map<Address, EscrowAccount>,
    caller: Caller,
    target: EscrowRef,
    moved: TransferOutcome,
) -> Result<(EscrowAccount, Map<Address, EscrowAccount>), EscrowError> {
    if !book.contains_key(target.escrow) {
        Err(EscrowError::InvalidAccount)
    } else {
        match book[target.escrow].after_cancel(caller, target, moved) {
            Err(e) => Err(e),
            Ok(closed) => Ok((closed, book.remove(target.escrow))),
        }
    }
}

/// The open offer at the record's location derived for a maker and seed.
pub open spec fn offer_of(
    program: Address,
    book: Map<Address, EscrowAccount>,
    maker: Address,
    seed: u64,
) -> Option<EscrowAccount> {
    match derived(program, Role::Record, maker, seed) {
        Some(id) => if book.contains_key(id) {
            Some(book[id])
        } else {
            None
        },
        None => None,
    }
}

spec fn holds_id(accounts: Seq<EscrowAccount>, id: Address) -> bool {
    exists|i: int| 0 <= i < accounts.len() && (#[trigger] accounts[i]).id == id
}

spec fn index_of(accounts: Seq<EscrowAccount>, id: Address) -> int {
    choose|i: int| 0 <= i < accounts.len() && (#[trigger] accounts[i]).id == id
}

spec fn distinct(accounts: Seq<EscrowAccount>) -> bool {
    forall|i: int, j: int|
        0 <= i < j < accounts.len() ==> (#[trigger] accounts[i]).id != (#[trigger] accounts[j]).id
}

spec fn as_book(accounts: Seq<EscrowAccount>) -> Map<Address, EscrowAccount> {
    Map::new(|id: Address| holds_id(accounts, id), |id: Address| accounts[index_of(accounts, id)])
}

proof fn lemma_index(accounts: Seq<EscrowAccount>, i: int)
    requires
        distinct(accounts),
        0 <= i < accounts.len(),
    ensures
        holds_id(accounts, accounts[i].id),
        index_of(accounts, accounts[i].id) == i,
        as_book(accounts)[accounts[i].id] == accounts[i],
{
    let j = index_of(accounts, accounts[i].id);
    assert(accounts[j].id == accounts[i].id);
    if j < i {
        assert(accounts[j].id != accounts[i].id);
    }
    if i < j {
        assert(accounts[i].id != accounts[j].id);
    }
}

proof fn lemma_push(accounts: Seq<EscrowAccount>, account: EscrowAccount)
    requires
        distinct(accounts),
        !holds_id(accounts, account.id),
    ensures
        distinct(accounts.push(account)),
        as_book(accounts.push(account)) == as_book(accounts).insert(account.id, account),
{
    let more = accounts.push(account);
    assert forall|i: int, j: int| 0 <= i < j < more.len() implies (#[trigger] more[i]).id != (
    #[trigger] more[j]).id by {
        if j < accounts.len() {
            assert(accounts[i].id != accounts[j].id);
        } else {
            assert(accounts[i].id == more[i].id);
        }
    }
    assert forall|id: Address| #[trigger] holds_id(more, id) <==> (holds_id(accounts, id) || id
        == account.id) by {
        if holds_id(more, id) {
            let i = index_of(more, id);
            if i < accounts.len() {
                assert(accounts[i].id == id);
            }
        }
        if holds_id(accounts, id) {
            let i = index_of(accounts, id);
            assert(more[i].id == id);
        }
        if id == account.id {
            assert(more[accounts.len() as int].id == id);
        }
    }
    assert forall|id: Address| holds_id(more, id) implies #[trigger] as_book(more)[id] == as_book(
        accounts,
    ).insert(account.id, account)[id] by {
        if id == account.id {
            lemma_index(more, accounts.len() as int);
        } else {
            let i = index_of(accounts, id);
            assert(more[i] == accounts[i]);
            lemma_index(more, i);
        }
    }
    assert(as_book(more) =~= as_book(accounts).insert(account.id, account));
}

proof fn lemma_update(accounts: Seq<EscrowAccount>, i: int, account: EscrowAccount)
    requires
        distinct(accounts),
        0 <= i < accounts.len(),
        account.id == accounts[i].id,
    ensures
        distinct(accounts.update(i, account)),
        as_book(accounts.update(i, account)) == as_book(accounts).insert(account.id, account),
{
    let next = accounts.update(i, account);
    assert forall|a: int, b: int| 0 <= a < b < next.len() implies (#[trigger] next[a]).id != (
    #[trigger] next[b]).id by {
        assert(accounts[a].id != accounts[b].id);
    }
    assert forall|id: Address| #[trigger] holds_id(next, id) <==> holds_id(accounts, id) by {
        if holds_id(next, id) {
            let k = index_of(next, id);
            assert(accounts[k].id == id);
        }
        if holds_id(accounts, id) {
            let k = index_of(accounts, id);
            assert(next[k].id == id);
        }
    }
    lemma_index(accounts, i);
    assert forall|id: Address| holds_id(next, id) implies #[trigger] as_book(next)[id] == as_book(
        accounts,
    ).insert(account.id, account)[id] by {
        let k = index_of(accounts, id);
        assert(next[k].id == id);
        lemma_index(next, k);
        lemma_index(accounts, k);
    }
    assert(as_book(next) =~= as_book(accounts).insert(account.id, account));
}

proof fn lemma_remove(accounts: Seq<EscrowAccount>, i: int)
    requires
        distinct(accounts),
        0 <= i < accounts.len(),
    ensures
        distinct(accounts.remove(i)),
        as_book(accounts.remove(i)) == as_book(accounts).remove(accounts[i].id),
{
    let rest = accounts.remove(i);
    assert forall|a: int, b: int| 0 <= a < b < rest.len() implies (#[trigger] rest[a]).id != (
    #[trigger] rest[b]).id by {
        let a0 = if a < i {
            a
        } else {
            a + 1
        };
        let b0 = if b < i {
            b
        } else {
            b + 1
        };
        assert(rest[a] == accounts[a0]);
        assert(rest[b] == accounts[b0]);
        assert(accounts[a0].id != accounts[b0].id);
    }
    assert forall|id: Address| #[trigger] holds_id(rest, id) <==> (holds_id(accounts, id) && id
        != accounts[i].id) by {
        if holds_id(rest, id) {
            let k = index_of(rest, id);
            let k0 = if k < i {
                k
            } else {
                k + 1
            };
            assert(rest[k] == accounts[k0]);
            assert(accounts[k0].id == id);
            if k0 < i {
                assert(accounts[k0].id != accounts[i].id);
            } else {
                assert(accounts[i].id != accounts[k0].id);
            }
        }
        if holds_id(accounts, id) && id != accounts[i].id {
            let k = index_of(accounts, id);
            let k1 = if k < i {
                k
            } else {
                k - 1
            };
            assert(rest[k1] == accounts[k]);
            assert(rest[k1].id == id);
        }
    }
    assert forall|id: Address| holds_id(rest, id) implies #[trigger] as_book(rest)[id] == as_book(
        accounts,
    ).remove(accounts[i].id)[id] by {
        let k = index_of(rest, id);
        let k0 = if k < i {
            k
        } else {
            k + 1
        };
        assert(rest[k] == accounts[k0]);
        lemma_index(accounts, k0);
    }
    assert(as_book(rest) =~= as_book(accounts).remove(accounts[i].id));
}

/// The open offers of one program.
pub struct EscrowProgram {
    program_id: Address,
    accounts: Vec<EscrowAccount>,
}

impl View for EscrowProgram {
    type V = Map<Address, EscrowAccount>;

    /// The open offers, each under the location of its record.
    closed spec fn view(&self) -> Map<Address, EscrowAccount> {
        as_book(self.accounts@)
    }
}

impl EscrowProgram {
    /// The program under whose address the locations are derived.
    pub closed spec fn id(&self) -> Address {
        self.program_id
    }

    /// No two offers share a location, and every offer is sound.
    pub closed spec fn wf(&self) -> bool {
        distinct(self.accounts@) && book_wf(self@)
    }

    /// Every offer sits at the locations derived from its maker and seed.
    pub open spec fn anchored(&self) -> bool {
        book_anchored(self.id(), self@)
    }

    /// What `wf` says of the open offers: each is kept under the location of
    /// its own record and is sound, and there are finitely many.
    pub proof fn lemma_sound(&self)
        requires
            self.wf(),
        ensures
            book_wf(self@),
            self@.dom().finite(),
    {
        lemma_count_of(self.accounts@);
    }

    /// A program with no offers.
    pub fn new(program_id: Address) -> (r: EscrowProgram)
        ensures
            r.wf(),
            r.anchored(),
            r.id() == program_id,
            r@ == Map::<Address, EscrowAccount>::empty(),
    {
        let r = EscrowProgram { program_id, accounts: Vec::new() };
        proof {
            assert(r@ =~= Map::<Address, EscrowAccount>::empty());
        }
        r
    }

    pub fn program_id(&self) -> (r: Address)
        ensures
            r == self.id(),
    {
        self.program_id
    }

    fn position(&self, id: &Address) -> (r: Option<usize>)
        requires
            self.wf(),
        ensures
            match r {
                Some(i) => i < self.accounts@.len() && self.accounts@[i as int].id == *id
                    && self@.contains_key(*id) && self@[*id] == self.accounts@[i as int],
                None => !self@.contains_key(*id),
            },
    {
        let mut i: usize = 0;
        while i < self.accounts.len()
            invariant
                self.wf(),
                i <= self.accounts@.len(),
                forall|j: int| 0 <= j < i ==> (#[trigger] self.accounts@[j]).id != *id,
            decreases self.accounts@.len() - i,
        {
            if self.accounts[i].id == *id {
                proof {
                    lemma_index(self.accounts@, i as int);
                }
                return Some(i);
            }
            i = i + 1;
        }
        proof {
            if holds_id(self.accounts@, *id) {
                let k = index_of(self.accounts@, *id);
                assert(self.accounts@[k].id != *id);
            }
        }
        None
    }

    /// How many offers are open.
    pub fn open_offers(&self) -> (r: usize)
        requires
            self.wf(),
        ensures
            r == self@.dom().len(),
    {
        proof {
            lemma_count_of(self.accounts@);
        }
        self.accounts.len()
    }

    /// The open offer at a location, if there is one.
    pub fn get(&self, id: &Address) -> (r: Option<EscrowAccount>)
        requires
            self.wf(),
        ensures
            self@.contains_key(*id) ==> r == Some(self@[*id]),
            !self@.contains_key(*id) ==> r == None::<EscrowAccount>,
    {
        match self.position(id) {
            Some(i) => Some(self.accounts[i]),
            None => None,
        }
    }

    /// The open offer of a maker and seed, if there is one: the offer at the
    /// location derived for its record. Nothing but the maker and the seed
    /// is needed to find an offer again.
    pub fn find(&self, maker: &Address, seed: u64) -> (r: Option<EscrowAccount>)
        requires
            self.wf(),
        ensures
            r == offer_of(self.id(), self@, *maker, seed),
    {
        match locate(&self.program_id, Role::Record, maker, seed) {
            Some(id) => self.get(&id),
            None => None,
        }
    }

    /// Opens an offer at the given locations, as `create` does at the derived
    /// ones. The caller becomes the maker.
    pub fn create_at(
        &mut self,
        record_at: Option<Address>,
        vault_at: Option<Address>,
        caller: &Caller,
        seed: u64,
        give_asset: Address,
        give_amount: u64,
        want_asset: Address,
        want_amount: u64,
    ) -> (r: Result<Address, EscrowError>)
        requires
            old(self).wf(),
        ensures
            final(self).wf(),
            final(self).id() == old(self).id(),
            match after_create_at(
                old(self)@,
                record_at,
                vault_at,
                *caller,
                seed,
                give_asset,
                give_amount,
                want_asset,
                want_amount,
            ) {
                Ok((id, next)) => r == Ok::<Address, EscrowError>(id) && final(self)@ == next,
                Err(e) => r == Err::<Address, EscrowError>(e) && final(self)@ == old(self)@,
            },
            old(self).anchored() && r is Ok && record_at == derived(
                old(self).id(),
                Role::Record,
                caller.key,
                seed,
            ) && vault_at == derived(old(self).id(), Role::Vault, caller.key, seed)
                ==> final(self).anchored(),
            r is Err ==> final(self).anchored() == old(self).anchored(),
    {
        authorize_signer(caller)?;
        let (id, vault) = match (record_at, vault_at) {
            (Some(id), Some(vault)) => (id, vault),
            _ => {
                return Err(EscrowError::InvalidAccount);
            },
        };
        if self.position(&id).is_some() {
            return Err(EscrowError::DuplicateEscrow);
        }
        let account = match EscrowAccount::open(
            id,
            vault,
            caller.key,
            seed,
            give_asset,
            give_amount,
            want_asset,
            want_amount,
        ) {
            Err(e) => {
                return Err(e);
            },
            Ok(account) => account,
        };
        proof {
            lemma_push(self.accounts@, account);
        }
        self.accounts.push(account);
        Ok(id)
    }

    /// Opens an offer: the caller gives `give_amount` of `give_asset` for
    /// `want_amount` of `want_asset`. The record's location is derived from
    /// the caller and the seed, and is what later requests name.
    pub fn create(
        &mut self,
        caller: &Caller,
        seed: u64,
        give_asset: Address,
        give_amount: u64,
        want_asset: Address,
        want_amount: u64,
    ) -> (r: Result<Address, EscrowError>)
        requires
            old(self).wf(),
        ensures
            final(self).wf(),
            final(self).id() == old(self).id(),
            match after_create(
                old(self).id(),
                old(self)@,
                *caller,
                seed,
                give_asset,
                give_amount,
                want_asset,
                want_amount,
            ) {
                Ok((id, next)) => r == Ok::<Address, EscrowError>(id) && final(self)@ == next,
                Err(e) => r == Err::<Address, EscrowError>(e) && final(self)@ == old(self)@,
            },
            old(self).anchored() ==> final(self).anchored(),
    {
        let record_at = locate(&self.program_id, Role::Record, &caller.key, seed);
        let vault_at = locate(&self.program_id, Role::Vault, &caller.key, seed);
        self.create_at(
            record_at,
            vault_at,
            caller,
            seed,
            give_asset,
            give_amount,
            want_asset,
            want_amount,
        )
    }

    /// Checks a request for the maker's deposit and names the move the host
    /// has to make for it. Nothing changes.
    pub fn maker_deposit_order(&self, caller: &Caller, target: &EscrowRef, tender: &Tender) -> (r: Result<
        Transfer,
        EscrowError,
    >)
        requires
            self.wf(),
        ensures
            r == deposit_check(self@, *caller, *target, *tender),
    {
        match self.position(&target.escrow) {
            None => Err(EscrowError::InvalidAccount),
            Some(i) => self.accounts[i].maker_deposit_order(caller, target, tender),
        }
    }

    /// The maker's deposit, once the host has tried the move that
    /// `maker_deposit_order` names. With the request in order and the move
    /// made, the offer's vault holds the deposit. Otherwise nothing changes.
    pub fn maker_deposit(
        &mut self,
        caller: &Caller,
        target: &EscrowRef,
        tender: &Tender,
        moved: TransferOutcome,
    ) -> (r: Result<(), EscrowError>)
        requires
            old(self).wf(),
        ensures
            final(self).wf(),
            final(self).id() == old(self).id(),
            match after_maker_deposit(old(self)@, *caller, *target, *tender, moved) {
                Ok(next) => r == Ok::<(), EscrowError>(()) && final(self)@ == next,
                Err(e) => r == Err::<(), EscrowError>(e) && final(self)@ == old(self)@,
            },
            old(self).anchored() ==> final(self).anchored(),
    {
        match self.position(&target.escrow) {
            None => Err(EscrowError::InvalidAccount),
            Some(i) => {
                let mut account = self.accounts[i];
                match account.maker_deposit(caller, target, tender, moved) {
                    Err(e) => Err(e),
                    Ok(()) => {
                        proof {
                            lemma_update(self.accounts@, i as int, account);
                        }
                        self.accounts.set(i, account);
                        Ok(())
                    },
                }
            },
        }
    }

    /// Checks a request for settlement and names the two moves the host has
    /// to make together. Nothing changes.
    pub fn settlement_orders(&self, caller: &Caller, target: &EscrowRef, tender: &Tender) -> (r: Result<
        (Transfer, Transfer),
        EscrowError,
    >)
        requires
            self.wf(),
        ensures
            r == settle_check(self@, *caller, *target, *tender),
    {
        match self.position(&target.escrow) {
            None => Err(EscrowError::AlreadyTaken),
            Some(i) => self.accounts[i].settlement_orders(caller, target, tender),
        }
    }

    /// Settlement, once the host has tried the two moves that
    /// `settlement_orders` names. With the request in order and both moves
    /// made, the offer is closed and handed back as it stood at the end:
    /// taken by the caller, its vault empty. Otherwise nothing changes.
    pub fn taker_deposit_and_settle(
        &mut self,
        caller: &Caller,
        target: &EscrowRef,
        tender: &Tender,
        moved: TransferOutcome,
    ) -> (r: Result<EscrowAccount, EscrowError>)
        requires
            old(self).wf(),
        ensures
            final(self).wf(),
            final(self).id() == old(self).id(),
            match after_settle(old(self)@, *caller, *target, *tender, moved) {
                Ok((closed, next)) => r == Ok::<EscrowAccount, EscrowError>(closed) && final(self)@
                    == next,
                Err(e) => r == Err::<EscrowAccount, EscrowError>(e) && final(self)@ == old(self)@,
            },
            old(self).anchored() ==> final(self).anchored(),
    {
        match self.position(&target.escrow) {
            None => Err(EscrowError::AlreadyTaken),
            Some(i) => {
                let mut account = self.accounts[i];
                match account.taker_deposit_and_settle(caller, target, tender, moved) {
                    Err(e) => Err(e),
                    Ok(()) => {
                        account.close()?;
                        proof {
                            lemma_remove(self.accounts@, i as int);
                        }
                        self.accounts.remove(i);
                        Ok(account)
                    },
                }
            },
        }
    }

    /// Checks a request for cancellation and names the move that gives the
    /// deposit back, if there is a deposit. Nothing changes.
    pub fn refund_order(&self, caller: &Caller, target: &EscrowRef) -> (r: Result<
        Option<Transfer>,
        EscrowError,
    >)
        requires
            self.wf(),
        ensures
            r == cancel_check(self@, *caller, *target),
    {
        match self.position(&target.escrow) {
            None => Err(EscrowError::InvalidAccount),
            Some(i) => self.accounts[i].refund_order(caller, target),
        }
    }

    /// Cancellation, once the host has tried the move that `refund_order`
    /// names, if it named one. With the request in order and the deposit, if
    /// any, back with the maker, the offer is closed and handed back as it
    /// stood at the end. Otherwise nothing changes.
    pub fn cancel(&mut self, caller: &Caller, target: &EscrowRef, moved: TransferOutcome) -> (r: Result<
        EscrowAccount,
        EscrowError,
    >)
        requires
            old(self).wf(),
        ensures
            final(self).wf(),
            final(self).id() == old(self).id(),
            match after_cancel(old(self)@, *caller, *target, moved) {
                Ok((closed, next)) => r == Ok::<EscrowAccount, EscrowError>(closed) && final(self)@
                    == next,
                Err(e) => r == Err::<EscrowAccount, EscrowError>(e) && final(self)@ == old(self)@,
            },
            old(self).anchored() ==> final(self).anchored(),
    {
        match self.position(&target.escrow) {
            None => Err(EscrowError::InvalidAccount),
            Some(i) => {
                let mut account = self.accounts[i];
                match account.cancel(caller, target, moved) {
                    Err(e) => Err(e),
                    Ok(()) => {
                        account.close()?;
                        proof {
                            lemma_remove(self.accounts@, i as int);
                        }
                        self.accounts.remove(i);
                        Ok(account)
                    },
                }
            },
        }
    }
}

proof fn lemma_count_of(accounts: Seq<EscrowAccount>)
    requires
        distinct(accounts),
    ensures
        as_book(accounts).dom().finite(),
        as_book(accounts).dom().len() == accounts.len(),
    decreases accounts.len(),
{
    if accounts.len() == 0 {
        assert(as_book(accounts).dom() =~= Set::<Address>::empty());
    } else {
        let last = accounts.len() - 1;
        let rest = accounts.remove(last);
        lemma_remove(accounts, last);
        lemma_count_of(rest);
        lemma_index(accounts, last);
        assert(as_book(accounts).dom() =~= as_book(rest).dom().insert(accounts[last].id));
    }
}

} // verus!

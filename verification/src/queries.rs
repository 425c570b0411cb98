//! The read projection: a denormalized account view (balance, ledger,
//! written checks) derived by folding committed events in commit order.

use vstd::prelude::*;

use crate::model::{
    convert_amount, spec_convert_amount, AccountId, CheckNumber, Currency, ExchangeRate,
    ExchangeRateTable, Money,
};
use crate::protocol::BankAccountEvent;
use crate::text::{append_dec_nat, spec_dec_nat};

verus! {

/// One human-readable line item recorded in the view for audit/display: a
/// description and a signed amount.
#[derive(Debug)]
pub struct LedgerEntry {
    pub description: String,
    pub amount: Money,
}

impl LedgerEntry {
    pub fn new(description: String, amount: Money) -> (r: LedgerEntry)
        ensures
            r.description == description,
            r.amount == amount,
    {
        LedgerEntry { description, amount }
    }
}

impl Clone for LedgerEntry {
    fn clone(&self) -> (res: LedgerEntry)
        ensures
            res == *self,
    {
        LedgerEntry { description: self.description.clone(), amount: self.amount }
    }
}

impl PartialEq for LedgerEntry {
    fn eq(&self, other: &LedgerEntry) -> (r: bool) {
        self.description == other.description && self.amount == other.amount
    }
}

impl Eq for LedgerEntry {

}

impl vstd::std_specs::cmp::PartialEqSpecImpl for LedgerEntry {
    open spec fn obeys_eq_spec() -> bool {
        true
    }

    open spec fn eq_spec(&self, other: &LedgerEntry) -> bool {
        self.description@ == other.description@ && self.amount == other.amount
    }
}

/// The mathematical value of a ledger entry.
#[verifier::ext_equal]
pub struct LedgerModelEntry {
    pub description: Seq<char>,
    pub amount: Money,
}

/// The mathematical value of an account view.
#[verifier::ext_equal]
pub struct ViewModel {
    pub account_id: Option<AccountId>,
    pub balance: Money,
    pub written_checks: Seq<CheckNumber>,
    pub ledger: Seq<LedgerModelEntry>,
}

/// The queryable snapshot of one account, updated once per committed event.
/// Its balance is kept in a fixed display currency; foreign-currency entries
/// are converted at commit time.
#[derive(Debug)]
pub struct BankAccountView {
    pub account_id: Option<AccountId>,
    pub balance: Money,
    pub written_checks: Vec<CheckNumber>,
    pub ledger: Vec<LedgerEntry>,
}

impl View for BankAccountView {
    type V = ViewModel;

    open spec fn view(&self) -> ViewModel {
        ViewModel {
            account_id: self.account_id,
            balance: self.balance,
            written_checks: self.written_checks@,
            ledger: self.ledger@.map_values(
                |e: LedgerEntry| LedgerModelEntry { description: e.description@, amount: e.amount },
            ),
        }
    }
}

impl Clone for BankAccountView {
    fn clone(&self) -> (res: BankAccountView)
        ensures
            res@ == self@,
    {
        let mut ledger: Vec<LedgerEntry> = Vec::new();
        let mut i: usize = 0;
        while i < self.ledger.len()
            invariant
                i <= self.ledger.len(),
                ledger@ =~= self.ledger@.take(i as int),
            decreases self.ledger.len() - i,
        {
            ledger.push(self.ledger[i].clone());
            assert(ledger@ =~= self.ledger@.take(i + 1 as int));
            i = i + 1;
        }
        assert(ledger@ =~= self.ledger@);
        let res = BankAccountView {
            account_id: self.account_id,
            balance: self.balance,
            written_checks: self.written_checks.clone(),
            ledger,
        };
        assert(res@ =~= self@);
        res
    }
}

/// The empty view: no account, zero dollars, nothing recorded.
pub open spec fn spec_empty_view() -> ViewModel {
    ViewModel {
        account_id: None,
        balance: Money { cents: 0, currency: Currency::Usd },
        written_checks: Seq::empty(),
        ledger: Seq::empty(),
    }
}

impl Default for BankAccountView {
    /// A view that has observed no events yet, displaying US dollars.
    fn default() -> (r: BankAccountView)
        ensures
            r@ == spec_empty_view(),
    {
        let r = BankAccountView {
            account_id: None,
            balance: Money { cents: 0, currency: Currency::Usd },
            written_checks: Vec::new(),
            ledger: Vec::new(),
        };
        assert(r@ =~= spec_empty_view());
        r
    }
}

/// The description of a check's ledger entry.
pub open spec fn spec_check_description(check_nr: u32) -> Seq<char> {
    "Check "@ + spec_dec_nat(check_nr as nat)
}

/// The ledger description of a check withdrawal, rendered digit by digit.
fn check_description(check_nr: u32) -> (r: String)
    ensures
        r@ == spec_check_description(check_nr),
{
    let mut r = String::from_str("Check ");
    append_dec_nat(&mut r, check_nr as u64);
    r
}

/// The transactional amount an event carries, if it carries one.
pub open spec fn event_amount(event: BankAccountEvent) -> Option<Money> {
    match event {
        BankAccountEvent::BalanceDeposited { amount } => Some(amount),
        BankAccountEvent::CashWithdrawal { amount } => Some(amount),
        BankAccountEvent::CheckWithdrawal { amount, .. } => Some(amount),
        _ => None,
    }
}

/// Side condition under which folding an event into a view stays within the
/// minor-unit representation, given the converted amount `c` that moves the
/// balance.
pub open spec fn view_amounts_ok(v: ViewModel, event: BankAccountEvent, c: Money) -> bool {
    match event {
        BankAccountEvent::BalanceDeposited { .. } => i64::MIN <= v.balance.cents + c.cents
            <= i64::MAX,
        BankAccountEvent::CashWithdrawal { amount } => amount.cents != i64::MIN && i64::MIN
            <= v.balance.cents - c.cents <= i64::MAX,
        BankAccountEvent::CheckWithdrawal { amount, .. } => amount.cents != i64::MIN && i64::MIN
            <= v.balance.cents - c.cents <= i64::MAX,
        _ => true,
    }
}

/// What one committed event does to the view, given the converted amount `c`
/// (equal to the event's amount whenever that is already in the view's
/// display currency): deposits and withdrawals append a ledger line and move
/// the balance; a check withdrawal also records its number; opening sets the
/// account id; all other events are ignored.
pub open spec fn spec_update(v: ViewModel, event: BankAccountEvent, c: Money) -> ViewModel {
    match event {
        BankAccountEvent::AccountOpened { account_id, .. } => ViewModel {
            account_id: Some(account_id),
            ..v
        },
        BankAccountEvent::BalanceDeposited { amount } => ViewModel {
            balance: Money {
                cents: (v.balance.cents + c.cents) as i64,
                currency: v.balance.currency,
            },
            ledger: v.ledger.push(LedgerModelEntry { description: "deposit"@, amount }),
            ..v
        },
        BankAccountEvent::CashWithdrawal { amount } => ViewModel {
            balance: Money {
                cents: (v.balance.cents - c.cents) as i64,
                currency: v.balance.currency,
            },
            ledger: v.ledger.push(
                LedgerModelEntry {
                    description: "ATM withdrawal"@,
                    amount: Money { cents: -amount.cents as i64, currency: amount.currency },
                },
            ),
            ..v
        },
        BankAccountEvent::CheckWithdrawal { check_nr, amount } => ViewModel {
            balance: Money {
                cents: (v.balance.cents - c.cents) as i64,
                currency: v.balance.currency,
            },
            written_checks: v.written_checks.push(check_nr),
            ledger: v.ledger.push(
                LedgerModelEntry {
                    description: spec_check_description(check_nr.0),
                    amount: Money { cents: -amount.cents as i64, currency: amount.currency },
                },
            ),
            ..v
        },
        _ => v,
    }
}

/// The converted amount one projection step charges the balance with: the
/// event's amount taken through the rate table for transactional events (so
/// the identity whenever the currencies already agree), a zero otherwise.
pub open spec fn spec_update_conversion(
    v: ViewModel,
    event: BankAccountEvent,
    rates: Seq<ExchangeRate>,
) -> Option<Money> {
    match event_amount(event) {
        None => Some(Money { cents: 0, currency: v.balance.currency }),
        Some(a) => spec_convert_amount(v.balance.currency, a, rates),
    }
}

/// The complete contract of one projection step: the event is applied with
/// exactly the converted amount the rate table prescribes; when no such
/// amount exists, or an amount falls outside the minor-unit representation,
/// the view is left unchanged, to be reconciled by replay.
pub open spec fn update_post(
    old_v: ViewModel,
    rates: Seq<ExchangeRate>,
    event: BankAccountEvent,
    new_v: ViewModel,
    applied: bool,
) -> bool {
    match spec_update_conversion(old_v, event, rates) {
        None => !applied && new_v == old_v,
        Some(c) => {
            if view_amounts_ok(old_v, event, c) {
                applied && new_v == spec_update(old_v, event, c)
            } else {
                !applied && new_v == old_v
            }
        },
    }
}

/// Sorts account views by balance, highest first: the order in which the
/// listing of all accounts is served. Views with equal balances may come in
/// any order; the result holds exactly the given views.
pub fn sort_views_by_balance(views: Vec<BankAccountView>) -> (r: Vec<BankAccountView>)
    ensures
        r@.to_multiset() == views@.to_multiset(),
        r@.len() == views@.len(),
        forall|i: int, j: int|
            #![trigger r@[i], r@[j]]
            0 <= i <= j < r@.len() ==> r@[i].balance.cents >= r@[j].balance.cents,
{
    broadcast use vstd::seq_lib::group_to_multiset_ensures;

    let mut remaining = views;
    let mut sorted: Vec<BankAccountView> = Vec::new();
    let ghost all = remaining@.to_multiset();
    while remaining.len() > 0
        invariant
            sorted@.to_multiset().add(remaining@.to_multiset()) =~= all,
            sorted@.len() + remaining@.len() == all.len(),
            forall|i: int, j: int|
                #![trigger sorted@[i], sorted@[j]]
                0 <= i <= j < sorted@.len() ==> sorted@[i].balance.cents
                    >= sorted@[j].balance.cents,
            forall|i: int, j: int|
                #![trigger sorted@[i], remaining@[j]]
                0 <= i < sorted@.len() && 0 <= j < remaining@.len() ==> sorted@[i].balance.cents
                    >= remaining@[j].balance.cents,
        decreases remaining@.len(),
    {
        let mut best: usize = 0;
        let mut k: usize = 1;
        while k < remaining.len()
            invariant
                remaining@.len() > 0,
                best < k,
                k <= remaining@.len(),
                forall|t: int|
                    0 <= t < k ==> #[trigger] remaining@[t].balance.cents
                        <= remaining@[best as int].balance.cents,
            decreases remaining@.len() - k,
        {
            if remaining[k].balance.cents > remaining[best].balance.cents {
                best = k;
            }
            k = k + 1;
        }
        let ghost before = remaining@;
        let ghost sorted_before = sorted@;
        let next = remaining.remove(best);
        sorted.push(next);
        proof {
            broadcast use vstd::multiset::group_multiset_axioms;

            assert(sorted@ == sorted_before.push(next));
            assert(remaining@ == before.remove(best as int));
            vstd::seq_lib::to_multiset_build(sorted_before, next);
            vstd::seq_lib::to_multiset_remove(before, best as int);
            vstd::seq_lib::to_multiset_contains(before, next);
            assert(before.contains(next));
            assert(sorted@.to_multiset() =~= sorted_before.to_multiset().insert(next));
            assert(remaining@.to_multiset() =~= before.to_multiset().remove(next));
            assert(sorted@.to_multiset().add(remaining@.to_multiset()) =~= all);
            assert forall|i: int, j: int|
                0 <= i < sorted@.len() && 0 <= j < remaining@.len() implies #[trigger] sorted@[i].balance.cents
                >= #[trigger] remaining@[j].balance.cents by {
                if j < best {
                    assert(remaining@[j] == before[j]);
                } else {
                    assert(remaining@[j] == before[j + 1]);
                }
            }
        }
    }
    sorted
}

/// The converted amount the same-currency fold charges the balance with:
/// the event's own amount for transactional events, a zero otherwise.
pub open spec fn spec_same_currency_amount(v: ViewModel, event: BankAccountEvent) -> Money {
    match event_amount(event) {
        Some(a) => a,
        None => Money { cents: 0, currency: v.balance.currency },
    }
}

/// One step of the same-currency fold.
pub open spec fn spec_update_same(v: ViewModel, event: BankAccountEvent) -> ViewModel {
    spec_update(v, event, spec_same_currency_amount(v, event))
}

/// The view left by folding a whole event sequence, oldest first, with every
/// amount already denominated in the view's display currency.
pub open spec fn spec_view_replay(v: ViewModel, events: Seq<BankAccountEvent>) -> ViewModel
    decreases events.len(),
{
    if events.len() == 0 {
        v
    } else {
        spec_view_replay(spec_update_same(v, events[0]), events.skip(1))
    }
}

/// Every event of the sequence denominates its amount in the view's display
/// currency, and every intermediate balance stays within the minor-unit
/// representation.
pub open spec fn view_replay_ok(v: ViewModel, events: Seq<BankAccountEvent>) -> bool
    decreases events.len(),
{
    if events.len() == 0 {
        true
    } else {
        &&& (event_amount(events[0]) matches Some(a) ==> a.currency == v.balance.currency)
        &&& view_amounts_ok(v, events[0], spec_same_currency_amount(v, events[0]))
        &&& view_replay_ok(spec_update_same(v, events[0]), events.skip(1))
    }
}

impl BankAccountView {
    /// Folds one event into the view given the already-converted amount
    /// that moves the balance: exactly one step of `spec_update`. This is
    /// the whole of the projection after the exchange-rate lookup, so every
    /// effect of a converted amount — ledger line, check number, balance
    /// move — is pinned here for each value the conversion can return.
    pub fn apply_converted(&mut self, event: &BankAccountEvent, converted: Money)
        requires
            converted.currency == old(self)@.balance.currency,
            view_amounts_ok(old(self)@, *event, converted),
        ensures
            final(self)@ == spec_update(old(self)@, *event, converted),
    {
        let ghost old_v = self@;
        match event {
            BankAccountEvent::AccountOpened { account_id, .. } => {
                self.account_id = Some(*account_id);
                proof {
                    assert(self@ =~= spec_update(old_v, *event, converted));
                }
            },
            BankAccountEvent::BalanceDeposited { amount } => {
                let new_balance = Money::new(
                    self.balance.cents + converted.cents,
                    self.balance.currency,
                );
                self.ledger.push(LedgerEntry { description: "deposit".to_owned(), amount: *amount });
                self.balance = new_balance;
                proof {
                    assert(self@ =~= spec_update(old_v, *event, converted));
                }
            },
            BankAccountEvent::CashWithdrawal { amount } => {
                let new_balance = Money::new(
                    self.balance.cents - converted.cents,
                    self.balance.currency,
                );
                self.ledger.push(
                    LedgerEntry {
                        description: "ATM withdrawal".to_owned(),
                        amount: amount.negate(),
                    },
                );
                self.balance = new_balance;
                proof {
                    assert(self@ =~= spec_update(old_v, *event, converted));
                }
            },
            BankAccountEvent::CheckWithdrawal { check_nr, amount } => {
                let new_balance = Money::new(
                    self.balance.cents - converted.cents,
                    self.balance.currency,
                );
                self.ledger.push(
                    LedgerEntry {
                        description: check_description(check_nr.as_u32()),
                        amount: amount.negate(),
                    },
                );
                self.written_checks.push(*check_nr);
                self.balance = new_balance;
                proof {
                    assert(self@ =~= spec_update(old_v, *event, converted));
                }
            },
            _ => {
                proof {
                    assert(self@ =~= spec_update(old_v, *event, converted));
                }
            },
        }
    }

    /// Folds one committed event into the view, converting foreign-currency
    /// amounts through the exchange-rate table and handing the conversion's
    /// result to `apply_converted`, which does everything after the lookup.
    /// Returns whether the event was applied; an event it cannot represent
    /// leaves the view unchanged.
    pub fn update(&mut self, event: &BankAccountEvent, rates: &ExchangeRateTable) -> (applied:
        bool)
        ensures
            update_post(old(self)@, rates.rates@, *event, final(self)@, applied),
    {
        match event {
            BankAccountEvent::BalanceDeposited { amount } => {
                let converted = match convert_amount(self.balance.currency, *amount, rates) {
                    Some(c) => c,
                    None => {
                        return false;
                    },
                };
                if self.balance.checked_add(converted).is_none() {
                    return false;
                }
                self.apply_converted(event, converted);
                true
            },
            BankAccountEvent::CashWithdrawal { amount }
            | BankAccountEvent::CheckWithdrawal { amount, .. } => {
                let converted = match convert_amount(self.balance.currency, *amount, rates) {
                    Some(c) => c,
                    None => {
                        return false;
                    },
                };
                if self.balance.checked_sub(converted).is_none() || amount.cents == i64::MIN {
                    return false;
                }
                self.apply_converted(event, converted);
                true
            },
            _ => {
                let untouched = Money::new(0, self.balance.currency);
                self.apply_converted(event, untouched);
                true
            },
        }
    }
}

} // verus!

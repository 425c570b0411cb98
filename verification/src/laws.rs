//! Laws of the account state machine and of event replay, stated over the
//! specification-level decision table and transition function and proved for
//! all inputs.

use vstd::prelude::*;

use crate::bank_account::{
    handle_post, spec_handle, spec_replay, spec_transition, ActiveBankAccount, BankAccountState,
    Decision,
};
use crate::errors::BankAccountError;
use crate::model::Money;
use crate::protocol::{BankAccountCommand, BankAccountEvent};
use crate::queries::{
    spec_same_currency_amount, spec_update_same, spec_view_replay, view_replay_ok,
    LedgerModelEntry, ViewModel,
};
use crate::records::{sequences_contiguous_from, EventRecord};
use crate::services::BankAccountServices;

verus! {

/// The (state, command) pairs outside the decision table's "emits" rows: a
/// command against an unopened account (other than opening it), reopening an
/// active account, and any command against a closed account.
pub open spec fn non_emitting_pair(state: BankAccountState, cmd: BankAccountCommand) -> bool {
    ||| state is Quiescent && !(cmd matches BankAccountCommand::OpenAccount { .. })
    ||| state is Active && cmd matches BankAccountCommand::OpenAccount { .. }
    ||| state is Closed
}

/// A command result that rejects the command outright.
pub open spec fn is_rejection(r: Result<Vec<BankAccountEvent>, BankAccountError>) -> bool {
    r matches Err(BankAccountError::RejectedCommand(_))
}

/// Every (state, command) pair outside the decision table's "emits" rows is
/// turned down with a `RejectedCommand` error, and zero events are produced.
pub proof fn lemma_non_emitting_pairs_rejected(
    state: BankAccountState,
    cmd: BankAccountCommand,
    services: BankAccountServices,
    r: Result<Vec<BankAccountEvent>, BankAccountError>,
)
    requires
        handle_post(state, cmd, services, r),
        non_emitting_pair(state, cmd),
    ensures
        is_rejection(r),
{
}

/// A command that asks to draw more than the balance holds: a cash
/// withdrawal or check disbursement whose amount exceeds the balance.
pub open spec fn overdraw_requested(acct: ActiveBankAccount, cmd: BankAccountCommand) -> bool {
    ||| cmd matches BankAccountCommand::WithdrawCash { amount, .. } && acct.balance.cents
        - amount.cents < 0
    ||| cmd matches BankAccountCommand::DisburseCheck { amount, .. } && acct.balance.cents
        - amount.cents < 0
}

/// The refusal an overdraw earns: `InsufficientFunds` naming the account and
/// the requested amount.
pub open spec fn insufficient_funds_result(acct: ActiveBankAccount, amount: Money) -> Result<
    Vec<BankAccountEvent>,
    BankAccountError,
> {
    Err(BankAccountError::InsufficientFunds(acct.account_id, amount))
}

/// The drawdown amount a command requests, if it requests one.
pub open spec fn requested_amount(cmd: BankAccountCommand) -> Option<Money> {
    match cmd {
        BankAccountCommand::WithdrawCash { amount, .. } => Some(amount),
        BankAccountCommand::DisburseCheck { amount, .. } => Some(amount),
        _ => None,
    }
}

/// A withdrawal or check disbursement that would bring the balance below
/// zero is refused with `InsufficientFunds`, and no event is emitted —
/// whatever the business-rule services would have answered.
pub proof fn lemma_overdraw_always_insufficient(
    acct: ActiveBankAccount,
    cmd: BankAccountCommand,
    services: BankAccountServices,
    r: Result<Vec<BankAccountEvent>, BankAccountError>,
)
    requires
        handle_post(BankAccountState::Active(acct), cmd, services, r),
        overdraw_requested(acct, cmd),
    ensures
        r == insufficient_funds_result(acct, requested_amount(cmd)->Some_0),
{
}

/// The decision emits exactly one event.
pub open spec fn emits_one_event(d: Decision) -> bool {
    d matches Decision::Emit(events) && events.len() == 1
}

/// A drawdown that leaves the balance at exactly zero is allowed: with
/// authorizing services it emits the withdrawal event.
pub proof fn lemma_drawdown_to_zero_allowed(
    acct: ActiveBankAccount,
    cmd: BankAccountCommand,
    services: BankAccountServices,
)
    requires
        (requested_amount(cmd) matches Some(amount) && acct.balance.cents - amount.cents >= 0),
        services is HappyPath,
    ensures
        emits_one_event(spec_handle(BankAccountState::Active(acct), cmd, services)),
{
}

/// Replay composes: folding a split event history segment by segment leaves
/// the same terminal state as folding the concatenated history in one pass.
/// Replaying the full history from the initial state therefore reproduces
/// exactly the state reached by applying each command's events as they were
/// committed.
pub proof fn lemma_replay_segmented(
    state: BankAccountState,
    first: Seq<BankAccountEvent>,
    second: Seq<BankAccountEvent>,
)
    ensures
        spec_replay(state, first + second) == spec_replay(spec_replay(state, first), second),
    decreases first.len(),
{
    if first.len() == 0 {
        assert(first + second =~= second);
    } else {
        assert((first + second)[0] == first[0]);
        assert((first + second).skip(1) =~= first.skip(1) + second);
        lemma_replay_segmented(spec_transition(state, first[0]), first.skip(1), second);
    }
}

/// The fold of all ledger entries' signed amounts, in minor units.
pub open spec fn ledger_signed_sum(ledger: Seq<LedgerModelEntry>) -> int
    decreases ledger.len(),
{
    if ledger.len() == 0 {
        0
    } else {
        ledger_signed_sum(ledger.drop_last()) + ledger.last().amount.cents
    }
}

proof fn lemma_ledger_sum_push(ledger: Seq<LedgerModelEntry>, entry: LedgerModelEntry)
    ensures
        ledger_signed_sum(ledger.push(entry)) == ledger_signed_sum(ledger) + entry.amount.cents,
{
    assert(ledger.push(entry).drop_last() =~= ledger);
    assert(ledger.push(entry).last() == entry);
}

/// The view's balance equals the fold of all its ledger entries' signed
/// amounts: if a view satisfies that equation (as the empty view does, with
/// zero of both), it still satisfies it after folding in the events of any
/// sequence of accepted commands whose amounts are denominated in the view's
/// display currency.
pub proof fn lemma_view_balance_is_ledger_sum(v: ViewModel, events: Seq<BankAccountEvent>)
    requires
        v.balance.cents == ledger_signed_sum(v.ledger),
        view_replay_ok(v, events),
    ensures
        spec_view_replay(v, events).balance.cents == ledger_signed_sum(
            spec_view_replay(v, events).ledger,
        ),
    decreases events.len(),
{
    if events.len() > 0 {
        let event = events[0];
        let c = spec_same_currency_amount(v, event);
        let next = spec_update_same(v, event);
        match event {
            BankAccountEvent::BalanceDeposited { amount } => {
                lemma_ledger_sum_push(
                    v.ledger,
                    LedgerModelEntry { description: "deposit"@, amount },
                );
            },
            BankAccountEvent::CashWithdrawal { amount } => {
                lemma_ledger_sum_push(
                    v.ledger,
                    LedgerModelEntry {
                        description: "ATM withdrawal"@,
                        amount: Money { cents: -amount.cents as i64, currency: amount.currency },
                    },
                );
            },
            BankAccountEvent::CheckWithdrawal { check_nr, amount } => {
                lemma_ledger_sum_push(
                    v.ledger,
                    LedgerModelEntry {
                        description: crate::queries::spec_check_description(check_nr.0),
                        amount: Money { cents: -amount.cents as i64, currency: amount.currency },
                    },
                );
            },
            _ => {},
        }
        lemma_view_balance_is_ledger_sum(next, events.skip(1));
    }
}

/// The previous law, at the view's birth: a view built from the empty view
/// by any such event history shows a balance equal to its ledger's fold.
pub proof fn lemma_fresh_view_balance_is_ledger_sum(events: Seq<BankAccountEvent>)
    requires
        view_replay_ok(crate::queries::spec_empty_view(), events),
    ensures
        spec_view_replay(crate::queries::spec_empty_view(), events).balance.cents
            == ledger_signed_sum(spec_view_replay(crate::queries::spec_empty_view(), events).ledger),
{
    lemma_view_balance_is_ledger_sum(crate::queries::spec_empty_view(), events);
}

/// Sequence numbers are assigned strictly increasing with no gaps: when one
/// command's records continue exactly where the previous batch ended, the
/// concatenated stream is still numbered base+1, base+2, … in order.
pub proof fn lemma_sequences_chain(
    first: Seq<EventRecord>,
    second: Seq<EventRecord>,
    base: int,
)
    requires
        sequences_contiguous_from(first, base),
        sequences_contiguous_from(second, base + first.len()),
    ensures
        sequences_contiguous_from(first + second, base),
{
    assert forall|i: int| 0 <= i < (first + second).len() implies #[trigger] (first + second)[i].sequence
        == base + 1 + i by {
        if i < first.len() {
            assert((first + second)[i] == first[i]);
        } else {
            assert((first + second)[i] == second[i - first.len()]);
        }
    }
}

/// A stream numbered contiguously from zero starts at sequence 1 and each
/// record's sequence is exactly one more than its predecessor's: strictly
/// increasing, gap-free.
pub proof fn lemma_contiguous_stream_counts_from_one(rs: Seq<EventRecord>)
    requires
        sequences_contiguous_from(rs, 0),
    ensures
        rs.len() > 0 ==> rs[0].sequence == 1,
        forall|i: int| 0 < i < rs.len() ==> #[trigger] rs[i].sequence == rs[i - 1].sequence + 1,
{
}

} // verus!

//! The account state machine: pure decision logic. Given the current state
//! and a command (plus the business-rule services) it either emits events or
//! rejects the command; given the current state and an event it derives the
//! next state. State is never persisted: it is always the fold of events.

use vstd::prelude::*;

use crate::errors::BankAccountError;
use crate::model::{AccountId, Currency, EmailAddress, MailingAddress, Money};
use crate::protocol::{BankAccountCommand, BankAccountEvent};
use crate::services::{spec_validate_atm_withdrawal, spec_validate_check, BankAccountServices};

verus! {

/// The live state of an opened account.
#[derive(Debug)]
pub struct ActiveBankAccount {
    pub account_id: AccountId,
    pub user_name: String,
    pub balance: Money,
    pub mailing_address: MailingAddress,
    pub email: EmailAddress,
}

impl Clone for ActiveBankAccount {
    fn clone(&self) -> (res: ActiveBankAccount)
        ensures
            res == *self,
    {
        ActiveBankAccount {
            account_id: self.account_id,
            user_name: self.user_name.clone(),
            balance: self.balance,
            mailing_address: self.mailing_address.clone(),
            email: self.email.clone(),
        }
    }
}

/// The terminal state of a closed account. Reachable in the model, though no
/// command of the current protocol produces the closing transition.
#[derive(Debug)]
pub struct ClosedBankAccount {
    pub account_id: AccountId,
    pub user_name: String,
    pub mailing_address: MailingAddress,
    pub email: EmailAddress,
}

impl Clone for ClosedBankAccount {
    fn clone(&self) -> (res: ClosedBankAccount)
        ensures
            res == *self,
    {
        ClosedBankAccount {
            account_id: self.account_id,
            user_name: self.user_name.clone(),
            mailing_address: self.mailing_address.clone(),
            email: self.email.clone(),
        }
    }
}

/// One of the three mutually exclusive lifecycle states of an account.
#[derive(Debug)]
pub enum BankAccountState {
    /// No account exists yet.
    Quiescent,
    Active(ActiveBankAccount),
    Closed(ClosedBankAccount),
}

impl Clone for BankAccountState {
    fn clone(&self) -> (res: BankAccountState)
        ensures
            res == *self,
    {
        match self {
            BankAccountState::Quiescent => BankAccountState::Quiescent,
            BankAccountState::Active(acct) => BankAccountState::Active(acct.clone()),
            BankAccountState::Closed(acct) => BankAccountState::Closed(acct.clone()),
        }
    }
}

impl Default for BankAccountState {
    /// An account that has not been opened yet.
    fn default() -> (r: BankAccountState)
        ensures
            r is Quiescent,
    {
        BankAccountState::Quiescent
    }
}

/// The currency a freshly opened account's balance starts in.
pub open spec fn spec_opening_currency() -> Currency {
    Currency::Usd
}

/// Message with which a command against an unopened account is rejected.
pub open spec fn msg_unopened() -> Seq<char> {
    "Unopened account cannot process command"@
}

/// Message with which reopening an active account is rejected.
pub open spec fn msg_reopen() -> Seq<char> {
    "Active account cannot be reopened"@
}

/// Message with which any command against a closed account is rejected.
pub open spec fn msg_closed() -> Seq<char> {
    "Closed account will not accept command"@
}

/// What the state machine decides for one (state, command) pair: either the
/// events to emit, or the precise refusal.
pub enum Decision {
    /// The command is accepted and these events are recorded.
    Emit(Seq<BankAccountEvent>),
    /// The command is illegal in the current state.
    Reject(Seq<char>),
    /// The drawdown would leave the balance below zero.
    Insufficient(AccountId, Money),
    /// A business-rule service refused the operation.
    Service(crate::services::BankServiceError),
}

/// The complete decision table of the state machine (section by state, then
/// by command). Drawdowns are accepted iff `balance - amount >= 0`; the funds
/// check comes before the business-rule service is consulted.
pub open spec fn spec_handle(
    state: BankAccountState,
    cmd: BankAccountCommand,
    services: BankAccountServices,
) -> Decision {
    match state {
        BankAccountState::Quiescent => match cmd {
            BankAccountCommand::OpenAccount { account_id, user_name, mailing_address, email } => {
                Decision::Emit(
                    seq![
                        BankAccountEvent::AccountOpened {
                            account_id,
                            user_name,
                            mailing_address,
                            email,
                        },
                    ],
                )
            },
            _ => Decision::Reject(msg_unopened()),
        },
        BankAccountState::Active(acct) => match cmd {
            BankAccountCommand::OpenAccount { .. } => Decision::Reject(msg_reopen()),
            BankAccountCommand::DepositAmount { amount } => {
                Decision::Emit(seq![BankAccountEvent::BalanceDeposited { amount }])
            },
            BankAccountCommand::WithdrawCash { amount, atm_id } => {
                if acct.balance.cents - amount.cents < 0 {
                    Decision::Insufficient(acct.account_id, amount)
                } else {
                    match spec_validate_atm_withdrawal(services, atm_id, amount) {
                        Ok(_) => Decision::Emit(seq![BankAccountEvent::CashWithdrawal { amount }]),
                        Err(e) => Decision::Service(e),
                    }
                }
            },
            BankAccountCommand::DisburseCheck { check_nr, amount } => {
                if acct.balance.cents - amount.cents < 0 {
                    Decision::Insufficient(acct.account_id, amount)
                } else {
                    match spec_validate_check(services, acct.account_id, check_nr) {
                        Ok(_) => Decision::Emit(
                            seq![BankAccountEvent::CheckWithdrawal { check_nr, amount }],
                        ),
                        Err(e) => Decision::Service(e),
                    }
                }
            },
            BankAccountCommand::ChangeMailingAddress { new_address } => {
                Decision::Emit(seq![BankAccountEvent::MailingAddressUpdated { new_address }])
            },
            BankAccountCommand::ChangeEmail { new_email } => {
                Decision::Emit(seq![BankAccountEvent::EmailUpdated { new_email }])
            },
        },
        BankAccountState::Closed(_) => Decision::Reject(msg_closed()),
    }
}

/// How a `handle` result realizes the decision table: accepted commands
/// return exactly the decided events; refusals return the decided error and
/// zero events.
pub open spec fn handle_post(
    state: BankAccountState,
    cmd: BankAccountCommand,
    services: BankAccountServices,
    r: Result<Vec<BankAccountEvent>, BankAccountError>,
) -> bool {
    match spec_handle(state, cmd, services) {
        Decision::Emit(events) => r matches Ok(v) && v@ == events,
        Decision::Reject(msg) => r matches Err(BankAccountError::RejectedCommand(m)) && m@ == msg,
        Decision::Insufficient(account_id, amount) => r == Err::<
            Vec<BankAccountEvent>,
            _,
        >(BankAccountError::InsufficientFunds(account_id, amount)),
        Decision::Service(e) => r == Err::<Vec<BankAccountEvent>, _>(
            BankAccountError::BankServiceError(e),
        ),
    }
}

/// Side condition under which the funds check of a drawdown command stays
/// within the minor-unit representation: the amount is in the account's home
/// currency (mixed-currency arithmetic is refused by the money model) and
/// the difference fits in an `i64`.
pub open spec fn handle_amounts_ok(state: BankAccountState, cmd: BankAccountCommand) -> bool {
    state matches BankAccountState::Active(acct) ==> {
        &&& (cmd matches BankAccountCommand::WithdrawCash { amount, .. } ==> {
            &&& amount.currency == acct.balance.currency
            &&& i64::MIN <= acct.balance.cents - amount.cents <= i64::MAX
        })
        &&& (cmd matches BankAccountCommand::DisburseCheck { amount, .. } ==> {
            &&& amount.currency == acct.balance.currency
            &&& i64::MIN <= acct.balance.cents - amount.cents <= i64::MAX
        })
    }
}

/// The transition an event causes in a given state, or `None` for an event
/// the state does not recognize (which callers treat as a no-op, not an
/// error). Replay trusts events: drawdown events subtract unconditionally,
/// with no repeat of the funds check.
pub open spec fn spec_apply(state: BankAccountState, event: BankAccountEvent) -> Option<
    BankAccountState,
> {
    match state {
        BankAccountState::Quiescent => match event {
            BankAccountEvent::AccountOpened { account_id, user_name, mailing_address, email } => {
                Some(
                    BankAccountState::Active(
                        ActiveBankAccount {
                            account_id,
                            user_name,
                            balance: Money { cents: 0, currency: spec_opening_currency() },
                            mailing_address,
                            email,
                        },
                    ),
                )
            },
            _ => None,
        },
        BankAccountState::Active(acct) => match event {
            BankAccountEvent::BalanceDeposited { amount } => {
                Some(
                    BankAccountState::Active(
                        ActiveBankAccount {
                            balance: Money {
                                cents: (acct.balance.cents + amount.cents) as i64,
                                currency: acct.balance.currency,
                            },
                            ..acct
                        },
                    ),
                )
            },
            BankAccountEvent::CashWithdrawal { amount } => {
                Some(
                    BankAccountState::Active(
                        ActiveBankAccount {
                            balance: Money {
                                cents: (acct.balance.cents - amount.cents) as i64,
                                currency: acct.balance.currency,
                            },
                            ..acct
                        },
                    ),
                )
            },
            BankAccountEvent::CheckWithdrawal { amount, .. } => {
                Some(
                    BankAccountState::Active(
                        ActiveBankAccount {
                            balance: Money {
                                cents: (acct.balance.cents - amount.cents) as i64,
                                currency: acct.balance.currency,
                            },
                            ..acct
                        },
                    ),
                )
            },
            BankAccountEvent::MailingAddressUpdated { new_address } => {
                Some(BankAccountState::Active(ActiveBankAccount { mailing_address: new_address, ..acct }))
            },
            BankAccountEvent::EmailUpdated { new_email } => {
                Some(BankAccountState::Active(ActiveBankAccount { email: new_email, ..acct }))
            },
            _ => None,
        },
        BankAccountState::Closed(_) => None,
    }
}

/// Side condition under which applying an event stays within the minor-unit
/// representation, mirroring the money model's refusal of mixed-currency
/// arithmetic.
pub open spec fn apply_amounts_ok(state: BankAccountState, event: BankAccountEvent) -> bool {
    state matches BankAccountState::Active(acct) ==> {
        &&& (event matches BankAccountEvent::BalanceDeposited { amount } ==> {
            &&& amount.currency == acct.balance.currency
            &&& i64::MIN <= acct.balance.cents + amount.cents <= i64::MAX
        })
        &&& (event matches BankAccountEvent::CashWithdrawal { amount } ==> {
            &&& amount.currency == acct.balance.currency
            &&& i64::MIN <= acct.balance.cents - amount.cents <= i64::MAX
        })
        &&& (event matches BankAccountEvent::CheckWithdrawal { amount, .. } ==> {
            &&& amount.currency == acct.balance.currency
            &&& i64::MIN <= acct.balance.cents - amount.cents <= i64::MAX
        })
    }
}

impl BankAccountState {
    /// Decides a command in this state: emits events or returns the typed
    /// refusal, exactly as the decision table says. Zero events accompany
    /// every refusal.
    pub fn handle(&self, command: BankAccountCommand, services: &BankAccountServices) -> (r:
        Result<Vec<BankAccountEvent>, BankAccountError>)
        requires
            handle_amounts_ok(*self, command),
        ensures
            handle_post(*self, command, *services, r),
    {
        match self {
            BankAccountState::Quiescent => Self::handle_quiescent(command, services),
            BankAccountState::Active(acct) => acct.handle(command, services),
            BankAccountState::Closed(_) => Err(
                BankAccountError::RejectedCommand("Closed account will not accept command".to_owned()),
            ),
        }
    }

    fn handle_quiescent(command: BankAccountCommand, services: &BankAccountServices) -> (r: Result<
        Vec<BankAccountEvent>,
        BankAccountError,
    >)
        ensures
            handle_post(BankAccountState::Quiescent, command, *services, r),
    {
        match command {
            BankAccountCommand::OpenAccount { account_id, user_name, mailing_address, email } => {
                let events = vec![
                    BankAccountEvent::AccountOpened { account_id, user_name, mailing_address, email },
                ];
                assert(events@ =~= seq![
                    BankAccountEvent::AccountOpened {
                        account_id,
                        user_name,
                        mailing_address,
                        email,
                    },
                ]);
                Ok(events)
            },
            _ => Err(
                BankAccountError::RejectedCommand(
                    "Unopened account cannot process command".to_owned(),
                ),
            ),
        }
    }

    /// Applies an event to this state, returning the next state, or `None`
    /// for an event this state does not recognize.
    pub fn apply(&self, event: BankAccountEvent) -> (r: Option<BankAccountState>)
        requires
            apply_amounts_ok(*self, event),
        ensures
            r == spec_apply(*self, event),
    {
        match self {
            BankAccountState::Quiescent => match event {
                BankAccountEvent::AccountOpened { account_id, user_name, mailing_address, email } => {
                    Some(
                        BankAccountState::Active(
                            ActiveBankAccount {
                                account_id,
                                user_name,
                                balance: Money { cents: 0, currency: Currency::Usd },
                                mailing_address,
                                email,
                            },
                        ),
                    )
                },
                _ => None,
            },
            BankAccountState::Active(acct) => acct.apply(event),
            BankAccountState::Closed(_) => None,
        }
    }
}

impl ActiveBankAccount {
    fn handle(&self, command: BankAccountCommand, services: &BankAccountServices) -> (r: Result<
        Vec<BankAccountEvent>,
        BankAccountError,
    >)
        requires
            handle_amounts_ok(BankAccountState::Active(*self), command),
        ensures
            handle_post(BankAccountState::Active(*self), command, *services, r),
    {
        match command {
            BankAccountCommand::OpenAccount { .. } => Err(
                BankAccountError::RejectedCommand("Active account cannot be reopened".to_owned()),
            ),
            BankAccountCommand::DepositAmount { amount } => {
                let events = vec![BankAccountEvent::BalanceDeposited { amount }];
                assert(events@ =~= seq![BankAccountEvent::BalanceDeposited { amount }]);
                Ok(events)
            },
            BankAccountCommand::WithdrawCash { amount, atm_id } => {
                self.do_handle_cash_withdrawal(amount, atm_id, services)
            },
            BankAccountCommand::DisburseCheck { check_nr, amount } => {
                self.do_handle_check_disbursement(check_nr, amount, services)
            },
            BankAccountCommand::ChangeMailingAddress { new_address } => {
                let events = vec![BankAccountEvent::MailingAddressUpdated { new_address }];
                assert(events@ =~= seq![BankAccountEvent::MailingAddressUpdated { new_address }]);
                Ok(events)
            },
            BankAccountCommand::ChangeEmail { new_email } => {
                let events = vec![BankAccountEvent::EmailUpdated { new_email }];
                assert(events@ =~= seq![BankAccountEvent::EmailUpdated { new_email }]);
                Ok(events)
            },
        }
    }

    fn do_handle_cash_withdrawal(
        &self,
        amount: Money,
        atm_id: crate::model::AtmId,
        services: &BankAccountServices,
    ) -> (r: Result<Vec<BankAccountEvent>, BankAccountError>)
        requires
            amount.currency == self.balance.currency,
            i64::MIN <= self.balance.cents - amount.cents <= i64::MAX,
        ensures
            handle_post(
                BankAccountState::Active(*self),
                BankAccountCommand::WithdrawCash { amount, atm_id },
                *services,
                r,
            ),
    {
        let _remaining_balance = match self.check_funds_available(amount) {
            Ok(remaining) => remaining,
            Err(e) => {
                return Err(e);
            },
        };
        match services.validate_atm_withdrawal(&atm_id, amount) {
            Ok(_) => {
                let events = vec![BankAccountEvent::CashWithdrawal { amount }];
                assert(events@ =~= seq![BankAccountEvent::CashWithdrawal { amount }]);
                Ok(events)
            },
            Err(e) => Err(BankAccountError::BankServiceError(e)),
        }
    }

    fn do_handle_check_disbursement(
        &self,
        check_nr: crate::model::CheckNumber,
        amount: Money,
        services: &BankAccountServices,
    ) -> (r: Result<Vec<BankAccountEvent>, BankAccountError>)
        requires
            amount.currency == self.balance.currency,
            i64::MIN <= self.balance.cents - amount.cents <= i64::MAX,
        ensures
            handle_post(
                BankAccountState::Active(*self),
                BankAccountCommand::DisburseCheck { check_nr, amount },
                *services,
                r,
            ),
    {
        let _remaining_balance = match self.check_funds_available(amount) {
            Ok(remaining) => remaining,
            Err(e) => {
                return Err(e);
            },
        };
        match services.validate_check(&self.account_id, check_nr) {
            Ok(_) => {
                let events = vec![BankAccountEvent::CheckWithdrawal { check_nr, amount }];
                assert(events@ =~= seq![BankAccountEvent::CheckWithdrawal { check_nr, amount }]);
                Ok(events)
            },
            Err(e) => Err(BankAccountError::BankServiceError(e)),
        }
    }

    /// The funds-available check: the remaining balance when it is not
    /// negative (zero is allowed), the `InsufficientFunds` refusal otherwise.
    fn check_funds_available(&self, amount: Money) -> (r: Result<Money, BankAccountError>)
        requires
            amount.currency == self.balance.currency,
            i64::MIN <= self.balance.cents - amount.cents <= i64::MAX,
        ensures
            r == if self.balance.cents - amount.cents >= 0 {
                Ok::<Money, BankAccountError>(
                    Money {
                        cents: (self.balance.cents - amount.cents) as i64,
                        currency: self.balance.currency,
                    },
                )
            } else {
                Err::<Money, BankAccountError>(
                    BankAccountError::InsufficientFunds(self.account_id, amount),
                )
            },
    {
        let remaining = self.balance.cents - amount.cents;
        if remaining >= 0 {
            Ok(Money::new(remaining, self.balance.currency))
        } else {
            Err(BankAccountError::InsufficientFunds(self.account_id, amount))
        }
    }

    fn apply(&self, event: BankAccountEvent) -> (r: Option<BankAccountState>)
        requires
            apply_amounts_ok(BankAccountState::Active(*self), event),
        ensures
            r == spec_apply(BankAccountState::Active(*self), event),
    {
        match event {
            BankAccountEvent::BalanceDeposited { amount } => {
                let mut updated = self.clone();
                updated.balance = Money::new(
                    self.balance.cents + amount.cents,
                    self.balance.currency,
                );
                Some(BankAccountState::Active(updated))
            },
            BankAccountEvent::CashWithdrawal { amount } => {
                // replay trusts the funds check done at command time and
                // subtracts even into a negative balance
                let mut updated = self.clone();
                updated.balance = Money::new(
                    self.balance.cents - amount.cents,
                    self.balance.currency,
                );
                Some(BankAccountState::Active(updated))
            },
            BankAccountEvent::CheckWithdrawal { amount, .. } => {
                let mut updated = self.clone();
                updated.balance = Money::new(
                    self.balance.cents - amount.cents,
                    self.balance.currency,
                );
                Some(BankAccountState::Active(updated))
            },
            BankAccountEvent::MailingAddressUpdated { new_address } => {
                let mut updated = self.clone();
                updated.mailing_address = new_address;
                Some(BankAccountState::Active(updated))
            },
            BankAccountEvent::EmailUpdated { new_email } => {
                let mut updated = self.clone();
                updated.email = new_email;
                Some(BankAccountState::Active(updated))
            },
            _ => None,
        }
    }
}

/// The state an event leaves an account in: the transition when the state
/// recognizes the event, the unchanged state otherwise.
pub open spec fn spec_transition(state: BankAccountState, event: BankAccountEvent) -> BankAccountState {
    match spec_apply(state, event) {
        Some(next) => next,
        None => state,
    }
}

/// The state left by folding a whole event sequence, oldest first.
pub open spec fn spec_replay(state: BankAccountState, events: Seq<BankAccountEvent>) -> BankAccountState
    decreases events.len(),
{
    if events.len() == 0 {
        state
    } else {
        spec_replay(spec_transition(state, events[0]), events.skip(1))
    }
}

/// The aggregate: one account, addressed by its id, whose current state is
/// derived by folding its committed events.
#[derive(Debug)]
pub struct BankAccount {
    pub state: BankAccountState,
}

impl Clone for BankAccount {
    fn clone(&self) -> (res: BankAccount)
        ensures
            res == *self,
    {
        BankAccount { state: self.state.clone() }
    }
}

impl Default for BankAccount {
    /// An aggregate that has recorded no events yet.
    fn default() -> (r: BankAccount)
        ensures
            r.state is Quiescent,
    {
        BankAccount { state: BankAccountState::Quiescent }
    }
}

impl BankAccount {
    /// The constant type tag under which this aggregate's events are stored.
    pub fn aggregate_type() -> (r: String)
        ensures
            r@ == "account"@,
    {
        "account".to_owned()
    }

    /// Decides a command against the current state; emits events or returns
    /// the typed refusal per the decision table.
    pub fn handle(&self, command: BankAccountCommand, services: &BankAccountServices) -> (r:
        Result<Vec<BankAccountEvent>, BankAccountError>)
        requires
            handle_amounts_ok(self.state, command),
        ensures
            handle_post(self.state, command, *services, r),
    {
        self.state.handle(command, services)
    }

    /// Folds one committed event into the current state; an event the state
    /// does not recognize leaves the state unchanged.
    pub fn apply(&mut self, event: BankAccountEvent)
        requires
            apply_amounts_ok(old(self).state, event),
        ensures
            final(self).state == spec_transition(old(self).state, event),
    {
        if let Some(new_state) = self.state.apply(event) {
            self.state = new_state;
        }
    }
}

} // verus!

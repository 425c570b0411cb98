//! The command/event protocol of one bank account: the vocabulary of
//! intents a caller may submit and of facts the state machine records.

use vstd::prelude::*;

use crate::model::{AccountId, AtmId, CheckNumber, EmailAddress, MailingAddress, Money};

verus! {

/// An intent submitted against one account.
#[derive(Debug, Clone)]
pub enum BankAccountCommand {
    OpenAccount { account_id: AccountId, user_name: String, mailing_address: MailingAddress, email: EmailAddress },
    DepositAmount { amount: Money },
    WithdrawCash { amount: Money, atm_id: AtmId },
    DisburseCheck { check_nr: CheckNumber, amount: Money },
    ChangeMailingAddress { new_address: MailingAddress },
    ChangeEmail { new_email: EmailAddress },
}

/// An immutable fact recorded for one account. Events are the only source
/// of truth: account state is always derived by folding them.
#[derive(Debug)]
pub enum BankAccountEvent {
    AccountOpened { account_id: AccountId, user_name: String, mailing_address: MailingAddress, email: EmailAddress },
    BalanceDeposited { amount: Money },
    CashWithdrawal { amount: Money },
    CheckWithdrawal { check_nr: CheckNumber, amount: Money },
    MailingAddressUpdated { new_address: MailingAddress },
    EmailUpdated { new_email: EmailAddress },
}

/// The stable type tag persisted with each event, as a character sequence.
pub open spec fn spec_event_type(event: BankAccountEvent) -> Seq<char> {
    match event {
        BankAccountEvent::AccountOpened { .. } => "account_opened"@,
        BankAccountEvent::BalanceDeposited { .. } => "balance_deposited"@,
        BankAccountEvent::CashWithdrawal { .. } => "cash_withdrawal"@,
        BankAccountEvent::CheckWithdrawal { .. } => "check_withdrawal"@,
        BankAccountEvent::MailingAddressUpdated { .. } => "mailing_address_updated"@,
        BankAccountEvent::EmailUpdated { .. } => "email_updated"@,
    }
}

/// The protocol version persisted with every event.
pub open spec fn spec_event_version() -> Seq<char> {
    "1.0"@
}

impl BankAccountEvent {
    /// The stable type tag of this event, derived from its variant name.
    pub fn event_type(&self) -> (r: String)
        ensures
            r@ == spec_event_type(*self),
    {
        match self {
            BankAccountEvent::AccountOpened { .. } => "account_opened".to_owned(),
            BankAccountEvent::BalanceDeposited { .. } => "balance_deposited".to_owned(),
            BankAccountEvent::CashWithdrawal { .. } => "cash_withdrawal".to_owned(),
            BankAccountEvent::CheckWithdrawal { .. } => "check_withdrawal".to_owned(),
            BankAccountEvent::MailingAddressUpdated { .. } => "mailing_address_updated".to_owned(),
            BankAccountEvent::EmailUpdated { .. } => "email_updated".to_owned(),
        }
    }

    /// The fixed protocol version stamped on every persisted event.
    pub fn event_version(&self) -> (r: String)
        ensures
            r@ == spec_event_version(),
    {
        "1.0".to_owned()
    }
}

impl Clone for BankAccountEvent {
    fn clone(&self) -> (res: BankAccountEvent)
        ensures
            res == *self,
    {
        match self {
            BankAccountEvent::AccountOpened { account_id, user_name, mailing_address, email } => {
                BankAccountEvent::AccountOpened {
                    account_id: *account_id,
                    user_name: user_name.clone(),
                    mailing_address: mailing_address.clone(),
                    email: email.clone(),
                }
            },
            BankAccountEvent::BalanceDeposited { amount } => BankAccountEvent::BalanceDeposited {
                amount: *amount,
            },
            BankAccountEvent::CashWithdrawal { amount } => BankAccountEvent::CashWithdrawal {
                amount: *amount,
            },
            BankAccountEvent::CheckWithdrawal { check_nr, amount } => {
                BankAccountEvent::CheckWithdrawal { check_nr: *check_nr, amount: *amount }
            },
            BankAccountEvent::MailingAddressUpdated { new_address } => {
                BankAccountEvent::MailingAddressUpdated { new_address: new_address.clone() }
            },
            BankAccountEvent::EmailUpdated { new_email } => BankAccountEvent::EmailUpdated {
                new_email: new_email.clone(),
            },
        }
    }
}

impl PartialEq for BankAccountEvent {
    fn eq(&self, other: &BankAccountEvent) -> (r: bool) {
        match (self, other) {
            (
                BankAccountEvent::AccountOpened { account_id, user_name, mailing_address, email },
                BankAccountEvent::AccountOpened {
                    account_id: o_account_id,
                    user_name: o_user_name,
                    mailing_address: o_mailing_address,
                    email: o_email,
                },
            ) => {
                account_id == o_account_id && *user_name == *o_user_name
                    && mailing_address == o_mailing_address && email == o_email
            },
            (
                BankAccountEvent::BalanceDeposited { amount },
                BankAccountEvent::BalanceDeposited { amount: o_amount },
            ) => amount == o_amount,
            (
                BankAccountEvent::CashWithdrawal { amount },
                BankAccountEvent::CashWithdrawal { amount: o_amount },
            ) => amount == o_amount,
            (
                BankAccountEvent::CheckWithdrawal { check_nr, amount },
                BankAccountEvent::CheckWithdrawal { check_nr: o_check_nr, amount: o_amount },
            ) => check_nr == o_check_nr && amount == o_amount,
            (
                BankAccountEvent::MailingAddressUpdated { new_address },
                BankAccountEvent::MailingAddressUpdated { new_address: o_new_address },
            ) => new_address == o_new_address,
            (
                BankAccountEvent::EmailUpdated { new_email },
                BankAccountEvent::EmailUpdated { new_email: o_new_email },
            ) => new_email == o_new_email,
            _ => false,
        }
    }
}

/// Deep equality of two events: variant and every field, strings by content.
pub open spec fn event_eq(a: BankAccountEvent, b: BankAccountEvent) -> bool {
    match (a, b) {
        (
            BankAccountEvent::AccountOpened { account_id, user_name, mailing_address, email },
            BankAccountEvent::AccountOpened {
                account_id: o_account_id,
                user_name: o_user_name,
                mailing_address: o_mailing_address,
                email: o_email,
            },
        ) => {
            &&& account_id == o_account_id
            &&& user_name@ == o_user_name@
            &&& mailing_address.0@ == o_mailing_address.0@
            &&& email.0@ == o_email.0@
        },
        (
            BankAccountEvent::BalanceDeposited { amount },
            BankAccountEvent::BalanceDeposited { amount: o_amount },
        ) => amount == o_amount,
        (
            BankAccountEvent::CashWithdrawal { amount },
            BankAccountEvent::CashWithdrawal { amount: o_amount },
        ) => amount == o_amount,
        (
            BankAccountEvent::CheckWithdrawal { check_nr, amount },
            BankAccountEvent::CheckWithdrawal { check_nr: o_check_nr, amount: o_amount },
        ) => check_nr == o_check_nr && amount == o_amount,
        (
            BankAccountEvent::MailingAddressUpdated { new_address },
            BankAccountEvent::MailingAddressUpdated { new_address: o_new_address },
        ) => new_address.0@ == o_new_address.0@,
        (
            BankAccountEvent::EmailUpdated { new_email },
            BankAccountEvent::EmailUpdated { new_email: o_new_email },
        ) => new_email.0@ == o_new_email.0@,
        _ => false,
    }
}

impl Eq for BankAccountEvent {

}

impl vstd::std_specs::cmp::PartialEqSpecImpl for BankAccountEvent {
    open spec fn obeys_eq_spec() -> bool {
        true
    }

    open spec fn eq_spec(&self, other: &BankAccountEvent) -> bool {
        event_eq(*self, *other)
    }
}

} // verus!

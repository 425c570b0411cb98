//! Business-rule services: a pluggable capability that authorizes ATM
//! withdrawals and check disbursements before the state machine commits to
//! them. Implementations are selected at construction time.

use vstd::prelude::*;

use crate::model::{AccountId, AtmId, CheckNumber, Money};

verus! {

/// Why a business-rule service refused an operation.
#[derive(Debug, Clone)]
pub enum BankServiceError {
    /// An ATM rule violation, with its rendered reason.
    Atm(String),
    /// The check number is not valid for the account.
    InvalidCheck(AccountId, CheckNumber),
}

/// The capability the state machine consults before drawing funds.
pub trait BankAccountApi {
    fn validate_atm_withdrawal(&self, atm_id: &AtmId, amount: Money) -> Result<
        (),
        BankServiceError,
    >;

    fn validate_check(&self, account_id: &AccountId, check: CheckNumber) -> Result<
        (),
        BankServiceError,
    >;
}

/// The concrete business-rule services an aggregate is wired with.
#[derive(Debug, Clone)]
pub enum BankAccountServices {
    HappyPath(HappyPathBankAccountServices),
}

/// A reference implementation that authorizes every operation.
#[derive(Debug, Clone, Copy)]
pub struct HappyPathBankAccountServices;

/// What `BankAccountServices::validate_atm_withdrawal` returns.
pub open spec fn spec_validate_atm_withdrawal(
    services: BankAccountServices,
    atm_id: AtmId,
    amount: Money,
) -> Result<(), BankServiceError> {
    match services {
        BankAccountServices::HappyPath(_) => Ok(()),
    }
}

/// What `BankAccountServices::validate_check` returns.
pub open spec fn spec_validate_check(
    services: BankAccountServices,
    account_id: AccountId,
    check: CheckNumber,
) -> Result<(), BankServiceError> {
    match services {
        BankAccountServices::HappyPath(_) => Ok(()),
    }
}

impl BankAccountServices {
    /// Consults the configured service about an ATM withdrawal.
    pub fn validate_atm_withdrawal(&self, atm_id: &AtmId, amount: Money) -> (r: Result<
        (),
        BankServiceError,
    >)
        ensures
            r == spec_validate_atm_withdrawal(*self, *atm_id, amount),
    {
        match self {
            BankAccountServices::HappyPath(svc) => svc.validate_atm_withdrawal(atm_id, amount),
        }
    }

    /// Consults the configured service about a check disbursement.
    pub fn validate_check(&self, account_id: &AccountId, check: CheckNumber) -> (r: Result<
        (),
        BankServiceError,
    >)
        ensures
            r == spec_validate_check(*self, *account_id, check),
    {
        match self {
            BankAccountServices::HappyPath(svc) => svc.validate_check(account_id, check),
        }
    }
}

impl HappyPathBankAccountServices {
    /// The happy path authorizes every ATM withdrawal.
    pub fn validate_atm_withdrawal(&self, _atm_id: &AtmId, _amount: Money) -> (r: Result<
        (),
        BankServiceError,
    >)
        ensures
            r == Ok::<(), BankServiceError>(()),
    {
        Ok(())
    }

    /// The happy path accepts every check.
    pub fn validate_check(&self, _account_id: &AccountId, _check: CheckNumber) -> (r: Result<
        (),
        BankServiceError,
    >)
        ensures
            r == Ok::<(), BankServiceError>(()),
    {
        Ok(())
    }
}

impl From<HappyPathBankAccountServices> for BankAccountServices {
    fn from(svc: HappyPathBankAccountServices) -> (r: BankAccountServices) {
        BankAccountServices::HappyPath(svc)
    }
}

impl vstd::std_specs::convert::FromSpecImpl<HappyPathBankAccountServices> for BankAccountServices {
    open spec fn obeys_from_spec() -> bool {
        true
    }

    open spec fn from_spec(svc: HappyPathBankAccountServices) -> BankAccountServices {
        BankAccountServices::HappyPath(svc)
    }
}

impl BankAccountApi for BankAccountServices {
    fn validate_atm_withdrawal(&self, atm_id: &AtmId, amount: Money) -> Result<
        (),
        BankServiceError,
    > {
        BankAccountServices::validate_atm_withdrawal(self, atm_id, amount)
    }

    fn validate_check(&self, account_id: &AccountId, check: CheckNumber) -> Result<
        (),
        BankServiceError,
    > {
        BankAccountServices::validate_check(self, account_id, check)
    }
}

impl BankAccountApi for HappyPathBankAccountServices {
    fn validate_atm_withdrawal(&self, atm_id: &AtmId, amount: Money) -> Result<
        (),
        BankServiceError,
    > {
        HappyPathBankAccountServices::validate_atm_withdrawal(self, atm_id, amount)
    }

    fn validate_check(&self, account_id: &AccountId, check: CheckNumber) -> Result<
        (),
        BankServiceError,
    > {
        HappyPathBankAccountServices::validate_check(self, account_id, check)
    }
}

} // verus!

//! Typed failures of the bank account domain and of the service around it.

use vstd::prelude::*;

use crate::model::{AccountId, Money};
use crate::services::BankServiceError;

verus! {

/// Why the account state machine refused a command. A refusal produces zero
/// events: command evaluation is atomic.
#[derive(Debug, Clone)]
pub enum BankAccountError {
    /// No account exists under the queried id.
    NotFound(AccountId),
    /// Drawing the amount would leave the balance below zero.
    InsufficientFunds(AccountId, Money),
    /// A business-rule service refused the operation.
    BankServiceError(BankServiceError),
    /// The command is illegal in the account's current state.
    RejectedCommand(String),
}

/// The service-level error taxonomy: domain refusals, the optimistic
/// concurrency conflict (retryable), and technical faults of collaborators,
/// carried as rendered messages.
#[derive(Debug, Clone)]
pub enum BankError {
    /// A fault of the HTTP machinery, rendered.
    Api(String),
    /// Request data failed validation, rendered.
    Validation(String),
    /// The state machine refused the command.
    BankAccount(BankAccountError),
    /// The command violated a business rule, rendered.
    User(String),
    /// A concurrent writer won the race; the caller may retry.
    AggregateConflict,
    /// A failed database read or write.
    DatabaseConnection { source: String },
    /// A payload that would not deserialize.
    Deserialization { source: String },
    /// A technical failure that kept the command from being applied.
    Unexpected { source: String },
}

} // verus!

//! Event-sourced bank account domain: value objects, the account state
//! machine that decides which commands are legal in which state, the
//! command/event protocol, business-rule services, and the read projection
//! that folds committed events into a queryable account view.

pub mod application;
pub mod bank_account;
pub mod errors;
pub mod laws;
pub mod model;
pub mod protocol;
pub mod queries;
pub mod records;
pub mod services;
pub mod settings;
pub mod text;

pub use application::{AccountApplication, ErrorReport, HealthStatus, HealthStatusReport, HttpError, Pagination, Version};
pub use bank_account::{BankAccount, BankAccountState};
pub use errors::{BankAccountError, BankError};
pub use model::{AccountId, AtmId, CheckNumber, Currency, EmailAddress, MailingAddress, Money};
pub use protocol::{BankAccountCommand, BankAccountEvent};
pub use queries::{BankAccountView, LedgerEntry};
pub use services::{BankAccountApi, BankAccountServices, BankServiceError, HappyPathBankAccountServices};
pub use settings::CorrelationSettings;

//! The service layer around the aggregate: API versioning, health
//! summarization, the account application form, and the mapping of domain
//! errors onto HTTP-shaped responses. Everything here is pure decision
//! logic; the HTTP transport and the database live outside.

use vstd::prelude::*;

use crate::errors::{BankAccountError, BankError};
use crate::model::{EmailAddress, MailingAddress};
use crate::text::{append_dec_i64, spec_dec_int};

verus! {

/// The served API version.
#[derive(Debug, Clone, Copy, PartialEq, Eq, Structural)]
pub enum Version {
    V1,
}

impl Version {
    /// The most recent API version.
    pub fn latest() -> (r: Version)
        ensures
            r == Version::V1,
    {
        Version::V1
    }
}

/// One page of a paginated listing request.
#[derive(Debug, Clone, Copy, PartialEq, Eq, Structural)]
pub struct Pagination {
    pub page: usize,
    pub per_page: usize,
}

/// The health of one served component, or of the system as a whole.
#[derive(Debug, Clone, Copy, PartialEq, Eq, Structural, Hash)]
pub enum HealthStatus {
    Up,
    NotReady,
    Error,
    Down,
}

/// The body of a health response.
#[derive(Debug, Clone, Copy, PartialEq, Eq, Structural)]
pub struct HealthStatusReport {
    pub status: HealthStatus,
}

impl From<HealthStatus> for HealthStatusReport {
    fn from(status: HealthStatus) -> (r: HealthStatusReport) {
        HealthStatusReport { status }
    }
}

impl vstd::std_specs::convert::FromSpecImpl<HealthStatus> for HealthStatusReport {
    open spec fn obeys_from_spec() -> bool {
        true
    }

    open spec fn from_spec(status: HealthStatus) -> HealthStatusReport {
        HealthStatusReport { status }
    }
}

/// The health each probed service reports: up when its probe succeeded,
/// error otherwise.
pub open spec fn spec_service_health(probe_succeeded: bool) -> HealthStatus {
    if probe_succeeded {
        HealthStatus::Up
    } else {
        HealthStatus::Error
    }
}

/// The system is up only when every service is.
pub open spec fn spec_system_health(probes: Seq<bool>) -> HealthStatus {
    if forall|i: int| 0 <= i < probes.len() ==> probes[i] {
        HealthStatus::Up
    } else {
        HealthStatus::Down
    }
}

/// The HTTP status code each health state is served with.
pub open spec fn spec_health_status_code(health: HealthStatus) -> u16 {
    match health {
        HealthStatus::Up => 200,
        HealthStatus::Error => 500,
        HealthStatus::Down => 503,
        HealthStatus::NotReady => 503,
    }
}

impl HealthStatus {
    /// The HTTP status code this health state is served with: OK when up,
    /// an internal error for a failing service, service-unavailable when
    /// down or not ready.
    pub fn status_code(&self) -> (r: u16)
        ensures
            r == spec_health_status_code(*self),
    {
        match self {
            HealthStatus::Up => 200,
            HealthStatus::Error => 500,
            HealthStatus::Down => 503,
            HealthStatus::NotReady => 503,
        }
    }
}

/// Summarizes the probes of the served components: each service is up or in
/// error according to its probe, and the system is up only when every
/// service is.
pub fn check_health(service_probes: Vec<(String, bool)>) -> (r: (
    HealthStatus,
    Vec<(String, HealthStatus)>,
))
    ensures
        r.0 == spec_system_health(service_probes@.map_values(|p: (String, bool)| p.1)),
        r.1@.len() == service_probes@.len(),
        forall|i: int| 0 <= i < r.1@.len() ==> #[trigger] r.1@[i].0 == service_probes@[i].0,
        forall|i: int|
            0 <= i < r.1@.len() ==> #[trigger] r.1@[i].1 == spec_service_health(
                service_probes@[i].1,
            ),
{
    let ghost probes = service_probes@.map_values(|p: (String, bool)| p.1);
    let mut report: Vec<(String, HealthStatus)> = Vec::new();
    let mut all_up = true;
    let mut i: usize = 0;
    while i < service_probes.len()
        invariant
            i <= service_probes@.len(),
            probes == service_probes@.map_values(|p: (String, bool)| p.1),
            report@.len() == i,
            all_up <==> (forall|j: int| 0 <= j < i ==> probes[j]),
            forall|j: int| 0 <= j < i ==> #[trigger] report@[j].0 == service_probes@[j].0,
            forall|j: int|
                0 <= j < i ==> #[trigger] report@[j].1 == spec_service_health(
                    service_probes@[j].1,
                ),
        decreases service_probes@.len() - i,
    {
        let (name, ok) = (service_probes[i].0.clone(), service_probes[i].1);
        let health = if ok {
            HealthStatus::Up
        } else {
            HealthStatus::Error
        };
        all_up = all_up && ok;
        report.push((name, health));
        proof {
            assert(probes[i as int] == service_probes@[i as int].1);
        }
        i = i + 1;
    }
    let system = if all_up {
        HealthStatus::Up
    } else {
        HealthStatus::Down
    };
    (system, report)
}

/// A rendered error carried in an HTTP error response body.
#[derive(Debug, Clone)]
pub struct ErrorReport {
    pub error: String,
    pub error_code: Option<String>,
    pub backtrace: Option<String>,
}

/// The HTTP-shaped classification of a failure: a client error, a missing
/// resource, or a server fault.
#[derive(Debug, Clone)]
pub enum HttpError {
    BadRequest { error: ErrorReport },
    NotFound { message: String },
    Internal { error: ErrorReport },
}

/// The message served when no account exists under an id.
pub open spec fn spec_not_found_message(id: int) -> Seq<char> {
    "No bank account found for account id: "@ + spec_dec_int(id)
}

/// The not-found message, rendered digit by digit.
fn not_found_message(id: i64) -> (r: String)
    ensures
        r@ == spec_not_found_message(id as int),
{
    let mut r = String::from_str("No bank account found for account id: ");
    append_dec_i64(&mut r, id);
    r
}

/// How a failure classifies: a missing account is not-found with a message
/// naming the id; other domain refusals and rule violations are the
/// client's; everything else is the server's.
pub open spec fn from_error_post(error: BankError, rendered: Seq<char>, r: HttpError) -> bool {
    match error {
        BankError::BankAccount(BankAccountError::NotFound(account_id)) => r matches HttpError::NotFound {
            message,
        } && message@ == spec_not_found_message(account_id.0 as int),
        BankError::BankAccount(_) => is_bad_request(r, rendered),
        BankError::User(_) => is_bad_request(r, rendered),
        _ => is_internal(r, rendered),
    }
}

/// A bad-request response carrying the rendered error and nothing else.
pub open spec fn is_bad_request(r: HttpError, rendered: Seq<char>) -> bool {
    &&& r matches HttpError::BadRequest { error }
    &&& error.error@ == rendered
    &&& error.error_code is None
    &&& error.backtrace is None
}

/// An internal-error response carrying the rendered error and nothing else.
pub open spec fn is_internal(r: HttpError, rendered: Seq<char>) -> bool {
    &&& r matches HttpError::Internal { error }
    &&& error.error@ == rendered
    &&& error.error_code is None
    &&& error.backtrace is None
}

impl HttpError {
    /// Classifies a failure for the HTTP boundary. `rendered` is the
    /// human-readable rendering of the error, produced by the caller.
    pub fn from_error(error: &BankError, rendered: String) -> (r: HttpError)
        ensures
            from_error_post(*error, rendered@, r),
    {
        match error {
            BankError::BankAccount(BankAccountError::NotFound(account_id)) => {
                HttpError::NotFound { message: not_found_message(account_id.as_num()) }
            },
            BankError::BankAccount(_) => HttpError::BadRequest {
                error: ErrorReport { error: rendered, error_code: None, backtrace: None },
            },
            BankError::User(_) => HttpError::BadRequest {
                error: ErrorReport { error: rendered, error_code: None, backtrace: None },
            },
            _ => HttpError::Internal {
                error: ErrorReport { error: rendered, error_code: None, backtrace: None },
            },
        }
    }
}

/// Whether a character sequence is an email address in the HTML5 sense.
/// Only the trusted validator call below gives this name meaning.
pub uninterp spec fn email_accepted(s: Seq<char>) -> bool;

/// Relies on validator's `ValidateEmail` for `str`: whether the string is a
/// valid email address per the HTML5 specification. The result depends on
/// the characters alone; the empty string is never accepted.
#[verifier::external_body]
fn validate_email(s: &str) -> (r: bool)
    ensures
        r == email_accepted(s@),
        s@.len() == 0 ==> !r,
{
    validator::ValidateEmail::validate_email(&s)
}

/// A request to open an account: the applicant's name, postal address and
/// validated email address.
#[derive(Debug, Clone)]
pub struct AccountApplication {
    pub user_name: String,
    pub mailing_address: MailingAddress,
    pub email: EmailAddress,
}

impl AccountApplication {
    /// Builds an application after validating the email address; an invalid
    /// address is refused.
    pub fn new(user_name: String, mailing_address: MailingAddress, email: EmailAddress) -> (r:
        Result<AccountApplication, BankError>)
        ensures
            email_accepted(email.0@) ==> (r matches Ok(app) && app.user_name == user_name
                && app.mailing_address == mailing_address && app.email == email),
            !email_accepted(email.0@) ==> (r matches Err(BankError::Validation(m)) && m@
                == "invalid email address"@),
    {
        if validate_email(email.as_str()) {
            Ok(AccountApplication { user_name, mailing_address, email })
        } else {
            Err(BankError::Validation("invalid email address".to_owned()))
        }
    }
}

} // verus!

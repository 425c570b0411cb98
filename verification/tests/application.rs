use bankaccount::application::{check_health, AccountApplication, HealthStatus, HttpError, Version};
use bankaccount::{
    AccountId, AtmId, BankAccountError, BankError, BankServiceError, CheckNumber,
    CorrelationSettings, Currency, EmailAddress, MailingAddress, Money,
};

#[test]
fn latest_api_version_is_v1() {
    assert_eq!(Version::latest(), Version::V1);
}

#[test]
fn system_is_up_only_when_every_service_is() {
    let (system, report) = check_health(vec![
        ("bank_account_aggregate".to_string(), true),
        ("bank_account_view".to_string(), true),
    ]);
    assert_eq!(system, HealthStatus::Up);
    assert_eq!(report.len(), 2);
    assert_eq!(report[0], ("bank_account_aggregate".to_string(), HealthStatus::Up));

    let (system, report) = check_health(vec![
        ("bank_account_aggregate".to_string(), true),
        ("bank_account_view".to_string(), false),
    ]);
    assert_eq!(system, HealthStatus::Down);
    assert_eq!(report[1], ("bank_account_view".to_string(), HealthStatus::Error));
}

#[test]
fn missing_account_maps_to_not_found_with_its_id() {
    let error = BankError::BankAccount(BankAccountError::NotFound(AccountId::new(42)));
    let http = HttpError::from_error(&error, "whatever".to_string());
    match http {
        HttpError::NotFound { message } => {
            assert_eq!(message, "No bank account found for account id: 42");
        },
        other => panic!("expected not-found, got {other:?}"),
    }

    let error = BankError::BankAccount(BankAccountError::NotFound(AccountId::new(-3)));
    match HttpError::from_error(&error, String::new()) {
        HttpError::NotFound { message } => {
            assert_eq!(message, "No bank account found for account id: -3");
        },
        other => panic!("expected not-found, got {other:?}"),
    }
}

#[test]
fn domain_refusals_are_client_errors_and_faults_are_server_errors() {
    let insufficient = BankError::BankAccount(BankAccountError::InsufficientFunds(
        AccountId::new(7),
        Money::new(500, Currency::Usd),
    ));
    assert!(matches!(
        HttpError::from_error(&insufficient, "funds not available".to_string()),
        HttpError::BadRequest { .. }
    ));

    let atm_rule = BankError::BankAccount(BankAccountError::BankServiceError(
        BankServiceError::Atm("terminal out of service".to_string()),
    ));
    assert!(matches!(
        HttpError::from_error(&atm_rule, "ATM rule violation".to_string()),
        HttpError::BadRequest { .. }
    ));

    let bad_check = BankError::BankAccount(BankAccountError::BankServiceError(
        BankServiceError::InvalidCheck(AccountId::new(7), CheckNumber::new(11)),
    ));
    assert!(matches!(
        HttpError::from_error(&bad_check, "invalid check".to_string()),
        HttpError::BadRequest { .. }
    ));

    let user = BankError::User("rule violation".to_string());
    assert!(matches!(
        HttpError::from_error(&user, "rule violation".to_string()),
        HttpError::BadRequest { .. }
    ));

    let conflict = BankError::AggregateConflict;
    assert!(matches!(
        HttpError::from_error(&conflict, "conflict".to_string()),
        HttpError::Internal { .. }
    ));

    let db = BankError::DatabaseConnection { source: "connection refused".to_string() };
    match HttpError::from_error(&db, "connection refused".to_string()) {
        HttpError::Internal { error } => {
            assert_eq!(error.error, "connection refused");
            assert!(error.error_code.is_none());
            assert!(error.backtrace.is_none());
        },
        other => panic!("expected an internal error, got {other:?}"),
    }

    let deser = BankError::Deserialization { source: "bad payload".to_string() };
    assert!(matches!(
        HttpError::from_error(&deser, "bad payload".to_string()),
        HttpError::Internal { .. }
    ));

    let unexpected = BankError::Unexpected { source: "boom".to_string() };
    assert!(matches!(
        HttpError::from_error(&unexpected, "boom".to_string()),
        HttpError::Internal { .. }
    ));

    let api = BankError::Api("route".to_string());
    assert!(matches!(
        HttpError::from_error(&api, "route".to_string()),
        HttpError::Internal { .. }
    ));

    let validation = BankError::Validation("bad email".to_string());
    assert!(matches!(
        HttpError::from_error(&validation, "bad email".to_string()),
        HttpError::Internal { .. }
    ));
}

#[test]
fn account_application_accepts_a_valid_email() {
    let application = AccountApplication::new(
        "otis".to_string(),
        MailingAddress::new("123 Main St., Springfield, IL, 61890".to_string()),
        EmailAddress::new("otis@example.com".to_string()),
    )
    .unwrap();
    assert_eq!(application.user_name, "otis");
    assert_eq!(application.email.as_str(), "otis@example.com");
}

#[test]
fn account_application_rejects_an_invalid_email() {
    let result = AccountApplication::new(
        "otis".to_string(),
        MailingAddress::new("123 Main St., Springfield, IL, 61890".to_string()),
        EmailAddress::new("not-an-email".to_string()),
    );
    match result {
        Err(BankError::Validation(message)) => assert_eq!(message, "invalid email address"),
        other => panic!("expected a validation error, got {other:?}"),
    }

    assert!(AccountApplication::new(
        "otis".to_string(),
        MailingAddress::new("123 Main St., Springfield, IL, 61890".to_string()),
        EmailAddress::new(String::new()),
    )
    .is_err());
}

#[test]
fn atm_id_and_value_objects_round_trip() {
    let atm = AtmId::new("abc_123".to_string());
    assert_eq!(atm.as_str(), "abc_123");
    let check = CheckNumber::new(1082);
    assert_eq!(check.as_u32(), 1082);
    let id = AccountId::new(7006077196242653184);
    assert_eq!(id.as_num(), 7006077196242653184);
    let address = MailingAddress::new("12 Seahawks Way, Renton, WA 98056".to_string());
    assert_eq!(address.as_str(), "12 Seahawks Way, Renton, WA 98056");
}

#[test]
fn health_states_map_to_http_status_codes() {
    assert_eq!(HealthStatus::Up.status_code(), 200);
    assert_eq!(HealthStatus::Error.status_code(), 500);
    assert_eq!(HealthStatus::Down.status_code(), 503);
    assert_eq!(HealthStatus::NotReady.status_code(), 503);
}

#[test]
fn correlation_settings_default_to_single_node() {
    let settings = CorrelationSettings::default();
    assert_eq!(settings.machine_id, 1);
    assert_eq!(settings.node_id, 1);
}

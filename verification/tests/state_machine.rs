use bankaccount::bank_account::{ActiveBankAccount, BankAccount, ClosedBankAccount};
use bankaccount::records::wrap_events;
use bankaccount::{
    AccountId, AtmId, BankAccountCommand, BankAccountError, BankAccountEvent, BankAccountServices,
    BankAccountState, CheckNumber, Currency, EmailAddress, HappyPathBankAccountServices,
    MailingAddress, Money,
};

fn services() -> BankAccountServices {
    BankAccountServices::HappyPath(HappyPathBankAccountServices)
}

fn open_command(id: i64, user_name: &str) -> BankAccountCommand {
    BankAccountCommand::OpenAccount {
        account_id: AccountId::new(id),
        user_name: user_name.to_string(),
        mailing_address: MailingAddress::new("123 Main St., Springfield, IL, 61890".to_string()),
        email: EmailAddress::new("otis@example.com".to_string()),
    }
}

fn active_with_balance(cents: i64) -> BankAccountState {
    BankAccountState::Active(ActiveBankAccount {
        account_id: AccountId::new(7),
        user_name: "otis".to_string(),
        balance: Money::new(cents, Currency::Usd),
        mailing_address: MailingAddress::new("123 Main St., Springfield, IL, 61890".to_string()),
        email: EmailAddress::new("otis@example.com".to_string()),
    })
}

fn usd(cents: i64) -> Money {
    Money::new(cents, Currency::Usd)
}

#[test]
fn open_account_emits_account_opened_with_sequence_one() {
    let state = BankAccountState::Quiescent;
    let events = state.handle(open_command(42, "otis"), &services()).unwrap();
    assert_eq!(events.len(), 1);
    assert!(matches!(
        &events[0],
        BankAccountEvent::AccountOpened { account_id, user_name, .. }
            if *account_id == AccountId::new(42) && user_name == "otis"
    ));

    let records = wrap_events("42", 0, events, "{}");
    assert_eq!(records.len(), 1);
    assert_eq!(records[0].sequence, 1);
    assert_eq!(records[0].aggregate_type, "account");
    assert_eq!(records[0].aggregate_id, "42");
    assert_eq!(records[0].event_type, "account_opened");
    assert_eq!(records[0].event_version, "1.0");
    assert_eq!(records[0].metadata, "{}");
}

#[test]
fn reopening_an_active_account_is_rejected() {
    let state = active_with_balance(0);
    let result = state.handle(open_command(7, "otis"), &services());
    match result {
        Err(BankAccountError::RejectedCommand(msg)) => {
            assert_eq!(msg, "Active account cannot be reopened");
        },
        other => panic!("expected a rejected command, got {other:?}"),
    }
}

#[test]
fn unopened_account_rejects_other_commands() {
    let state = BankAccountState::Quiescent;
    let result = state.handle(
        BankAccountCommand::DepositAmount { amount: usd(1000) },
        &services(),
    );
    match result {
        Err(BankAccountError::RejectedCommand(msg)) => {
            assert_eq!(msg, "Unopened account cannot process command");
        },
        other => panic!("expected a rejected command, got {other:?}"),
    }
}

#[test]
fn closed_account_rejects_every_command() {
    let state = BankAccountState::Closed(ClosedBankAccount {
        account_id: AccountId::new(7),
        user_name: "otis".to_string(),
        mailing_address: MailingAddress::new("123 Main St., Springfield, IL, 61890".to_string()),
        email: EmailAddress::new("otis@example.com".to_string()),
    });
    let result = state.handle(
        BankAccountCommand::DepositAmount { amount: usd(1000) },
        &services(),
    );
    match result {
        Err(BankAccountError::RejectedCommand(msg)) => {
            assert_eq!(msg, "Closed account will not accept command");
        },
        other => panic!("expected a rejected command, got {other:?}"),
    }
}

#[test]
fn deposit_is_accepted_unconditionally() {
    let state = active_with_balance(0);
    let events = state
        .handle(BankAccountCommand::DepositAmount { amount: usd(1000) }, &services())
        .unwrap();
    assert_eq!(events.len(), 1);
    assert_eq!(events[0], BankAccountEvent::BalanceDeposited { amount: usd(1000) });
}

#[test]
fn atm_withdrawal_within_funds_is_accepted() {
    let state = active_with_balance(1000);
    let events = state
        .handle(
            BankAccountCommand::WithdrawCash {
                amount: usd(923),
                atm_id: AtmId::new("abc_123".to_string()),
            },
            &services(),
        )
        .unwrap();
    assert_eq!(events, vec![BankAccountEvent::CashWithdrawal { amount: usd(923) }]);

    let next = state.apply(events[0].clone()).unwrap();
    match next {
        BankAccountState::Active(acct) => assert_eq!(acct.balance, usd(77)),
        other => panic!("expected an active account, got {other:?}"),
    }
}

#[test]
fn check_disbursement_within_funds_is_accepted() {
    let state = active_with_balance(1000);
    let events = state
        .handle(
            BankAccountCommand::DisburseCheck {
                check_nr: CheckNumber::new(873487),
                amount: usd(923),
            },
            &services(),
        )
        .unwrap();
    assert_eq!(
        events,
        vec![BankAccountEvent::CheckWithdrawal {
            check_nr: CheckNumber::new(873487),
            amount: usd(923),
        }]
    );

    let next = state.apply(events[0].clone()).unwrap();
    match next {
        BankAccountState::Active(acct) => assert_eq!(acct.balance, usd(77)),
        other => panic!("expected an active account, got {other:?}"),
    }
}

#[test]
fn overdraw_is_rejected_with_insufficient_funds() {
    let state = active_with_balance(0);
    let result = state.handle(
        BankAccountCommand::WithdrawCash {
            amount: usd(500),
            atm_id: AtmId::new("abc_123".to_string()),
        },
        &services(),
    );
    match result {
        Err(BankAccountError::InsufficientFunds(account_id, amount)) => {
            assert_eq!(account_id, AccountId::new(7));
            assert_eq!(amount, usd(500));
        },
        other => panic!("expected insufficient funds, got {other:?}"),
    }
}

#[test]
fn overdraw_by_check_is_rejected_with_insufficient_funds() {
    let state = active_with_balance(100);
    let result = state.handle(
        BankAccountCommand::DisburseCheck { check_nr: CheckNumber::new(11), amount: usd(101) },
        &services(),
    );
    assert!(matches!(result, Err(BankAccountError::InsufficientFunds(_, _))));
}

#[test]
fn withdrawal_to_exactly_zero_is_allowed() {
    let state = active_with_balance(500);
    let events = state
        .handle(
            BankAccountCommand::WithdrawCash {
                amount: usd(500),
                atm_id: AtmId::new("abc_123".to_string()),
            },
            &services(),
        )
        .unwrap();
    assert_eq!(events.len(), 1);
}

#[test]
fn address_and_email_updates_are_unconditional() {
    let state = active_with_balance(0);
    let events = state
        .handle(
            BankAccountCommand::ChangeMailingAddress {
                new_address: MailingAddress::new("12 Seahawks Way, Renton, WA 98056".to_string()),
            },
            &services(),
        )
        .unwrap();
    assert_eq!(events.len(), 1);

    let next = state.apply(events[0].clone()).unwrap();
    match next {
        BankAccountState::Active(acct) => {
            assert_eq!(acct.mailing_address.as_str(), "12 Seahawks Way, Renton, WA 98056");
        },
        other => panic!("expected an active account, got {other:?}"),
    }

    let events = state
        .handle(
            BankAccountCommand::ChangeEmail {
                new_email: EmailAddress::new("stella@example.com".to_string()),
            },
            &services(),
        )
        .unwrap();
    assert_eq!(events.len(), 1);
}

#[test]
fn unrecognized_events_are_ignored_as_noop() {
    let quiescent = BankAccountState::Quiescent;
    assert!(quiescent.apply(BankAccountEvent::BalanceDeposited { amount: usd(100) }).is_none());

    let mut aggregate = BankAccount::default();
    aggregate.apply(BankAccountEvent::CashWithdrawal { amount: usd(100) });
    assert!(matches!(aggregate.state, BankAccountState::Quiescent));
}

fn assert_same_state(a: &BankAccountState, b: &BankAccountState) {
    match (a, b) {
        (BankAccountState::Quiescent, BankAccountState::Quiescent) => {},
        (BankAccountState::Active(x), BankAccountState::Active(y)) => {
            assert_eq!(x.account_id, y.account_id);
            assert_eq!(x.user_name, y.user_name);
            assert_eq!(x.balance, y.balance);
            assert_eq!(x.mailing_address, y.mailing_address);
            assert_eq!(x.email, y.email);
        },
        (BankAccountState::Closed(x), BankAccountState::Closed(y)) => {
            assert_eq!(x.account_id, y.account_id);
            assert_eq!(x.user_name, y.user_name);
        },
        (x, y) => panic!("states differ: {x:?} vs {y:?}"),
    }
}

#[test]
fn replaying_full_history_matches_incremental_application() {
    let services = services();
    let commands = vec![
        open_command(42, "otis"),
        BankAccountCommand::DepositAmount { amount: usd(1000) },
        BankAccountCommand::WithdrawCash {
            amount: usd(923),
            atm_id: AtmId::new("abc_123".to_string()),
        },
        BankAccountCommand::DepositAmount { amount: usd(50) },
        BankAccountCommand::DisburseCheck { check_nr: CheckNumber::new(9), amount: usd(100) },
    ];

    // incremental: decide each command against the current state and apply
    // its events as they are committed, collecting the full history
    let mut incremental = BankAccount::default();
    let mut history: Vec<BankAccountEvent> = Vec::new();
    for command in commands {
        let events = incremental.handle(command, &services).unwrap();
        for event in events {
            history.push(event.clone());
            incremental.apply(event);
        }
    }

    // replay: fold the whole history from the initial state in one pass
    let mut replayed = BankAccount::default();
    for event in history {
        replayed.apply(event);
    }

    assert_same_state(&replayed.state, &incremental.state);
    match replayed.state {
        BankAccountState::Active(acct) => assert_eq!(acct.balance, usd(27)),
        other => panic!("expected an active account, got {other:?}"),
    }
}

#[test]
fn open_account_twice_rejects_second_command() {
    let mut aggregate = BankAccount::default();
    let events = aggregate.handle(open_command(42, "otis"), &services()).unwrap();
    for event in events {
        aggregate.apply(event);
    }
    let second = aggregate.handle(open_command(42, "otis"), &services());
    assert!(matches!(second, Err(BankAccountError::RejectedCommand(_))));
}

#[test]
fn event_type_tags_and_version_are_stable() {
    let deposited = BankAccountEvent::BalanceDeposited { amount: usd(1) };
    assert_eq!(deposited.event_type(), "balance_deposited");
    assert_eq!(deposited.event_version(), "1.0");
    let cash = BankAccountEvent::CashWithdrawal { amount: usd(1) };
    assert_eq!(cash.event_type(), "cash_withdrawal");
    let check = BankAccountEvent::CheckWithdrawal {
        check_nr: CheckNumber::new(1),
        amount: usd(1),
    };
    assert_eq!(check.event_type(), "check_withdrawal");
    assert_eq!(BankAccount::aggregate_type(), "account");
}

#[test]
fn sequences_continue_across_batches_without_gaps() {
    let first = wrap_events(
        "42",
        0,
        vec![BankAccountEvent::BalanceDeposited { amount: usd(100) }],
        "{}",
    );
    let second = wrap_events(
        "42",
        1,
        vec![
            BankAccountEvent::BalanceDeposited { amount: usd(200) },
            BankAccountEvent::CashWithdrawal { amount: usd(50) },
        ],
        "{}",
    );
    let sequences: Vec<usize> = first
        .iter()
        .chain(second.iter())
        .map(|record| record.sequence)
        .collect();
    assert_eq!(sequences, vec![1, 2, 3]);
}

#[test]
fn money_checked_arithmetic_is_currency_aware() {
    assert_eq!(usd(100).checked_add(usd(25)), Some(usd(125)));
    assert_eq!(usd(100).checked_sub(usd(25)), Some(usd(75)));
    assert_eq!(usd(100).checked_add(Money::new(25, Currency::Eur)), None);
    assert_eq!(usd(100).checked_sub(Money::new(25, Currency::Eur)), None);
    assert_eq!(usd(i64::MAX).checked_add(usd(1)), None);
    assert_eq!(Money::default(), usd(0));
}

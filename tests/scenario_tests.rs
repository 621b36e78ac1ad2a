use rs_bpt::account::ClientAccount;
use rs_bpt::amount::Amount;
use rs_bpt::error::TransactionProcessingError;
use rs_bpt::transaction::ClientAccountTransaction;
use rs_bpt::TransactionType;

fn amount(text: &str) -> Amount {
    Amount::parse(text).unwrap()
}

fn record(transaction_type: TransactionType, transaction_id: u32, amount_text: Option<&str>) -> ClientAccountTransaction {
    ClientAccountTransaction { transaction_type, transaction_id, amount: amount_text.map(amount) }
}

fn assert_state(account: &ClientAccount, available: &str, held: &str, total: &str, locked: bool) {
    assert_eq!(account.balance().available(), amount(available));
    assert_eq!(account.balance().held(), amount(held));
    assert_eq!(account.balance().total(), amount(total));
    assert_eq!(account.locked(), locked);
}

#[test]
fn two_deposits_add_up() {
    let mut account = ClientAccount::new(1);
    account.process_transaction(record(TransactionType::Deposit, 1, Some("1.0"))).unwrap();
    account.process_transaction(record(TransactionType::Deposit, 2, Some("2.0"))).unwrap();
    assert_state(&account, "3.0", "0.0", "3.0", false);
}

fn disputed_deposit() -> ClientAccount {
    let mut account = ClientAccount::new(1);
    account.process_transaction(record(TransactionType::Deposit, 1, Some("100.0"))).unwrap();
    account.process_transaction(record(TransactionType::Dispute, 1, None)).unwrap();
    account
}

#[test]
fn dispute_moves_funds_to_held() {
    let account = disputed_deposit();
    assert_state(&account, "0.0", "100.0", "100.0", false);
}

#[test]
fn resolve_returns_held_funds() {
    let mut account = disputed_deposit();
    account.process_transaction(record(TransactionType::Resolve, 1, None)).unwrap();
    assert_state(&account, "100.0", "0.0", "100.0", false);
}

#[test]
fn chargeback_removes_held_funds_and_locks() {
    let mut account = disputed_deposit();
    account.process_transaction(record(TransactionType::Chargeback, 1, None)).unwrap();
    assert_state(&account, "0.0", "0.0", "0.0", true);
    // a locked account still takes records
    account.process_transaction(record(TransactionType::Deposit, 2, Some("5.0"))).unwrap();
    assert_state(&account, "5.0", "0.0", "5.0", true);
}

#[test]
fn dispute_of_unknown_id_is_rejected() {
    let mut account = ClientAccount::new(1);
    assert_eq!(
        account.process_transaction(record(TransactionType::Dispute, 999, None)),
        Err(TransactionProcessingError::ReferencedTransactionNotFound(999))
    );
    assert_state(&account, "0", "0", "0", false);
}

#[test]
fn second_dispute_is_rejected_and_changes_nothing() {
    let mut account = disputed_deposit();
    assert_eq!(
        account.process_transaction(record(TransactionType::Dispute, 1, None)),
        Err(TransactionProcessingError::TransactionAlreadyHasPendingDispute(1))
    );
    assert_state(&account, "0.0", "100.0", "100.0", false);
    assert!(account.disputable_transaction(1).unwrap().is_under_dispute);
}

#[test]
fn lock_stays_after_further_disputes() {
    let mut account = disputed_deposit();
    account.process_transaction(record(TransactionType::Chargeback, 1, None)).unwrap();
    account.process_transaction(record(TransactionType::Dispute, 1, None)).unwrap();
    account.process_transaction(record(TransactionType::Resolve, 1, None)).unwrap();
    assert_state(&account, "0", "0", "0", true);
}

#[test]
fn dispute_flag_only_moves_through_the_protocol() {
    let mut account = ClientAccount::new(1);
    account.process_transaction(record(TransactionType::Deposit, 1, Some("3"))).unwrap();
    account.process_transaction(record(TransactionType::Deposit, 2, Some("4"))).unwrap();
    account.process_transaction(record(TransactionType::Dispute, 2, None)).unwrap();
    assert!(!account.disputable_transaction(1).unwrap().is_under_dispute);
    assert!(account.disputable_transaction(2).unwrap().is_under_dispute);
    assert_eq!(
        account.process_transaction(record(TransactionType::Chargeback, 1, None)),
        Err(TransactionProcessingError::TransactionDoesNotHavePendingDispute(1))
    );
    assert_eq!(
        account.process_transaction(record(TransactionType::Deposit, 2, Some("9"))),
        Err(TransactionProcessingError::TransactionIdAlreadyExists(2))
    );
    assert!(account.disputable_transaction(2).unwrap().is_under_dispute);
    assert_state(&account, "3", "4", "7", false);
}

#[test]
fn disputing_a_withdrawal_raises_available_funds() {
    let mut account = ClientAccount::new(1);
    account.process_transaction(record(TransactionType::Withdrawal, 1, Some("10"))).unwrap();
    account.process_transaction(record(TransactionType::Dispute, 1, None)).unwrap();
    assert_state(&account, "0", "-10", "-10", false);
    assert_eq!(account.disputable_transaction(1).unwrap().amount, amount("-10"));
}

#[test]
fn withdrawal_may_overdraw() {
    let mut account = ClientAccount::new(1);
    account.process_transaction(record(TransactionType::Deposit, 1, Some("1.5"))).unwrap();
    account.process_transaction(record(TransactionType::Withdrawal, 2, Some("2.5"))).unwrap();
    assert_state(&account, "-1", "0", "-1", false);
}

#[test]
fn amounts_out_of_range_are_rejected() {
    let max = "79228162514264337.593543950335";
    let mut account = ClientAccount::new(1);
    account.process_transaction(record(TransactionType::Deposit, 1, Some(max))).unwrap();
    assert_eq!(
        account.process_transaction(record(TransactionType::Deposit, 2, Some("0.000000000001"))),
        Err(TransactionProcessingError::BalanceOutOfRange(2))
    );
    assert_eq!(account.transaction_count(), 1);
    assert_state(&account, max, "0", max, false);

    // held and available may each fit while their total does not
    let mut account = ClientAccount::new(2);
    account.process_transaction(record(TransactionType::Deposit, 1, Some(max))).unwrap();
    account.process_transaction(record(TransactionType::Dispute, 1, None)).unwrap();
    assert_eq!(
        account.process_transaction(record(TransactionType::Deposit, 2, Some("1"))),
        Err(TransactionProcessingError::BalanceOutOfRange(2))
    );
    assert_state(&account, "0", max, max, false);
}

#[test]
fn missing_amounts_are_rejected() {
    let mut account = ClientAccount::new(1);
    assert_eq!(
        account.process_transaction(record(TransactionType::Deposit, 1, None)),
        Err(TransactionProcessingError::AmountNotPresentForDeposit(1))
    );
    assert_eq!(
        account.process_transaction(record(TransactionType::Withdrawal, 2, None)),
        Err(TransactionProcessingError::AmountNotPresentForWithdrawal(2))
    );
    assert_eq!(account.transaction_count(), 0);
    // an amount on a dispute-related record is ignored
    account.process_transaction(record(TransactionType::Deposit, 3, Some("2"))).unwrap();
    account.process_transaction(record(TransactionType::Dispute, 3, Some("1000"))).unwrap();
    assert_state(&account, "0", "2", "2", false);
}

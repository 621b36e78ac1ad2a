use rs_bpt::account::DiscardDiagnostics;
use rs_bpt::amount::Amount;
use rs_bpt::directory::{create_serializable_output_from_accounts, process_transaction, AccountDirectory};
use rs_bpt::serializable_form::Transaction;
use rs_bpt::TransactionType;

fn amount(text: &str) -> Amount {
    Amount::parse(text).unwrap()
}

#[test]
fn test_process_transaction_creates_a_new_client_as_required() {
    let mut accounts = AccountDirectory::new();

    let transaction_1 = Transaction {
        client_id: 1,
        transaction_id: 1,
        transaction_type: TransactionType::Deposit,
        amount: Some(amount("100.0")),
    };
    process_transaction(&mut accounts, &transaction_1, &mut DiscardDiagnostics).unwrap();
    assert_eq!(accounts.len(), 1);
    assert_eq!(accounts.get(1).unwrap().balance().available(), amount("100.0"));

    let transaction_2 = Transaction {
        client_id: 2,
        transaction_id: 1,
        transaction_type: TransactionType::Deposit,
        amount: Some(amount("1000.0")),
    };
    process_transaction(&mut accounts, &transaction_2, &mut DiscardDiagnostics).unwrap();
    assert_eq!(accounts.len(), 2);
    assert_eq!(accounts.get(2).unwrap().balance().available(), amount("1000.0"));
}

#[test]
fn test_transactions_flow() {
    // init deposit to client 1
    // init deposit to client 2
    // a second deposit to client 1 - to dispute
    // dispute client 1 transaction 2
    // resolve client 1 transaction 2
    // a second deposit to client 2 - to dispute
    // dispute client 2 transaction 2
    // chargeback client 2 transaction 2

    let mut accounts = AccountDirectory::new();

    let record = |client_id, transaction_id, transaction_type, amount_text: Option<&str>| Transaction {
        client_id,
        transaction_id,
        transaction_type,
        amount: amount_text.map(amount),
    };

    let transactions = vec![
        record(1, 1, TransactionType::Deposit, Some("100.0")),
        record(2, 1, TransactionType::Deposit, Some("1000.0")),
        // Client 1 dispute-resolve flow
        record(1, 2, TransactionType::Deposit, Some("10.0")),
        record(1, 2, TransactionType::Dispute, None),
        record(1, 2, TransactionType::Resolve, None),
        // Client 2 dispute-chargeback flow
        record(2, 2, TransactionType::Deposit, Some("100.0")),
        record(2, 2, TransactionType::Dispute, None),
        record(2, 2, TransactionType::Chargeback, None),
    ];

    for transaction in transactions {
        process_transaction(&mut accounts, &transaction, &mut DiscardDiagnostics).unwrap();
    }

    assert_eq!(accounts.len(), 2);
    let client_1 = accounts.get(1).unwrap();
    assert_eq!(client_1.balance().available(), amount("110.0"));
    assert_eq!(client_1.balance().held(), amount("0.0"));
    assert_eq!(client_1.balance().total(), amount("110.0"));
    assert_eq!(client_1.locked(), false);

    let client_2 = accounts.get(2).unwrap();
    assert_eq!(client_2.balance().available(), amount("1000.0"));
    assert_eq!(client_2.balance().held(), amount("0.0"));
    assert_eq!(client_2.balance().total(), amount("1000.0"));
    assert_eq!(client_2.locked(), true);

    let output = create_serializable_output_from_accounts(&accounts);

    assert_eq!(output.len(), 2);
    let client_1_output = output.iter().find(|output| output.client == 1).unwrap();
    let client_2_output = output.iter().find(|output| output.client == 2).unwrap();

    assert_eq!(client_1_output.available, "110.0000");
    assert_eq!(client_1_output.held, "0.0000");
    assert_eq!(client_1_output.total, "110.0000");
    assert_eq!(client_1_output.locked, false);

    assert_eq!(client_2_output.available, "1000.0000");
    assert_eq!(client_2_output.held, "0.0000");
    assert_eq!(client_2_output.total, "1000.0000");
    assert_eq!(client_2_output.locked, true);
}

#[test]
fn output_rows_follow_first_appearance_of_clients() {
    let mut accounts = AccountDirectory::new();
    for (client_id, transaction_id) in [(7, 1), (3, 2), (7, 3), (5, 4)] {
        let transaction = Transaction {
            client_id,
            transaction_id,
            transaction_type: TransactionType::Deposit,
            amount: Some(amount("1.5")),
        };
        process_transaction(&mut accounts, &transaction, &mut DiscardDiagnostics).unwrap();
    }
    assert_eq!(accounts.clients_in_order(), &vec![7, 3, 5]);
    let output = create_serializable_output_from_accounts(&accounts);
    let clients: Vec<u16> = output.iter().map(|row| row.client).collect();
    assert_eq!(clients, vec![7, 3, 5]);
    assert_eq!(output[0].available, "3.0000");
    assert_eq!(output[1].total, "1.5000");
}

#[test]
fn records_of_one_client_leave_other_accounts_alone() {
    let mut accounts = AccountDirectory::new();
    let deposit = Transaction {
        client_id: 1,
        transaction_id: 1,
        transaction_type: TransactionType::Deposit,
        amount: Some(amount("5")),
    };
    process_transaction(&mut accounts, &deposit, &mut DiscardDiagnostics).unwrap();
    // the same transaction id on another client is that client's own
    let dispute_elsewhere = Transaction {
        client_id: 2,
        transaction_id: 1,
        transaction_type: TransactionType::Dispute,
        amount: None,
    };
    process_transaction(&mut accounts, &dispute_elsewhere, &mut DiscardDiagnostics).unwrap();
    assert_eq!(accounts.len(), 2);
    assert_eq!(accounts.get(1).unwrap().balance().held(), Amount::zero());
    assert_eq!(accounts.get(1).unwrap().balance().available(), amount("5"));
    assert_eq!(accounts.get(2).unwrap().balance().total(), Amount::zero());
}

use rust_decimal::Decimal;
use std::collections::HashMap;
use transaction_parser::account::Account;
use transaction_parser::decimal::Amount;
use transaction_parser::engine::process_transactions;
use transaction_parser::transaction::{
    get_boxed_transaction, InvalidOperationKind, Transaction, TransactionType,
};

fn dec(a: Amount) -> Decimal {
    Decimal::from_i128_with_scale(a.mantissa, a.scale)
}

fn amount(d: Decimal) -> Amount {
    Amount::new(d.mantissa(), d.scale())
}

/// Reads the first data row of a table with header `type,client,tx,amount`.
fn read_transaction(line: &str) -> Transaction {
    let mut reader = csv::ReaderBuilder::new()
        .trim(csv::Trim::All)
        .from_reader(line.as_bytes());
    let row = reader.records().next().unwrap().unwrap();
    let client: u16 = row.get(1).unwrap().parse().unwrap();
    let tx: u32 = row.get(2).unwrap().parse().unwrap();
    let amount = match row.get(3) {
        Some(s) if !s.is_empty() => Some(amount(s.parse::<Decimal>().unwrap())),
        _ => None,
    };
    Transaction::from_fields(row.get(0).unwrap(), client, tx, amount).unwrap()
}

fn assert_same_record(expected: &Transaction, record: &Transaction) {
    assert_eq!(expected.transaction_type, record.transaction_type);
    assert_eq!(expected.client, record.client);
    assert_eq!(expected.tx, record.tx);
    assert_eq!(expected.amount.map(dec), record.amount.map(dec));
}

fn fresh(client: u16, available: i64, held: i64) -> Account {
    Account {
        client,
        available: amount(Decimal::new(available, 0)),
        held: amount(Decimal::new(held, 0)),
        locked: false,
    }
}

fn deposit_of_one() -> Transaction {
    Transaction {
        transaction_type: TransactionType::Deposit,
        client: 1,
        tx: 1,
        amount: Some(amount(Decimal::new(1, 0))),
    }
}

#[test]
fn parse_deposit() {
    let result = deposit_of_one();
    let line = "type,client,tx,amount
deposit,1,1,1.0";
    let record: Transaction = read_transaction(line);
    assert_same_record(&result, &record);
}

#[test]
fn parse_withdrawal() {
    let result = Transaction {
        transaction_type: TransactionType::Withdrawal,
        client: 1,
        tx: 1,
        amount: Some(amount(Decimal::new(1, 0))),
    };
    let line = "type,client,tx,amount
withdrawal,1,1,1.0";
    let record: Transaction = read_transaction(line);
    assert_same_record(&result, &record);
}

#[test]
fn parse_chargeback() {
    let result = Transaction {
        transaction_type: TransactionType::Chargeback(None),
        client: 1,
        tx: 1,
        amount: Some(amount(Decimal::new(1, 0))),
    };
    let line = "type,client,tx,amount
chargeback,1,1,1.0";
    let record: Transaction = read_transaction(line);
    assert_same_record(&result, &record);
}

#[test]
fn parse_dispute() {
    let result = Transaction {
        transaction_type: TransactionType::Dispute(None),
        client: 1,
        tx: 1,
        amount: Some(amount(Decimal::new(1, 0))),
    };
    let line = "type,client,tx,amount
dispute,1,1,1.0";
    let record: Transaction = read_transaction(line);
    assert_same_record(&result, &record);
}

#[test]
fn parse_resolve() {
    let result = Transaction {
        transaction_type: TransactionType::Resolve(None),
        client: 1,
        tx: 1,
        amount: Some(amount(Decimal::new(1, 0))),
    };
    let line = "type,client,tx,amount
resolve,1,1,1.0";
    let record: Transaction = read_transaction(line);
    assert_same_record(&result, &record);
}

#[test]
fn parse_transaction_with_no_amount() {
    let result = Transaction {
        transaction_type: TransactionType::Deposit,
        client: 1,
        tx: 1,
        amount: None,
    };
    let line = "type,client,tx,amount
deposit,1,1,";
    let record: Transaction = read_transaction(line);
    assert_same_record(&result, &record);
}

#[test]
fn parse_keeps_explicit_zero_amount() {
    let record = read_transaction("type,client,tx,amount\ndeposit, 1, 1, 0");
    assert_eq!(record.amount, Some(Amount::new(0, 0)));
    assert_eq!(record.client, 1);
}

#[test]
fn parse_rejects_unknown_tag() {
    assert_eq!(TransactionType::parse("transfer"), Err(InvalidOperationKind));
    assert_eq!(TransactionType::parse("Deposit"), Err(InvalidOperationKind));
    assert_eq!(
        Transaction::from_fields("deposit ", 1, 1, None),
        Err(InvalidOperationKind)
    );
    assert_eq!(TransactionType::parse("chargeback"), Ok(TransactionType::Chargeback(None)));
    assert_eq!("withdrawal".parse::<TransactionType>(), Ok(TransactionType::Withdrawal));
    assert_eq!("".parse::<TransactionType>(), Err(InvalidOperationKind));
}

#[test]
fn deposits() {
    let mut account = fresh(1, 0, 0);
    let transaction = deposit_of_one();
    account.update_transaction(&transaction);
    assert_eq!(dec(account.available), Decimal::new(1, 0));
    account.update_transaction(&transaction); // Add 1 again
    assert_eq!(dec(account.available), Decimal::new(2, 0));
}

#[test]
fn withdrawal() {
    let mut account = fresh(1, 1, 0);
    let transaction = Transaction {
        transaction_type: TransactionType::Withdrawal,
        client: 1,
        tx: 1,
        amount: Some(amount(Decimal::new(1, 0))),
    };
    account.update_transaction(&transaction);
    assert_eq!(dec(account.available), Decimal::ZERO);
}

#[test]
fn dispute() {
    let mut account = fresh(1, 1, 0);
    let transaction_dispute = Transaction {
        transaction_type: TransactionType::Dispute(Some(Box::new(deposit_of_one()))),
        client: 1,
        tx: 2,
        amount: None,
    };
    account.update_transaction(&transaction_dispute);
    assert_eq!(dec(account.available), Decimal::ZERO);
    assert_eq!(dec(account.held), Decimal::new(1, 0));
}

#[test]
fn resolve() {
    let mut account = fresh(1, 1, 1);
    let transaction_resolve = Transaction {
        transaction_type: TransactionType::Resolve(Some(Box::new(deposit_of_one()))),
        client: 1,
        tx: 2,
        amount: None,
    };
    account.update_transaction(&transaction_resolve);
    assert_eq!(dec(account.available), Decimal::new(2, 0));
    assert_eq!(dec(account.held), Decimal::ZERO);
}

#[test]
fn chargeback() {
    let mut account = fresh(1, 1, 1);
    let transaction_chargeback = Transaction {
        transaction_type: TransactionType::Chargeback(Some(Box::new(deposit_of_one()))),
        client: 1,
        tx: 2,
        amount: None,
    };
    account.update_transaction(&transaction_chargeback);
    assert_eq!(dec(account.available), Decimal::ZERO);
    assert_eq!(dec(account.held), Decimal::ZERO);
    assert_eq!(account.locked, true);
}

#[test]
fn link_transaction() {
    let transaction_deposit = deposit_of_one();
    let mut transaction_dispute = Transaction {
        transaction_type: TransactionType::Dispute(None),
        client: 1,
        tx: 1,
        amount: None,
    };
    let transaction_dispute_result = Transaction {
        transaction_type: TransactionType::Dispute(Some(Box::new(transaction_deposit.clone()))),
        client: 1,
        tx: 1,
        amount: None,
    };
    let transaction_map: HashMap<u32, Transaction> =
        HashMap::from([(1u32, transaction_deposit.clone())]);
    let boxed = get_boxed_transaction(1u32, &transaction_map);
    assert_eq!(boxed, Some(Box::new(transaction_deposit)));
    transaction_dispute.link_transaction(&transaction_map);
    assert_eq!(transaction_dispute, transaction_dispute_result);
}

#[test]
fn link_without_referent_attaches_nothing() {
    let transaction_map: HashMap<u32, Transaction> = HashMap::from([(1u32, deposit_of_one())]);
    let mut resolve = Transaction {
        transaction_type: TransactionType::Resolve(None),
        client: 1,
        tx: 7,
        amount: None,
    };
    resolve.link_transaction(&transaction_map);
    assert_eq!(resolve.transaction_type, TransactionType::Resolve(None));
    let mut deposit = deposit_of_one();
    deposit.link_transaction(&transaction_map);
    assert_eq!(deposit, deposit_of_one());
}

#[test]
fn missing_amount_counts_as_zero() {
    let mut account = fresh(1, 3, 0);
    let withdrawal = Transaction {
        transaction_type: TransactionType::Withdrawal,
        client: 1,
        tx: 9,
        amount: None,
    };
    assert_eq!(withdrawal.amount(), Amount::new(0, 0));
    account.update_transaction(&withdrawal);
    assert_eq!(dec(account.available), Decimal::new(3, 0));
}

#[test]
fn end_to_end_from_table_rows() {
    let table = "type,client,tx,amount
deposit,1,1,1.0
deposit,2,2,2.0
dispute,1,1,
withdrawal,2,2,1.0";
    let mut reader = csv::ReaderBuilder::new()
        .trim(csv::Trim::All)
        .from_reader(table.as_bytes());
    let mut records = Vec::new();
    for row in reader.records() {
        let row = row.unwrap();
        let amount = match row.get(3).unwrap() {
            "" => None,
            s => Some(amount(s.parse::<Decimal>().unwrap())),
        };
        let client: u16 = row.get(1).unwrap().parse().unwrap();
        let tx: u32 = row.get(2).unwrap().parse().unwrap();
        records.push(Transaction::from_fields(row.get(0).unwrap(), client, tx, amount).unwrap());
    }
    let accounts = process_transactions(&records);
    let one = accounts.get(&1).unwrap();
    assert_eq!(dec(one.available), Decimal::ZERO);
    assert_eq!(dec(one.held), Decimal::new(10, 1));
    assert_eq!(dec(one.total().unwrap()), Decimal::new(10, 1));
    assert!(!one.locked);
    let two = accounts.get(&2).unwrap();
    assert_eq!(dec(two.available), Decimal::new(10, 1));
    assert_eq!(dec(two.held), Decimal::ZERO);
    assert_eq!(dec(two.total().unwrap()), Decimal::new(10, 1));
    assert!(!two.locked);
}

#[test]
fn linked_copy_is_independent_of_the_index() {
    let mut index: HashMap<u32, Transaction> = HashMap::from([(1u32, deposit_of_one())]);
    let mut dispute = Transaction {
        transaction_type: TransactionType::Dispute(None),
        client: 1,
        tx: 1,
        amount: None,
    };
    dispute.link_transaction(&index);
    index.get_mut(&1).unwrap().amount = Some(amount(Decimal::new(9, 0)));
    assert_eq!(
        dispute.transaction_type,
        TransactionType::Dispute(Some(Box::new(deposit_of_one())))
    );
}

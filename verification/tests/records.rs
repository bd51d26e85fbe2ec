use payment_engine::types::{Amount, CsvTransaction, RecordErr, TransactionType, PRECISION};

fn record(ty: &str, client: u16, tx: u32, amount: Option<&str>) -> CsvTransaction {
    CsvTransaction::new(ty.to_string(), client, tx, amount.map(|a| a.to_string()))
}

#[test]
fn precision_is_four_digits() {
    assert_eq!(PRECISION, 4);
}

#[test]
fn parse_counts_ten_thousandths() {
    assert_eq!(Amount::parse("1.0").unwrap().units(), 10000);
    assert_eq!(Amount::parse("1.5").unwrap().units(), 15000);
    assert_eq!(Amount::parse("2").unwrap().units(), 20000);
    assert_eq!(Amount::parse("0.25").unwrap().units(), 2500);
    assert_eq!(Amount::parse("0.125").unwrap().units(), 1250);
    assert_eq!(Amount::parse("0.0001").unwrap().units(), 1);
    assert_eq!(Amount::parse("-0.0001").unwrap().units(), -1);
    assert_eq!(Amount::parse("0").unwrap().units(), 0);
    assert_eq!(Amount::parse("12345.6789").unwrap().units(), 123456789);
}

#[test]
fn parse_takes_the_largest_decimal() {
    let a = Amount::parse("79228162514264337593543950335").unwrap();
    assert_eq!(a.units(), 79228162514264337593543950335i128 * 10000);
}

#[test]
fn parse_refuses_a_fifth_digit() {
    assert_eq!(Amount::parse("1.00001"), Err(RecordErr::InvalidPrecision));
    assert_eq!(Amount::parse("0.00000"), Err(RecordErr::InvalidPrecision));
}

#[test]
fn parse_refuses_what_is_no_number() {
    assert_eq!(Amount::parse(""), Err(RecordErr::MalformedRecord));
    assert_eq!(Amount::parse("abc"), Err(RecordErr::MalformedRecord));
    assert_eq!(Amount::parse("1.2.3"), Err(RecordErr::MalformedRecord));
}

#[test]
fn from_parts_scales_the_mantissa() {
    assert_eq!(Amount::from_parts(15, 1).unwrap().units(), 15000);
    assert_eq!(Amount::from_parts(15, 0).unwrap().units(), 150000);
    assert_eq!(Amount::from_parts(-15, 2).unwrap().units(), -1500);
    assert_eq!(Amount::from_parts(15, 3).unwrap().units(), 150);
    assert_eq!(Amount::from_parts(15, 4).unwrap().units(), 15);
    assert_eq!(Amount::from_parts(15, 5), Err(RecordErr::InvalidPrecision));
}

#[test]
fn render_prints_four_digits() {
    assert_eq!(Amount::from_units(10000).render().unwrap(), "1.0000");
    assert_eq!(Amount::from_units(15000).render().unwrap(), "1.5000");
    assert_eq!(Amount::from_units(1).render().unwrap(), "0.0001");
    assert_eq!(Amount::from_units(-25000).render().unwrap(), "-2.5000");
    assert_eq!(Amount::zero().render().unwrap(), "0.0000");
}

#[test]
fn render_stops_at_ninety_six_bits() {
    let max: i128 = 79228162514264337593543950335;
    assert_eq!(Amount::from_units(max).render().unwrap(), "7922816251426433759354395.0335");
    assert_eq!(Amount::from_units(-max).render().unwrap(), "-7922816251426433759354395.0335");
    assert!(Amount::from_units(max + 1).render().is_none());
    assert!(Amount::from_units(-max - 1).render().is_none());
}

#[test]
fn messages_name_the_error() {
    assert_eq!(RecordErr::MalformedRecord.message(), "invalid decimal");
    assert_eq!(RecordErr::InvalidPrecision.message(), "Invalid precision");
    assert_eq!(RecordErr::MissingAmount.message(), "No amount provided");
    assert_eq!(RecordErr::UnknownOperationType.message(), "Unknown transaction type");
}

#[test]
fn records_become_operations() {
    assert_eq!(
        TransactionType::try_from(record("deposit", 1, 2, Some("1.5"))),
        Ok(TransactionType::Deposit { client: 1, tx: 2, amount: Amount::from_units(15000) })
    );
    assert_eq!(
        TransactionType::try_from(record("withdrawal", 3, 4, Some("0.0002"))),
        Ok(TransactionType::Withdrawal { client: 3, tx: 4, amount: Amount::from_units(2) })
    );
    assert_eq!(
        TransactionType::try_from(record("dispute", 5, 6, None)),
        Ok(TransactionType::Dispute { client: 5, tx: 6 })
    );
    assert_eq!(
        TransactionType::try_from(record("resolve", 7, 8, None)),
        Ok(TransactionType::Resolve { client: 7, tx: 8 })
    );
    assert_eq!(
        TransactionType::try_from(record("chargeback", 9, 10, None)),
        Ok(TransactionType::Chargeback { client: 9, tx: 10 })
    );
}

#[test]
fn dispute_family_refuses_an_amount() {
    assert_eq!(
        TransactionType::try_from(record("dispute", 1, 1, Some("1.0"))),
        Err(RecordErr::MalformedRecord)
    );
    assert_eq!(
        TransactionType::try_from(record("resolve", 5, 6, Some("0"))),
        Err(RecordErr::MalformedRecord)
    );
    assert_eq!(
        TransactionType::try_from(record("chargeback", 5, 6, Some("not a number"))),
        Err(RecordErr::MalformedRecord)
    );
    assert_eq!(
        TransactionType::try_from(record("dispute", 5, 6, Some(""))),
        Err(RecordErr::MalformedRecord)
    );
}

#[test]
fn unknown_tag_is_told_before_the_amount() {
    assert_eq!(
        TransactionType::try_from(record("refund", 1, 1, None)),
        Err(RecordErr::UnknownOperationType)
    );
    assert_eq!(
        TransactionType::try_from(record("", 1, 1, Some("x"))),
        Err(RecordErr::UnknownOperationType)
    );
}

#[test]
fn bad_records_are_refused() {
    assert_eq!(
        TransactionType::try_from(record("transfer", 1, 1, Some("1.0"))),
        Err(RecordErr::UnknownOperationType)
    );
    assert_eq!(
        TransactionType::try_from(record("Deposit", 1, 1, Some("1.0"))),
        Err(RecordErr::UnknownOperationType)
    );
    assert_eq!(
        TransactionType::try_from(record("deposit", 1, 1, None)),
        Err(RecordErr::MissingAmount)
    );
    assert_eq!(
        TransactionType::try_from(record("withdrawal", 1, 1, None)),
        Err(RecordErr::MissingAmount)
    );
    assert_eq!(
        TransactionType::try_from(record("deposit", 1, 1, Some("x"))),
        Err(RecordErr::MalformedRecord)
    );
    assert_eq!(
        TransactionType::try_from(record("withdrawal", 1, 1, Some("1.23456"))),
        Err(RecordErr::InvalidPrecision)
    );
}

#[test]
fn operations_know_their_ids() {
    let all = [
        TransactionType::Deposit { client: 1, tx: 10, amount: Amount::zero() },
        TransactionType::Withdrawal { client: 2, tx: 20, amount: Amount::zero() },
        TransactionType::Dispute { client: 3, tx: 30 },
        TransactionType::Resolve { client: 4, tx: 40 },
        TransactionType::Chargeback { client: 5, tx: 50 },
    ];
    for (i, tx) in all.iter().enumerate() {
        assert_eq!(tx.client_id(), i as u16 + 1);
        assert_eq!(tx.transaction_id(), (i as u32 + 1) * 10);
    }
}

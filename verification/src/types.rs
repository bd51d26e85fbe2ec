//! Amounts, operations, and the raw records operations are read from.

use vstd::prelude::*;
use crate::decimal::{decimal_from_str, decimal_parts, decimal_text, decimal_to_string,
    DECIMAL_MANTISSA_MAX};

verus! {

/// Digits after the decimal point that amounts and balances carry.
pub const PRECISION: u32 = 4;

/// An exact amount of money with four digits after the decimal point, held
/// as a count of ten-thousandths: `units == 15000` is 1.5.
#[derive(Clone, Copy, Debug, PartialEq, Eq, Structural)]
pub struct Amount {
    pub units: i128,
}

/// Why a raw record is no operation.
#[derive(Clone, Copy, Debug, PartialEq, Eq, Structural)]
pub enum RecordErr {
    /// The amount is not a decimal number, or stands on an operation that
    /// takes none.
    MalformedRecord,
    /// The type tag names none of the five operations.
    UnknownOperationType,
    /// A deposit or withdrawal without an amount.
    MissingAmount,
    /// The amount has more than [`PRECISION`] digits after the point.
    InvalidPrecision,
}

/// One record of the input, as read: a type tag, the client, the transaction
/// id and, where given, the amount as text.
#[derive(Debug)]
pub struct CsvTransaction {
    pub ty: String,
    pub client: u16,
    pub tx: u32,
    pub amount: Option<String>,
}

/// One operation on an account.
#[derive(Clone, Copy, Debug, PartialEq, Eq, Structural)]
pub enum TransactionType {
    /// Credits `amount` to the client.
    Deposit { client: u16, tx: u32, amount: Amount },
    /// Debits `amount` from the client.
    Withdrawal { client: u16, tx: u32, amount: Amount },
    /// Opens a dispute on the earlier transaction `tx`.
    Dispute { client: u16, tx: u32 },
    /// Closes the dispute on `tx` in the client's favour.
    Resolve { client: u16, tx: u32 },
    /// Closes the dispute on `tx` by reversing it.
    Chargeback { client: u16, tx: u32 },
}

/// How many ten-thousandths one unit of the last digit at `scale` is worth.
pub open spec fn unit_factor(scale: nat) -> int
    recommends
        scale <= PRECISION,
{
    if scale == 0 {
        10000
    } else if scale == 1 {
        1000
    } else if scale == 2 {
        100
    } else if scale == 3 {
        10
    } else {
        1
    }
}

/// The amount that a decimal number with the given mantissa and scale denotes,
/// or the reason it denotes none.
pub open spec fn amount_of_parts(mantissa: int, scale: nat) -> Result<Amount, RecordErr> {
    if scale > PRECISION {
        Err(RecordErr::InvalidPrecision)
    } else {
        Ok(Amount { units: (mantissa * unit_factor(scale)) as i128 })
    }
}

/// The amount that a text denotes, or the reason it denotes none.
pub open spec fn amount_of_text(text: Seq<char>) -> Result<Amount, RecordErr> {
    match decimal_parts(text) {
        None => Err(RecordErr::MalformedRecord),
        Some((mantissa, scale)) => amount_of_parts(mantissa, scale),
    }
}

/// Whether `amount` is exactly the number that `text` spells: the text is a
/// decimal number with at most [`PRECISION`] digits after the point, and the
/// amount counts its ten-thousandths.
pub open spec fn spells_amount(text: Seq<char>, amount: Amount) -> bool {
    decimal_parts(text) matches Some((mantissa, scale)) && scale <= PRECISION && amount@
        == mantissa * unit_factor(scale)
}

/// The operation that a record denotes, or the reason it denotes none. The
/// tag is looked at first, then the presence of the amount, then its text.
/// A deposit or withdrawal must carry an amount; a dispute, resolve or
/// chargeback must carry none, and is malformed where it does.
pub open spec fn operation_of_record(
    ty: Seq<char>,
    client: u16,
    tx: u32,
    amount: Option<Seq<char>>,
) -> Result<TransactionType, RecordErr> {
    if ty == "deposit"@ || ty == "withdrawal"@ {
        match amount {
            None => Err(RecordErr::MissingAmount),
            Some(text) => match amount_of_text(text) {
                Err(e) => Err(e),
                Ok(amount) => if ty == "deposit"@ {
                    Ok(TransactionType::Deposit { client, tx, amount })
                } else {
                    Ok(TransactionType::Withdrawal { client, tx, amount })
                },
            },
        }
    } else if ty == "dispute"@ || ty == "resolve"@ || ty == "chargeback"@ {
        if amount is Some {
            Err(RecordErr::MalformedRecord)
        } else if ty == "dispute"@ {
            Ok(TransactionType::Dispute { client, tx })
        } else if ty == "resolve"@ {
            Ok(TransactionType::Resolve { client, tx })
        } else {
            Ok(TransactionType::Chargeback { client, tx })
        }
    } else {
        Err(RecordErr::UnknownOperationType)
    }
}

impl View for Amount {
    type V = int;

    /// The amount as a count of ten-thousandths.
    open spec fn view(&self) -> int {
        self.units as int
    }
}

impl Amount {
    /// The amount of nothing.
    pub fn zero() -> (r: Amount)
        ensures
            r@ == 0,
    {
        Amount { units: 0 }
    }

    /// The amount of `units` ten-thousandths.
    pub fn from_units(units: i128) -> (r: Amount)
        ensures
            r@ == units,
    {
        Amount { units }
    }

    /// The amount as a count of ten-thousandths.
    pub fn units(&self) -> (r: i128)
        ensures
            r == self@,
    {
        self.units
    }

    /// Builds the amount `mantissa / 10^scale`, which must have at most
    /// [`PRECISION`] digits after the point. The count of ten-thousandths
    /// must fit the integer that holds it.
    pub fn from_parts(mantissa: i128, scale: u32) -> (r: Result<Amount, RecordErr>)
        requires
            scale <= PRECISION ==> i128::MIN <= mantissa * unit_factor(scale as nat) <= i128::MAX,
        ensures
            r == amount_of_parts(mantissa as int, scale as nat),
            r matches Ok(a) ==> a@ == mantissa * unit_factor(scale as nat),
            r is Ok <==> scale <= PRECISION,
    {
        if scale > PRECISION {
            return Err(RecordErr::InvalidPrecision);
        }
        let factor: i128 = if scale == 0 {
            10000
        } else if scale == 1 {
            1000
        } else if scale == 2 {
            100
        } else if scale == 3 {
            10
        } else {
            1
        };
        Ok(Amount { units: mantissa * factor })
    }

    /// Reads an amount from decimal text such as `"1.5"` or `"-0.0001"`: the
    /// text must be a decimal number with at most [`PRECISION`] digits after
    /// the point.
    pub fn parse(text: &str) -> (r: Result<Amount, RecordErr>)
        ensures
            r == amount_of_text(text@),
            r matches Ok(a) ==> spells_amount(text@, a),
            r matches Err(e) ==> e == (if decimal_parts(text@) is None {
                RecordErr::MalformedRecord
            } else {
                RecordErr::InvalidPrecision
            }),
    {
        match decimal_from_str(text) {
            None => Err(RecordErr::MalformedRecord),
            Some((mantissa, scale)) => {
                assert(scale <= PRECISION ==> -DECIMAL_MANTISSA_MAX * 10000 <= mantissa
                    * unit_factor(scale as nat) <= DECIMAL_MANTISSA_MAX * 10000)
                    by (nonlinear_arith)
                    requires
                        -DECIMAL_MANTISSA_MAX <= mantissa <= DECIMAL_MANTISSA_MAX,
                        1 <= unit_factor(scale as nat) <= 10000,
                ;
                Amount::from_parts(mantissa, scale)
            },
        }
    }

    /// Writes the amount as decimal text with [`PRECISION`] digits after the
    /// point, where its magnitude is below 2^96 ten-thousandths.
    pub fn render(&self) -> (r: Option<String>)
        ensures
            r is Some <==> -DECIMAL_MANTISSA_MAX <= self@ <= DECIMAL_MANTISSA_MAX,
            r matches Some(s) ==> s@ == decimal_text(self@, PRECISION as nat),
    {
        decimal_to_string(self.units, PRECISION)
    }
}

impl RecordErr {
    /// A short description of the error.
    pub fn message(&self) -> (r: &'static str)
        ensures
            r@ == match *self {
                RecordErr::MalformedRecord => "invalid decimal"@,
                RecordErr::UnknownOperationType => "Unknown transaction type"@,
                RecordErr::MissingAmount => "No amount provided"@,
                RecordErr::InvalidPrecision => "Invalid precision"@,
            },
    {
        match self {
            RecordErr::MalformedRecord => "invalid decimal",
            RecordErr::UnknownOperationType => "Unknown transaction type",
            RecordErr::MissingAmount => "No amount provided",
            RecordErr::InvalidPrecision => "Invalid precision",
        }
    }
}

/// Whether the owned text spells exactly `word`.
fn spells(text: &String, word: &str) -> (r: bool)
    ensures
        r == (text@ == word@),
{
    let owned = word.to_owned();
    *text == owned
}

impl CsvTransaction {
    /// A record with the given fields.
    pub fn new(ty: String, client: u16, tx: u32, amount: Option<String>) -> (r: CsvTransaction)
        ensures
            r.ty == ty,
            r.client == client,
            r.tx == tx,
            r.amount == amount,
    {
        CsvTransaction { ty, client, tx, amount }
    }

    /// The amount's text, where the record has one.
    pub open spec fn amount_text(&self) -> Option<Seq<char>> {
        match self.amount {
            Some(s) => Some(s@),
            None => None,
        }
    }
}

impl TransactionType {
    /// The client whose account the operation is for.
    pub open spec fn spec_client_id(&self) -> u16 {
        match *self {
            TransactionType::Deposit { client, .. } => client,
            TransactionType::Withdrawal { client, .. } => client,
            TransactionType::Dispute { client, .. } => client,
            TransactionType::Resolve { client, .. } => client,
            TransactionType::Chargeback { client, .. } => client,
        }
    }

    /// The transaction id the operation carries.
    pub open spec fn spec_transaction_id(&self) -> u32 {
        match *self {
            TransactionType::Deposit { tx, .. } => tx,
            TransactionType::Withdrawal { tx, .. } => tx,
            TransactionType::Dispute { tx, .. } => tx,
            TransactionType::Resolve { tx, .. } => tx,
            TransactionType::Chargeback { tx, .. } => tx,
        }
    }

    /// Whether the operation moves money by itself and is kept for later
    /// reference: a deposit or a withdrawal.
    pub open spec fn is_recorded(&self) -> bool {
        *self is Deposit || *self is Withdrawal
    }

    /// Returns the client ID associated with the transaction.
    #[verifier::when_used_as_spec(spec_client_id)]
    pub fn client_id(&self) -> (r: u16)
        ensures
            r == self.spec_client_id(),
    {
        match self {
            TransactionType::Deposit { client, .. } => *client,
            TransactionType::Withdrawal { client, .. } => *client,
            TransactionType::Dispute { client, .. } => *client,
            TransactionType::Resolve { client, .. } => *client,
            TransactionType::Chargeback { client, .. } => *client,
        }
    }

    /// Returns the transaction ID associated with the transaction.
    #[verifier::when_used_as_spec(spec_transaction_id)]
    pub fn transaction_id(&self) -> (r: u32)
        ensures
            r == self.spec_transaction_id(),
    {
        match self {
            TransactionType::Deposit { tx, .. } => *tx,
            TransactionType::Withdrawal { tx, .. } => *tx,
            TransactionType::Dispute { tx, .. } => *tx,
            TransactionType::Resolve { tx, .. } => *tx,
            TransactionType::Chargeback { tx, .. } => *tx,
        }
    }

    /// Turns a raw record into the operation it denotes. An accepted deposit
    /// or withdrawal carries exactly the amount that the record spells; a
    /// dispute, resolve or chargeback is accepted only without an amount.
    pub fn try_from(value: CsvTransaction) -> (r: Result<TransactionType, RecordErr>)
        ensures
            r == operation_of_record(value.ty@, value.client, value.tx, value.amount_text()),
            r matches Ok(TransactionType::Deposit { amount, .. }) ==> value.amount_text() matches Some(
                text,
            ) && spells_amount(text, amount),
            r matches Ok(TransactionType::Withdrawal { amount, .. }) ==> value.amount_text() matches Some(
                text,
            ) && spells_amount(text, amount),
            r matches Ok(op) ==> op.client_id() == value.client && op.transaction_id() == value.tx
                && (op.is_recorded() <==> value.amount is Some),
    {
        let deposit = spells(&value.ty, "deposit");
        if deposit || spells(&value.ty, "withdrawal") {
            let amount = match value.amount {
                None => {
                    return Err(RecordErr::MissingAmount);
                },
                Some(text) => match Amount::parse(text.as_str()) {
                    Err(e) => {
                        return Err(e);
                    },
                    Ok(amount) => amount,
                },
            };
            if deposit {
                Ok(TransactionType::Deposit { client: value.client, tx: value.tx, amount })
            } else {
                Ok(TransactionType::Withdrawal { client: value.client, tx: value.tx, amount })
            }
        } else {
            let dispute = spells(&value.ty, "dispute");
            let resolve = spells(&value.ty, "resolve");
            if dispute || resolve || spells(&value.ty, "chargeback") {
                if value.amount.is_some() {
                    Err(RecordErr::MalformedRecord)
                } else if dispute {
                    Ok(TransactionType::Dispute { client: value.client, tx: value.tx })
                } else if resolve {
                    Ok(TransactionType::Resolve { client: value.client, tx: value.tx })
                } else {
                    Ok(TransactionType::Chargeback { client: value.client, tx: value.tx })
                }
            } else {
                Err(RecordErr::UnknownOperationType)
            }
        }
    }
}

} // verus!

//! Turning the rows of the input into transaction records.
use vstd::prelude::*;

use crate::amount::{Amount, AmountError, NonNegativeDecimal};
use crate::client::ClientId;
use crate::transaction::{
    Chargeback, Deposit, Dispute, Resolve, TransactionId, TxRecord, Withdrawal,
};

verus! {

/// The `type` column of a row.
#[derive(Clone, Copy, Debug, PartialEq, Eq, Structural)]
pub enum RecordKind {
    Deposit,
    Withdrawal,
    Dispute,
    Resolve,
    Chargeback,
}

/// One row of the input, its columns read: `type`, `client`, `tx` and the
/// optional `amount`.
#[derive(Clone, Copy, Debug)]
pub struct RawRecord {
    pub kind: RecordKind,
    pub client_id: ClientId,
    pub tx_id: TransactionId,
    pub amount: Option<Amount>,
}

/// Why a row does not make a transaction record.
#[derive(Clone, Copy, Debug, PartialEq, Eq, Structural)]
pub enum DecodeError {
    /// A deposit or withdrawal without an amount.
    MissingAmount,
    /// A deposit or withdrawal whose amount is refused.
    InvalidAmount(AmountError),
}

/// The amount of a deposit or withdrawal row.
pub open spec fn amount_spec(amount: Option<Amount>) -> Result<NonNegativeDecimal, DecodeError> {
    match amount {
        None => Err(DecodeError::MissingAmount),
        Some(a) => if !a.wf() {
            Err(DecodeError::InvalidAmount(AmountError::OutOfRange))
        } else if a.value() < 0 {
            Err(DecodeError::InvalidAmount(AmountError::Negative))
        } else {
            Ok(NonNegativeDecimal::of(a))
        },
    }
}

/// The record a row stands for. A dispute, resolve or chargeback ignores the
/// amount column.
pub open spec fn decode_spec(raw: RawRecord) -> Result<TxRecord, DecodeError> {
    let client_id = raw.client_id;
    let tx_id = raw.tx_id;
    match raw.kind {
        RecordKind::Deposit => match amount_spec(raw.amount) {
            Ok(amount) => Ok(TxRecord::Deposit(Deposit { client_id, tx_id, amount })),
            Err(e) => Err(e),
        },
        RecordKind::Withdrawal => match amount_spec(raw.amount) {
            Ok(amount) => Ok(TxRecord::Withdrawal(Withdrawal { client_id, tx_id, amount })),
            Err(e) => Err(e),
        },
        RecordKind::Dispute => Ok(TxRecord::Dispute(Dispute { client_id, tx_id })),
        RecordKind::Resolve => Ok(TxRecord::Resolve(Resolve { client_id, tx_id })),
        RecordKind::Chargeback => Ok(TxRecord::Chargeback(Chargeback { client_id, tx_id })),
    }
}

/// The records of the rows that decode, in order; the others are dropped.
pub open spec fn decoded(rows: Seq<RawRecord>) -> Seq<TxRecord>
    decreases rows.len(),
{
    if rows.len() == 0 {
        Seq::empty()
    } else {
        let before = decoded(rows.drop_last());
        match decode_spec(rows.last()) {
            Ok(record) => before.push(record),
            Err(_) => before,
        }
    }
}

fn decode_amount(amount: Option<Amount>) -> (r: Result<NonNegativeDecimal, DecodeError>)
    ensures
        r == amount_spec(amount),
{
    match amount {
        None => Err(DecodeError::MissingAmount),
        Some(a) => match NonNegativeDecimal::try_from(a) {
            Ok(d) => Ok(d),
            Err(e) => Err(DecodeError::InvalidAmount(e)),
        },
    }
}

impl TxRecord {
    /// The record that `raw` stands for, if it is complete and valid.
    pub fn try_from(raw: RawRecord) -> (r: Result<TxRecord, DecodeError>)
        ensures
            r == decode_spec(raw),
    {
        let client_id = raw.client_id;
        let tx_id = raw.tx_id;
        match raw.kind {
            RecordKind::Deposit => match decode_amount(raw.amount) {
                Ok(amount) => Ok(TxRecord::Deposit(Deposit { client_id, tx_id, amount })),
                Err(e) => Err(e),
            },
            RecordKind::Withdrawal => match decode_amount(raw.amount) {
                Ok(amount) => Ok(TxRecord::Withdrawal(Withdrawal { client_id, tx_id, amount })),
                Err(e) => Err(e),
            },
            RecordKind::Dispute => Ok(TxRecord::Dispute(Dispute { client_id, tx_id })),
            RecordKind::Resolve => Ok(TxRecord::Resolve(Resolve { client_id, tx_id })),
            RecordKind::Chargeback => Ok(TxRecord::Chargeback(Chargeback { client_id, tx_id })),
        }
    }
}

/// How the input is read, and the rows it yields decoded into records.
#[derive(Clone, Copy, Debug)]
pub struct CsvDecoder {
    /// The byte between two columns.
    pub delimiter: u8,
    /// Whether whitespace around headers and values is dropped.
    pub trim: bool,
    /// Whether the first row names the columns.
    pub has_headers: bool,
}

impl CsvDecoder {
    /// Comma-separated (the delimiter is the ASCII comma, 44), with a header row,
    /// whitespace trimmed.
    pub fn new() -> (r: CsvDecoder)
        ensures
            r.delimiter == 44,
            r.trim,
            r.has_headers,
    {
        CsvDecoder { delimiter: 44, trim: true, has_headers: true }
    }

    /// The records of the rows that decode, in their order; a row that does not
    /// decode is dropped.
    pub fn decode_tx(&self, rows: Vec<RawRecord>) -> (r: Vec<TxRecord>)
        ensures
            r@ == decoded(rows@),
    {
        let mut out: Vec<TxRecord> = Vec::new();
        let mut i: usize = 0;
        while i < rows.len()
            invariant
                i <= rows@.len(),
                out@ == decoded(rows@.take(i as int)),
            decreases rows@.len() - i,
        {
            let row = rows[i];
            proof {
                assert(rows@.take(i + 1).drop_last() =~= rows@.take(i as int));
                assert(rows@.take(i + 1).last() == rows@[i as int]);
            }
            match TxRecord::try_from(row) {
                Ok(record) => out.push(record),
                Err(_) => {},
            }
            i = i + 1;
        }
        proof {
            assert(rows@.take(i as int) =~= rows@);
        }
        out
    }
}

} // verus!

use vstd::prelude::*;

use crate::field::TX_LEN;

verus! {

/// Rows that the signature verification of one transaction takes, as
/// calibrated for the standard proving back end.
pub const STANDARD_ROWS_PER_TX: usize = 140436;

/// Rows of the range lookup table of the standard proving back end.
pub const STANDARD_RANGE_TABLE_ROWS: usize = 262144;

pub open spec fn max_nat(a: nat, b: nat) -> nat {
    if a >= b {
        a
    } else {
        b
    }
}

/// The rows the table itself needs for `txs_len` transactions and
/// `call_data_len` call data bytes, or what the signature verification of
/// those transactions needs, whichever is more.
pub open spec fn min_rows(txs_len: nat, call_data_len: nat, sign_verify_rows: nat) -> nat {
    max_nat((TX_LEN * txs_len + call_data_len) as nat, sign_verify_rows)
}

/// The calibration of a proving back end: the rows each transaction costs
/// and the size of its baseline lookup table.
#[derive(Clone, Copy, Debug, PartialEq, Eq, Structural)]
pub struct CapacityPolicy {
    pub rows_per_tx: usize,
    pub range_table_rows: usize,
}

impl CapacityPolicy {
    pub open spec fn required_rows(self, num_tx: nat) -> nat {
        max_nat((num_tx * self.rows_per_tx) as nat, self.range_table_rows as nat)
    }

    /// The calibration of the standard proving back end.
    pub fn standard() -> (r: CapacityPolicy)
        ensures
            r.rows_per_tx == STANDARD_ROWS_PER_TX,
            r.range_table_rows == STANDARD_RANGE_TABLE_ROWS,
    {
        CapacityPolicy {
            rows_per_tx: STANDARD_ROWS_PER_TX,
            range_table_rows: STANDARD_RANGE_TABLE_ROWS,
        }
    }

    /// The rows a proof of `num_tx` transactions needs under this calibration.
    pub fn get_num_rows_required(&self, num_tx: usize) -> (r: usize)
        requires
            num_tx * self.rows_per_tx <= usize::MAX,
        ensures
            r == self.required_rows(num_tx as nat),
    {
        let per_tx = num_tx * self.rows_per_tx;
        if per_tx >= self.range_table_rows {
            per_tx
        } else {
            self.range_table_rows
        }
    }
}

/// The minimum rows are monotonic in each input.
pub proof fn lemma_min_rows_monotonic(
    txs_len: nat,
    call_data_len: nat,
    sign_verify_rows: nat,
    txs_len2: nat,
    call_data_len2: nat,
    sign_verify_rows2: nat,
)
    requires
        txs_len <= txs_len2,
        call_data_len <= call_data_len2,
        sign_verify_rows <= sign_verify_rows2,
    ensures
        min_rows(txs_len, call_data_len, sign_verify_rows) <= min_rows(
            txs_len2,
            call_data_len2,
            sign_verify_rows2,
        ),
{
}

/// The rows a calibration asks for are monotonic in the number of transactions.
pub proof fn lemma_required_rows_monotonic(policy: CapacityPolicy, num_tx: nat, num_tx2: nat)
    requires
        num_tx <= num_tx2,
    ensures
        policy.required_rows(num_tx) <= policy.required_rows(num_tx2),
{
    assert(num_tx * policy.rows_per_tx <= num_tx2 * policy.rows_per_tx) by (nonlinear_arith)
        requires
            num_tx <= num_tx2,
    ;
}

} // verus!

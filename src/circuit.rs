use vstd::prelude::*;

use crate::binding::{
    bind_signatures, bindings_for, caller_row, sign_hash_row, Binding, Limb, SignField,
};
use crate::field::{FieldTag, TX_LEN};
use crate::sizing::min_rows;
use crate::table::{
    build_outcome, build_table, calldata_within, lemma_static_rows_in_order, total_calldata,
    tx_views, Row, SignatureVerification, TxCircuitError, TxTable,
};
use crate::transaction::{Transaction, TransactionView};

verus! {

/// The transaction circuit: a batch of transactions laid out in a table of
/// `max_txs` slots and `max_calldata` call data rows.
#[derive(Clone, Debug)]
pub struct TxCircuit {
    /// Max number of supported transactions
    pub max_txs: usize,
    /// Max number of supported calldata bytes
    pub max_calldata: usize,
    pub txs: Vec<Transaction>,
    /// The chain id that the transactions are signed for.
    pub chain_id: u64,
}

/// The table and the bindings that tie it to the signature verification
/// results.
#[derive(Clone, Debug)]
pub struct TxTableAssignment {
    pub table: TxTable,
    pub bindings: Vec<Binding>,
}

/// What assigning the table of a circuit gives.
pub open spec fn assignment_ok(
    c: TxCircuit,
    sign_results: Seq<SignatureVerification>,
    r: Result<TxTableAssignment, TxCircuitError>,
) -> bool {
    match r {
        Ok(a) => {
            &&& build_outcome(tx_views(c.txs@), sign_results, c.max_txs as nat, c.max_calldata as nat)
                == Ok::<Seq<Row>, TxCircuitError>(a.table.rows@)
            &&& a.table.max_txs == c.max_txs
            &&& a.table.max_calldata == c.max_calldata
            &&& a.table.wf()
            &&& a.bindings@ == bindings_for(c.max_txs as nat)
        },
        Err(e) => build_outcome(
            tx_views(c.txs@),
            sign_results,
            c.max_txs as nat,
            c.max_calldata as nat,
        ) == Err::<Seq<Row>, TxCircuitError>(e),
    }
}

impl TxCircuit {
    pub open spec fn fits_usize(&self) -> bool {
        TX_LEN * self.max_txs + self.max_calldata < usize::MAX
    }

    pub fn new(max_txs: usize, max_calldata: usize, chain_id: u64, txs: Vec<Transaction>) -> (r:
        TxCircuit)
        ensures
            r.max_txs == max_txs,
            r.max_calldata == max_calldata,
            r.chain_id == chain_id,
            r.txs@ == txs@,
    {
        TxCircuit { max_txs, max_calldata, txs, chain_id }
    }

    /// The rows at the end of the region that the circuit cannot use: no
    /// column is queried at more than three distinct rotations.
    pub fn unusable_rows() -> (r: usize)
        ensures
            r == 6,
    {
        6
    }

    /// The minimum rows to prove `txs_len` transactions with `call_data_len`
    /// call data bytes, where their signature verification needs
    /// `sign_verify_rows` rows.
    pub fn min_num_rows(txs_len: usize, call_data_len: usize, sign_verify_rows: usize) -> (r: usize)
        requires
            TX_LEN * txs_len + call_data_len <= usize::MAX,
        ensures
            r == min_rows(txs_len as nat, call_data_len as nat, sign_verify_rows as nat),
    {
        let tx_table_len = txs_len * TX_LEN + call_data_len;
        if tx_table_len >= sign_verify_rows {
            tx_table_len
        } else {
            sign_verify_rows
        }
    }

    /// The minimum rows to prove the transactions this circuit holds, and the
    /// minimum rows to prove any batch up to its maxima; each takes the rows
    /// that signature verification needs for its number of transactions.
    pub fn min_num_rows_block(&self, sign_verify_rows_txs: usize, sign_verify_rows_max: usize) -> (r: (
        usize,
        usize,
    ))
        requires
            TX_LEN * self.txs@.len() + total_calldata(tx_views(self.txs@)) <= usize::MAX,
            TX_LEN * self.max_txs + self.max_calldata <= usize::MAX,
        ensures
            r.0 == min_rows(
                self.txs@.len(),
                total_calldata(tx_views(self.txs@)),
                sign_verify_rows_txs as nat,
            ),
            r.1 == min_rows(
                self.max_txs as nat,
                self.max_calldata as nat,
                sign_verify_rows_max as nat,
            ),
    {
        let call_data_len = match calldata_within(&self.txs, usize::MAX) {
            Some(n) => n,
            None => 0,
        };
        (
            TxCircuit::min_num_rows(self.txs.len(), call_data_len, sign_verify_rows_txs),
            TxCircuit::min_num_rows(self.max_txs, self.max_calldata, sign_verify_rows_max),
        )
    }

    /// Lays out the table and binds it to `sign_results`, one per slot.
    pub fn assign_tx_table(&self, sign_results: &Vec<SignatureVerification>) -> (r: Result<
        TxTableAssignment,
        TxCircuitError,
    >)
        requires
            self.fits_usize(),
        ensures
            assignment_ok(*self, sign_results@, r),
    {
        let table = match build_table(&self.txs, self.max_txs, self.max_calldata, sign_results) {
            Ok(t) => t,
            Err(e) => {
                return Err(e);
            },
        };
        let bindings = match bind_signatures(&table, sign_results) {
            Ok(b) => b,
            Err(e) => {
                return Err(e);
            },
        };
        Ok(TxTableAssignment { table, bindings })
    }

    /// Assigns the circuit's table, given the signature verification results
    /// of its slots, or `None` where signing data could not be derived for
    /// one of its transactions.
    pub fn synthesize_sub(&self, sign_results: Option<Vec<SignatureVerification>>) -> (r: Result<
        TxTableAssignment,
        TxCircuitError,
    >)
        requires
            self.fits_usize(),
        ensures
            self.txs@.len() > self.max_txs ==> r == Err::<TxTableAssignment, TxCircuitError>(
                TxCircuitError::InputTooLarge,
            ),
            self.txs@.len() <= self.max_txs && sign_results is None ==> r == Err::<
                TxTableAssignment,
                TxCircuitError,
            >(TxCircuitError::SignatureDerivationFailure),
            self.txs@.len() <= self.max_txs && sign_results is Some ==> assignment_ok(
                *self,
                sign_results->Some_0@,
                r,
            ),
    {
        if self.txs.len() > self.max_txs {
            return Err(TxCircuitError::InputTooLarge);
        }
        match sign_results {
            Some(v) => self.assign_tx_table(&v),
            None => Err(TxCircuitError::SignatureDerivationFailure),
        }
    }
}

/// Every slot `i` of a table is bound to its signature verification result:
/// both limbs of its caller address row to the recovered address, both limbs
/// of its signature hash row to the message hash; and every binding is one of
/// these.
pub proof fn lemma_bindings_complete(
    txs: Seq<TransactionView>,
    sign: Seq<SignatureVerification>,
    max_txs: nat,
    max_calldata: nat,
    i: int,
)
    requires
        build_outcome(txs, sign, max_txs, max_calldata) is Ok,
        TX_LEN * max_txs + max_calldata < usize::MAX,
        0 <= i < max_txs,
    ensures
        ({
            let rows = build_outcome(txs, sign, max_txs, max_calldata)->Ok_0;
            let b = bindings_for(max_txs);
            &&& rows[caller_row(i)].tag == FieldTag::CallerAddress
            &&& rows[caller_row(i)].tx_id == i + 1
            &&& rows[sign_hash_row(i)].tag == FieldTag::TxSignHash
            &&& rows[sign_hash_row(i)].tx_id == i + 1
            &&& rows[sign_hash_row(i)].value == sign[i].msg_hash
            &&& b[4 * i] == (Binding {
                row: caller_row(i) as usize,
                limb: Limb::Lo,
                slot: i as usize,
                field: SignField::Address,
            })
            &&& b[4 * i + 1] == (Binding {
                row: caller_row(i) as usize,
                limb: Limb::Hi,
                slot: i as usize,
                field: SignField::Address,
            })
            &&& b[4 * i + 2] == (Binding {
                row: sign_hash_row(i) as usize,
                limb: Limb::Lo,
                slot: i as usize,
                field: SignField::MsgHash,
            })
            &&& b[4 * i + 3] == (Binding {
                row: sign_hash_row(i) as usize,
                limb: Limb::Hi,
                slot: i as usize,
                field: SignField::MsgHash,
            })
        }),
        forall|n: int|
            0 <= n < bindings_for(max_txs).len() ==> {
                let bn = #[trigger] bindings_for(max_txs)[n];
                &&& bn.slot < max_txs
                &&& (bn.field == SignField::Address ==> bn.row == caller_row(bn.slot as int))
                &&& (bn.field == SignField::MsgHash ==> bn.row == sign_hash_row(bn.slot as int))
            },
{
    lemma_static_rows_in_order(txs, sign, max_txs, max_calldata, i, 3);
    lemma_static_rows_in_order(txs, sign, max_txs, max_calldata, i, 9);
    vstd::arithmetic::div_mod::lemma_fundamental_div_mod_converse(4 * i, 4, i, 0);
    vstd::arithmetic::div_mod::lemma_fundamental_div_mod_converse(4 * i + 1, 4, i, 1);
    vstd::arithmetic::div_mod::lemma_fundamental_div_mod_converse(4 * i + 2, 4, i, 2);
    vstd::arithmetic::div_mod::lemma_fundamental_div_mod_converse(4 * i + 3, 4, i, 3);
    assert forall|n: int| 0 <= n < bindings_for(max_txs).len() implies {
        let bn = #[trigger] bindings_for(max_txs)[n];
        &&& bn.slot < max_txs
        &&& (bn.field == SignField::Address ==> bn.row == caller_row(bn.slot as int))
        &&& (bn.field == SignField::MsgHash ==> bn.row == sign_hash_row(bn.slot as int))
    } by {
        vstd::arithmetic::div_mod::lemma_fundamental_div_mod(n, 4);
        assert(n / 4 < max_txs);
    }
}

} // verus!

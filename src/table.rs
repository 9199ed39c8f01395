use vstd::prelude::*;

use crate::field::{static_tag, FieldTag, TX_LEN};
use crate::transaction::{static_field_word, zero_transaction, Transaction, TransactionView};
use crate::word::{small_word, zero_word, Word};

verus! {

/// One entry of the transaction table.
#[derive(Clone, Copy, Debug, PartialEq, Eq, Structural)]
pub struct Row {
    /// The 1-based id of the transaction; 0 for no transaction.
    pub tx_id: usize,
    pub tag: FieldTag,
    /// The byte offset within the call data for a call data row, else 0.
    pub index: usize,
    pub value: Word,
}

/// What the signature verification component produced for one slot.
#[derive(Clone, Copy, Debug, PartialEq, Eq, Structural)]
pub struct SignatureVerification {
    /// The address recovered from the signature.
    pub address: Word,
    /// The hash of the signed message.
    pub msg_hash: Word,
}

#[derive(Clone, Copy, Debug, PartialEq, Eq, Structural)]
pub enum TxCircuitError {
    /// More transactions than slots.
    InputTooLarge,
    /// More call data bytes than the call data region holds.
    CalldataOverflow,
    /// Signing data could not be derived for a transaction.
    SignatureDerivationFailure,
    /// Fewer signature verification results than slots.
    BindingRangeError,
}

/// The laid out transaction table: the null row, then `max_txs` slots of
/// static rows, then `max_calldata` call data rows.
#[derive(Clone, Debug)]
pub struct TxTable {
    pub max_txs: usize,
    pub max_calldata: usize,
    pub rows: Vec<Row>,
}

impl TxTable {
    pub open spec fn wf(&self) -> bool {
        &&& self.rows@.len() == 1 + TX_LEN * self.max_txs + self.max_calldata
        &&& self.rows@.len() <= usize::MAX
    }
}

pub open spec fn tx_views(txs: Seq<Transaction>) -> Seq<TransactionView> {
    txs.map_values(|t: Transaction| t@)
}

pub open spec fn null_row() -> Row {
    Row { tx_id: 0, tag: FieldTag::Null, index: 0, value: zero_word() }
}

pub open spec fn padding_row() -> Row {
    Row { tx_id: 0, tag: FieldTag::CallData, index: 0, value: zero_word() }
}

/// The transaction of slot `i`: the real one if there is one, else the zero
/// transaction.
pub open spec fn slot_tx(txs: Seq<TransactionView>, i: int) -> TransactionView {
    if i < txs.len() {
        txs[i]
    } else {
        zero_transaction()
    }
}

/// The `r`-th row of the static region.
pub open spec fn static_row(
    txs: Seq<TransactionView>,
    sign: Seq<SignatureVerification>,
    r: int,
) -> Row {
    let i = r / 10;
    let k = r % 10;
    Row {
        tx_id: (i + 1) as usize,
        tag: static_tag(k),
        index: 0,
        value: static_field_word(slot_tx(txs, i), k, sign[i].msg_hash),
    }
}

pub open spec fn static_rows(
    txs: Seq<TransactionView>,
    sign: Seq<SignatureVerification>,
    max_txs: nat,
) -> Seq<Row> {
    Seq::new(10 * max_txs, |r: int| static_row(txs, sign, r))
}

/// The call data rows of the transaction with id `id`.
pub open spec fn tx_calldata_rows(id: nat, data: Seq<u8>) -> Seq<Row> {
    Seq::new(
        data.len(),
        |j: int|
            Row {
                tx_id: id as usize,
                tag: FieldTag::CallData,
                index: j as usize,
                value: small_word(data[j] as nat),
            },
    )
}

/// The call data rows of all transactions, in transaction order.
pub open spec fn calldata_rows(txs: Seq<TransactionView>) -> Seq<Row>
    decreases txs.len(),
{
    if txs.len() == 0 {
        Seq::empty()
    } else {
        calldata_rows(txs.drop_last()) + tx_calldata_rows(txs.len(), txs.last().call_data)
    }
}

/// The number of call data bytes of all transactions.
pub open spec fn total_calldata(txs: Seq<TransactionView>) -> nat
    decreases txs.len(),
{
    if txs.len() == 0 {
        0
    } else {
        total_calldata(txs.drop_last()) + txs.last().call_data.len()
    }
}

pub open spec fn padding_rows(n: nat) -> Seq<Row> {
    Seq::new(n, |j: int| padding_row())
}

/// The rows of the table, for inputs that fit.
pub open spec fn table_rows(
    txs: Seq<TransactionView>,
    sign: Seq<SignatureVerification>,
    max_txs: nat,
    max_calldata: nat,
) -> Seq<Row> {
    seq![null_row()] + static_rows(txs, sign, max_txs) + calldata_rows(txs) + padding_rows(
        (max_calldata - total_calldata(txs)) as nat,
    )
}

/// What building the table gives: the rows, or the first error that the
/// inputs raise.
pub open spec fn build_outcome(
    txs: Seq<TransactionView>,
    sign: Seq<SignatureVerification>,
    max_txs: nat,
    max_calldata: nat,
) -> Result<Seq<Row>, TxCircuitError> {
    if txs.len() > max_txs {
        Err(TxCircuitError::InputTooLarge)
    } else if sign.len() < max_txs {
        Err(TxCircuitError::BindingRangeError)
    } else if total_calldata(txs) > max_calldata {
        Err(TxCircuitError::CalldataOverflow)
    } else {
        Ok(table_rows(txs, sign, max_txs, max_calldata))
    }
}

pub open spec fn table_outcome(r: Result<TxTable, TxCircuitError>) -> Result<Seq<Row>, TxCircuitError> {
    match r {
        Ok(t) => Ok(t.rows@),
        Err(e) => Err(e),
    }
}

pub proof fn lemma_total_calldata_prefix(txs: Seq<TransactionView>, i: int)
    requires
        0 <= i <= txs.len(),
    ensures
        total_calldata(txs.take(i)) <= total_calldata(txs),
    decreases txs.len(),
{
    if i < txs.len() {
        lemma_total_calldata_prefix(txs.drop_last(), i);
        assert(txs.drop_last().take(i) =~= txs.take(i));
    } else {
        assert(txs.take(i) =~= txs);
    }
}

pub proof fn lemma_calldata_rows_len(txs: Seq<TransactionView>)
    ensures
        calldata_rows(txs).len() == total_calldata(txs),
    decreases txs.len(),
{
    if txs.len() > 0 {
        lemma_calldata_rows_len(txs.drop_last());
    }
}

/// Adds the last transaction of a prefix to the call data rows and bytes.
proof fn lemma_calldata_step(txs: Seq<TransactionView>, i: int)
    requires
        0 <= i < txs.len(),
    ensures
        calldata_rows(txs.take(i + 1)) == calldata_rows(txs.take(i)) + tx_calldata_rows(
            (i + 1) as nat,
            txs[i].call_data,
        ),
        total_calldata(txs.take(i + 1)) == total_calldata(txs.take(i)) + txs[i].call_data.len(),
{
    assert(txs.take(i + 1).drop_last() =~= txs.take(i));
}

pub proof fn lemma_static_row_index(i: int, k: int)
    requires
        0 <= i,
        0 <= k < 10,
    ensures
        (10 * i + k) / 10 == i,
        (10 * i + k) % 10 == k,
{
    vstd::arithmetic::div_mod::lemma_fundamental_div_mod_converse(10 * i + k, 10, i, k);
}

/// The number of call data bytes of all transactions, if it is at most
/// `max_calldata`.
pub fn calldata_within(txs: &Vec<Transaction>, max_calldata: usize) -> (r: Option<usize>)
    ensures
        match r {
            Some(n) => n == total_calldata(tx_views(txs@)) && n <= max_calldata,
            None => total_calldata(tx_views(txs@)) > max_calldata,
        },
{
    let ghost vs = tx_views(txs@);
    let mut total: usize = 0;
    let mut i: usize = 0;
    while i < txs.len()
        invariant
            vs == tx_views(txs@),
            i <= txs@.len(),
            total == total_calldata(vs.take(i as int)),
            total <= max_calldata,
        decreases txs@.len() - i,
    {
        let len = txs[i].call_data.len();
        proof {
            lemma_calldata_step(vs, i as int);
        }
        if len > max_calldata - total {
            proof {
                lemma_total_calldata_prefix(vs, i + 1);
            }
            return None;
        }
        total = total + len;
        i = i + 1;
    }
    assert(vs.take(i as int) =~= vs);
    Some(total)
}

/// Lays out the table for `txs` in `max_txs` slots and `max_calldata` call
/// data rows, taking each slot's signature hash from `sign_results`.
pub fn build_table(
    txs: &Vec<Transaction>,
    max_txs: usize,
    max_calldata: usize,
    sign_results: &Vec<SignatureVerification>,
) -> (r: Result<TxTable, TxCircuitError>)
    requires
        TX_LEN * max_txs + max_calldata < usize::MAX,
    ensures
        table_outcome(r) == build_outcome(
            tx_views(txs@),
            sign_results@,
            max_txs as nat,
            max_calldata as nat,
        ),
        r matches Ok(t) ==> t.max_txs == max_txs && t.max_calldata == max_calldata && t.wf(),
{
    if txs.len() > max_txs {
        return Err(TxCircuitError::InputTooLarge);
    }
    if sign_results.len() < max_txs {
        return Err(TxCircuitError::BindingRangeError);
    }
    let total = match calldata_within(txs, max_calldata) {
        Some(n) => n,
        None => {
            return Err(TxCircuitError::CalldataOverflow);
        },
    };
    let ghost vs = tx_views(txs@);
    let ghost sign = sign_results@;
    let ghost statics = static_rows(vs, sign, max_txs as nat);
    let mut rows: Vec<Row> = Vec::new();
    rows.push(Row { tx_id: 0, tag: FieldTag::Null, index: 0, value: Word::zero() });
    assert(rows@ =~= seq![null_row()] + statics.take(0));
    let tx_default = Transaction::default();
    let mut i: usize = 0;
    while i < max_txs
        invariant
            i <= max_txs,
            txs@.len() <= max_txs,
            max_txs <= sign.len(),
            TX_LEN * max_txs + max_calldata < usize::MAX,
            vs == tx_views(txs@),
            sign == sign_results@,
            statics == static_rows(vs, sign, max_txs as nat),
            tx_default@ == zero_transaction(),
            rows@ == seq![null_row()] + statics.take(10 * i),
        decreases max_txs - i,
    {
        let tx = if i < txs.len() {
            &txs[i]
        } else {
            &tx_default
        };
        assert(tx@ == slot_tx(vs, i as int));
        let msg_hash = sign_results[i].msg_hash;
        let mut k: usize = 0;
        while k < TX_LEN
            invariant
                i < max_txs,
                k <= TX_LEN,
                max_txs <= sign.len(),
                tx@ == slot_tx(vs, i as int),
                msg_hash == sign[i as int].msg_hash,
                statics == static_rows(vs, sign, max_txs as nat),
                rows@ == seq![null_row()] + statics.take(10 * i + k),
            decreases TX_LEN - k,
        {
            let row = Row {
                tx_id: i + 1,
                tag: FieldTag::static_at(k),
                index: 0,
                value: tx.static_field(k, msg_hash),
            };
            proof {
                lemma_static_row_index(i as int, k as int);
                assert(row == static_row(vs, sign, 10 * i + k));
                assert(statics.take(10 * i + k + 1) =~= statics.take(10 * i + k).push(row));
            }
            rows.push(row);
            assert(rows@ =~= seq![null_row()] + statics.take(10 * i + k + 1));
            k = k + 1;
        }
        i = i + 1;
    }
    let ghost head = seq![null_row()] + statics;
    assert(statics.take(10 * max_txs) =~= statics);
    assert(vs.take(0) =~= Seq::<TransactionView>::empty());
    assert(rows@ =~= head + calldata_rows(vs.take(0)));
    let mut t: usize = 0;
    while t < txs.len()
        invariant
            t <= txs@.len() <= usize::MAX,
            vs == tx_views(txs@),
            rows@ == head + calldata_rows(vs.take(t as int)),
        decreases txs@.len() - t,
    {
        let data = &txs[t].call_data;
        let ghost own = tx_calldata_rows((t + 1) as nat, data@);
        assert(rows@ =~= head + calldata_rows(vs.take(t as int)) + own.take(0));
        let mut j: usize = 0;
        while j < data.len()
            invariant
                j <= data@.len(),
                t < txs@.len() <= usize::MAX,
                own == tx_calldata_rows((t + 1) as nat, data@),
                rows@ == head + calldata_rows(vs.take(t as int)) + own.take(j as int),
            decreases data@.len() - j,
        {
            let row = Row {
                tx_id: t + 1,
                tag: FieldTag::CallData,
                index: j,
                value: Word::from_u64(data[j] as u64),
            };
            assert(own.take(j + 1) =~= own.take(j as int).push(row));
            rows.push(row);
            assert(rows@ =~= head + calldata_rows(vs.take(t as int)) + own.take(j + 1));
            j = j + 1;
        }
        proof {
            lemma_calldata_step(vs, t as int);
            assert(own.take(j as int) =~= own);
        }
        assert(rows@ =~= head + calldata_rows(vs.take(t + 1)));
        t = t + 1;
    }
    assert(vs.take(t as int) =~= vs);
    let fill = max_calldata - total;
    assert(rows@ =~= head + calldata_rows(vs) + padding_rows(0));
    let mut p: usize = 0;
    while p < fill
        invariant
            p <= fill,
            rows@ == head + calldata_rows(vs) + padding_rows(p as nat),
        decreases fill - p,
    {
        let row = Row { tx_id: 0, tag: FieldTag::CallData, index: 0, value: Word::zero() };
        rows.push(row);
        assert(rows@ =~= head + calldata_rows(vs) + padding_rows((p + 1) as nat));
        p = p + 1;
    }
    proof {
        lemma_calldata_rows_len(vs);
    }
    assert(rows@ =~= table_rows(vs, sign, max_txs as nat, max_calldata as nat));
    Ok(TxTable { max_txs, max_calldata, rows })
}

/// Inputs that fit always give a table, of exactly one null row, ten rows
/// per slot and one row per call data byte the region can hold.
pub proof fn lemma_build_succeeds_when_inputs_fit(
    txs: Seq<TransactionView>,
    sign: Seq<SignatureVerification>,
    max_txs: nat,
    max_calldata: nat,
)
    requires
        txs.len() <= max_txs,
        total_calldata(txs) <= max_calldata,
        sign.len() >= max_txs,
    ensures
        build_outcome(txs, sign, max_txs, max_calldata) is Ok,
        build_outcome(txs, sign, max_txs, max_calldata)->Ok_0.len() == 1 + TX_LEN * max_txs
            + max_calldata,
{
    lemma_calldata_rows_len(txs);
}

/// The first row of every table is the null row: tag `Null`, no
/// transaction, value zero.
pub proof fn lemma_first_row_is_null(
    txs: Seq<TransactionView>,
    sign: Seq<SignatureVerification>,
    max_txs: nat,
    max_calldata: nat,
)
    requires
        build_outcome(txs, sign, max_txs, max_calldata) is Ok,
    ensures
        build_outcome(txs, sign, max_txs, max_calldata)->Ok_0[0] == null_row(),
        null_row().tag == FieldTag::Null && null_row().tx_id == 0 && null_row().value
            == zero_word(),
{
}

/// Every slot `i` holds its ten static rows in the fixed tag order, with
/// transaction id `i + 1`, the fields of its transaction (the zero
/// transaction where there is none) and the signature hash of its result.
pub proof fn lemma_static_rows_in_order(
    txs: Seq<TransactionView>,
    sign: Seq<SignatureVerification>,
    max_txs: nat,
    max_calldata: nat,
    i: int,
    k: int,
)
    requires
        build_outcome(txs, sign, max_txs, max_calldata) is Ok,
        TX_LEN * max_txs + max_calldata < usize::MAX,
        0 <= i < max_txs,
        0 <= k < TX_LEN,
    ensures
        ({
            let row = build_outcome(txs, sign, max_txs, max_calldata)->Ok_0[1 + TX_LEN * i + k];
            &&& row.tag == static_tag(k)
            &&& row.tx_id == i + 1
            &&& row.index == 0
            &&& row.value == static_field_word(slot_tx(txs, i), k, sign[i].msg_hash)
        }),
{
    lemma_static_row_index(i, k);
    let rows = build_outcome(txs, sign, max_txs, max_calldata)->Ok_0;
    let statics = static_rows(txs, sign, max_txs);
    assert(rows[1 + TX_LEN * i + k] == statics[10 * i + k]);
}

/// The table depends on the values of its inputs alone: inputs of equal
/// value give equal outcomes.
pub proof fn lemma_build_deterministic(
    txs1: Seq<Transaction>,
    txs2: Seq<Transaction>,
    sign1: Seq<SignatureVerification>,
    sign2: Seq<SignatureVerification>,
    max_txs: nat,
    max_calldata: nat,
)
    requires
        tx_views(txs1) == tx_views(txs2),
        sign1 == sign2,
    ensures
        build_outcome(tx_views(txs1), sign1, max_txs, max_calldata) == build_outcome(
            tx_views(txs2),
            sign2,
            max_txs,
            max_calldata,
        ),
{
}

/// Raising the call data capacity with the same transactions only appends
/// padding rows; the rows before them stay as they were.
pub proof fn lemma_more_calldata_only_pads(
    txs: Seq<TransactionView>,
    sign: Seq<SignatureVerification>,
    max_txs: nat,
    max_calldata: nat,
    more_calldata: nat,
)
    requires
        build_outcome(txs, sign, max_txs, max_calldata) is Ok,
        max_calldata <= more_calldata,
    ensures
        build_outcome(txs, sign, max_txs, more_calldata) == Ok::<Seq<Row>, TxCircuitError>(
            build_outcome(txs, sign, max_txs, max_calldata)->Ok_0 + padding_rows(
                (more_calldata - max_calldata) as nat,
            ),
        ),
{
    let head = seq![null_row()] + static_rows(txs, sign, max_txs) + calldata_rows(txs);
    let t = total_calldata(txs);
    assert(padding_rows((max_calldata - t) as nat) + padding_rows(
        (more_calldata - max_calldata) as nat,
    ) =~= padding_rows((more_calldata - t) as nat));
    assert(head + padding_rows((more_calldata - t) as nat) =~= (head + padding_rows(
        (max_calldata - t) as nat,
    )) + padding_rows((more_calldata - max_calldata) as nat));
}

/// As many transactions as slots fit; one more is too large.
pub proof fn lemma_tx_count_boundary(
    txs: Seq<TransactionView>,
    sign: Seq<SignatureVerification>,
    max_txs: nat,
    max_calldata: nat,
)
    requires
        total_calldata(txs) <= max_calldata,
        sign.len() >= max_txs,
    ensures
        txs.len() == max_txs ==> build_outcome(txs, sign, max_txs, max_calldata) is Ok,
        txs.len() == max_txs + 1 ==> build_outcome(txs, sign, max_txs, max_calldata) == Err::<
            Seq<Row>,
            TxCircuitError,
        >(TxCircuitError::InputTooLarge),
{
}

/// Call data that fills the region exactly fits with no padding row; one
/// byte more overflows it.
pub proof fn lemma_calldata_boundary(
    txs: Seq<TransactionView>,
    sign: Seq<SignatureVerification>,
    max_txs: nat,
    max_calldata: nat,
)
    requires
        txs.len() <= max_txs,
        sign.len() >= max_txs,
    ensures
        total_calldata(txs) == max_calldata ==> build_outcome(txs, sign, max_txs, max_calldata)
            == Ok::<Seq<Row>, TxCircuitError>(
            seq![null_row()] + static_rows(txs, sign, max_txs) + calldata_rows(txs),
        ),
        total_calldata(txs) == max_calldata + 1 ==> build_outcome(
            txs,
            sign,
            max_txs,
            max_calldata,
        ) == Err::<Seq<Row>, TxCircuitError>(TxCircuitError::CalldataOverflow),
{
    let head = seq![null_row()] + static_rows(txs, sign, max_txs) + calldata_rows(txs);
    assert(head + padding_rows(0) =~= head);
}

proof fn lemma_calldata_rows_tagged(txs: Seq<TransactionView>)
    ensures
        forall|j: int| 0 <= j < calldata_rows(txs).len() ==> #[trigger] calldata_rows(txs)[j].tag
            == FieldTag::CallData,
    decreases txs.len(),
{
    if txs.len() > 0 {
        lemma_calldata_rows_tagged(txs.drop_last());
    }
}

/// The null row is the only row tagged `Null`.
pub proof fn lemma_single_null_row(
    txs: Seq<TransactionView>,
    sign: Seq<SignatureVerification>,
    max_txs: nat,
    max_calldata: nat,
    j: int,
)
    requires
        build_outcome(txs, sign, max_txs, max_calldata) is Ok,
        0 < j < build_outcome(txs, sign, max_txs, max_calldata)->Ok_0.len(),
    ensures
        build_outcome(txs, sign, max_txs, max_calldata)->Ok_0[j].tag != FieldTag::Null,
{
    lemma_calldata_rows_tagged(txs);
    let statics = static_rows(txs, sign, max_txs);
    if j <= statics.len() {
        assert(0 <= (j - 1) % 10 < 10);
    }
}

} // verus!

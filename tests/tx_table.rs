use tx_circuit::binding::{bind_signatures, Binding, Limb, SignField};
use tx_circuit::circuit::TxCircuit;
use tx_circuit::field::FieldTag;
use tx_circuit::sizing::CapacityPolicy;
use tx_circuit::table::{build_table, Row, SignatureVerification, TxCircuitError};
use tx_circuit::transaction::Transaction;
use tx_circuit::word::{Address, Word};

fn tx_a(call_data: Vec<u8>) -> Transaction {
    Transaction {
        nonce: 7,
        gas: 21000,
        gas_price: Word::new(30, 0),
        from: Address::new(0xabcd, 0x12),
        to: Some(Address::new(0x55, 0)),
        value: Word::new(1000, 2),
        call_data,
    }
}

fn sign(n: usize) -> Vec<SignatureVerification> {
    (0..n)
        .map(|i| SignatureVerification {
            address: Word::new(100 + i as u128, 0),
            msg_hash: Word::new(200 + i as u128, 300 + i as u128),
        })
        .collect()
}

fn zero() -> Word {
    Word::new(0, 0)
}

fn calldata_row(tx_id: usize, index: usize, v: u128) -> Row {
    Row { tx_id, tag: FieldTag::CallData, index, value: Word::new(v, 0) }
}

#[test]
fn end_to_end_two_slots() {
    let txs = vec![tx_a(vec![1, 2])];
    let t = build_table(&txs, 2, 4, &sign(2)).unwrap();
    assert_eq!(t.rows.len(), 25);
    // slot 0: the transaction's fields
    let s0: Vec<Word> = t.rows[1..11].iter().map(|r| r.value).collect();
    assert_eq!(
        s0,
        vec![
            Word::new(7, 0),
            Word::new(21000, 0),
            Word::new(30, 0),
            Word::new(0xabcd, 0x12),
            Word::new(0x55, 0),
            Word::new(0, 0),
            Word::new(1000, 2),
            Word::new(2, 0),
            Word::new(32, 0),
            Word::new(200, 300),
        ]
    );
    assert!(t.rows[1..11].iter().all(|r| r.tx_id == 1 && r.index == 0));
    // slot 1: the zero transaction, a contract creation
    let s1: Vec<Word> = t.rows[11..21].iter().map(|r| r.value).collect();
    assert_eq!(
        s1,
        vec![zero(), zero(), zero(), zero(), zero(), Word::new(1, 0), zero(), zero(), zero(), Word::new(201, 301)]
    );
    assert!(t.rows[11..21].iter().all(|r| r.tx_id == 2));
    assert_eq!(
        t.rows[21..25].to_vec(),
        vec![calldata_row(1, 0, 1), calldata_row(1, 1, 2), calldata_row(0, 0, 0), calldata_row(0, 0, 0)]
    );
}

#[test]
fn valid_inputs_give_full_length() {
    let txs = vec![tx_a(vec![1, 2, 3]), tx_a(vec![]), tx_a(vec![9])];
    let t = build_table(&txs, 5, 10, &sign(5)).unwrap();
    assert_eq!(t.rows.len(), 1 + 5 * 10 + 10);
    assert_eq!(t.max_txs, 5);
    assert_eq!(t.max_calldata, 10);
}

#[test]
fn first_row_is_null() {
    let t = build_table(&vec![tx_a(vec![5])], 1, 3, &sign(1)).unwrap();
    assert_eq!(t.rows[0], Row { tx_id: 0, tag: FieldTag::Null, index: 0, value: zero() });
    let empty = build_table(&vec![], 3, 0, &sign(3)).unwrap();
    assert_eq!(empty.rows[0], Row { tx_id: 0, tag: FieldTag::Null, index: 0, value: zero() });
}

#[test]
fn static_rows_in_fixed_order() {
    let order = [
        FieldTag::Nonce,
        FieldTag::Gas,
        FieldTag::GasPrice,
        FieldTag::CallerAddress,
        FieldTag::CalleeAddress,
        FieldTag::IsCreate,
        FieldTag::Value,
        FieldTag::CallDataLength,
        FieldTag::CallDataGasCost,
        FieldTag::TxSignHash,
    ];
    let t = build_table(&vec![tx_a(vec![1]), tx_a(vec![])], 3, 2, &sign(3)).unwrap();
    for i in 0..3 {
        for k in 0..10 {
            let r = t.rows[1 + 10 * i + k];
            assert_eq!(r.tag, order[k]);
            assert_eq!(r.tx_id, i + 1);
        }
    }
}

#[test]
fn identical_inputs_give_identical_tables() {
    let txs = vec![tx_a(vec![4, 0, 6]), tx_a(vec![1])];
    let a = build_table(&txs, 3, 6, &sign(3)).unwrap();
    let b = build_table(&txs.clone(), 3, 6, &sign(3)).unwrap();
    assert_eq!(a.rows, b.rows);
}

#[test]
fn more_calldata_capacity_only_pads() {
    let txs = vec![tx_a(vec![4, 5])];
    let small = build_table(&txs, 2, 3, &sign(2)).unwrap();
    let large = build_table(&txs, 2, 7, &sign(2)).unwrap();
    assert_eq!(large.rows.len(), small.rows.len() + 4);
    assert_eq!(large.rows[..small.rows.len()].to_vec(), small.rows);
    assert!(large.rows[small.rows.len()..].iter().all(|r| *r == calldata_row(0, 0, 0)));
}

#[test]
fn tx_count_boundary() {
    let two = vec![tx_a(vec![]), tx_a(vec![])];
    assert!(build_table(&two, 2, 0, &sign(2)).is_ok());
    let three = vec![tx_a(vec![]), tx_a(vec![]), tx_a(vec![])];
    assert_eq!(build_table(&three, 2, 0, &sign(3)).unwrap_err(), TxCircuitError::InputTooLarge);
}

#[test]
fn calldata_boundary() {
    let exact = vec![tx_a(vec![1, 2]), tx_a(vec![3])];
    let t = build_table(&exact, 2, 3, &sign(2)).unwrap();
    assert_eq!(t.rows.len(), 1 + 20 + 3);
    assert_eq!(t.rows[23], calldata_row(2, 0, 3));
    let over = vec![tx_a(vec![1, 2]), tx_a(vec![3, 4])];
    assert_eq!(build_table(&over, 2, 3, &sign(2)).unwrap_err(), TxCircuitError::CalldataOverflow);
}

#[test]
fn short_sign_results_are_rejected() {
    let txs = vec![tx_a(vec![])];
    assert_eq!(build_table(&txs, 3, 0, &sign(2)).unwrap_err(), TxCircuitError::BindingRangeError);
    let t = build_table(&txs, 3, 0, &sign(3)).unwrap();
    assert_eq!(bind_signatures(&t, &sign(2)).unwrap_err(), TxCircuitError::BindingRangeError);
}

#[test]
fn bindings_cover_every_slot() {
    let txs = vec![tx_a(vec![1])];
    let signs = sign(3);
    let t = build_table(&txs, 3, 1, &signs).unwrap();
    let b = bind_signatures(&t, &signs).unwrap();
    assert_eq!(b.len(), 12);
    for i in 0..3 {
        let caller = 1 + 10 * i + 3;
        let hash = 1 + 10 * i + 9;
        assert_eq!(b[4 * i], Binding { row: caller, limb: Limb::Lo, slot: i, field: SignField::Address });
        assert_eq!(b[4 * i + 1], Binding { row: caller, limb: Limb::Hi, slot: i, field: SignField::Address });
        assert_eq!(b[4 * i + 2], Binding { row: hash, limb: Limb::Lo, slot: i, field: SignField::MsgHash });
        assert_eq!(b[4 * i + 3], Binding { row: hash, limb: Limb::Hi, slot: i, field: SignField::MsgHash });
        assert_eq!(t.rows[caller].tag, FieldTag::CallerAddress);
        assert_eq!(t.rows[hash].tag, FieldTag::TxSignHash);
        assert_eq!(t.rows[hash].value, signs[i].msg_hash);
    }
}

#[test]
fn synthesize_reports_each_error() {
    let c = TxCircuit::new(1, 4, 1, vec![tx_a(vec![]), tx_a(vec![])]);
    assert_eq!(c.synthesize_sub(Some(sign(1))).unwrap_err(), TxCircuitError::InputTooLarge);
    let c = TxCircuit::new(2, 4, 1, vec![tx_a(vec![1])]);
    assert_eq!(c.synthesize_sub(None).unwrap_err(), TxCircuitError::SignatureDerivationFailure);
    assert_eq!(c.synthesize_sub(Some(sign(1))).unwrap_err(), TxCircuitError::BindingRangeError);
    let a = c.synthesize_sub(Some(sign(2))).unwrap();
    assert_eq!(a.table.rows.len(), 25);
    assert_eq!(a.bindings.len(), 8);
    let c = TxCircuit::new(2, 0, 1, vec![tx_a(vec![1])]);
    assert_eq!(c.assign_tx_table(&sign(2)).unwrap_err(), TxCircuitError::CalldataOverflow);
}

#[test]
fn gas_cost_of_call_data() {
    assert_eq!(tx_a(vec![0, 1, 0, 255]).call_data_gas_cost(), 4 + 16 + 4 + 16);
    assert_eq!(tx_a(vec![]).call_data_gas_cost(), 0);
    let t = build_table(&vec![tx_a(vec![0, 0, 7])], 1, 3, &sign(1)).unwrap();
    assert_eq!(t.rows[9].value, Word::new(24, 0));
    assert_eq!(t.rows[8].value, Word::new(3, 0));
}

#[test]
fn proving_rows_by_policy() {
    let p = CapacityPolicy::standard();
    assert_eq!(p.get_num_rows_required(0), 262144);
    assert_eq!(p.get_num_rows_required(1), 262144);
    assert_eq!(p.get_num_rows_required(2), 280872);
    let custom = CapacityPolicy { rows_per_tx: 10, range_table_rows: 25 };
    assert_eq!(custom.get_num_rows_required(2), 25);
    assert_eq!(custom.get_num_rows_required(3), 30);
}

#[test]
fn min_rows_for_workload_and_capacity() {
    assert_eq!(TxCircuit::min_num_rows(2, 5, 3), 25);
    assert_eq!(TxCircuit::min_num_rows(2, 5, 100), 100);
    let c = TxCircuit::new(4, 16, 1, vec![tx_a(vec![1, 2, 3]), tx_a(vec![4])]);
    assert_eq!(c.min_num_rows_block(0, 0), (24, 56));
    assert_eq!(c.min_num_rows_block(30, 50), (30, 56));
}

#[test]
fn tag_codes() {
    assert_eq!(FieldTag::Null.code(), 0);
    assert_eq!(FieldTag::CallerAddress.code(), 4);
    assert_eq!(FieldTag::TxSignHash.code(), 10);
    assert_eq!(FieldTag::CallData.code(), 11);
    assert_eq!(FieldTag::static_at(0), FieldTag::Nonce);
    assert_eq!(FieldTag::static_at(9), FieldTag::TxSignHash);
}

#[test]
fn default_transaction_is_zero() {
    let d = Transaction::default();
    assert_eq!(d.nonce, 0);
    assert!(d.is_create());
    assert_eq!(d.to_or_zero(), Address::zero());
    assert!(d.call_data.is_empty());
}

#[test]
fn unusable_rows_of_circuit() {
    assert_eq!(TxCircuit::unusable_rows(), 6);
}

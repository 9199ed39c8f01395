use vstd::prelude::*;

use crate::field::{static_tag, FieldTag, TX_LEN};
use crate::word::{address_word, small_word, zero_word, Address, Word};

verus! {

/// A transaction as the table lays it out.
#[derive(Clone, Debug)]
pub struct Transaction {
    pub nonce: u64,
    pub gas: u64,
    pub gas_price: Word,
    pub from: Address,
    /// The callee; `None` creates a contract.
    pub to: Option<Address>,
    pub value: Word,
    pub call_data: Vec<u8>,
}

/// The mathematical value of a `Transaction`.
pub ghost struct TransactionView {
    pub nonce: u64,
    pub gas: u64,
    pub gas_price: Word,
    pub from: Address,
    pub to: Option<Address>,
    pub value: Word,
    pub call_data: Seq<u8>,
}

impl View for Transaction {
    type V = TransactionView;

    open spec fn view(&self) -> TransactionView {
        TransactionView {
            nonce: self.nonce,
            gas: self.gas,
            gas_price: self.gas_price,
            from: self.from,
            to: self.to,
            value: self.value,
            call_data: self.call_data@,
        }
    }
}

/// The canonical zero transaction, which fills the slots no real transaction
/// occupies: every field zero, no callee, no call data.
pub open spec fn zero_transaction() -> TransactionView {
    TransactionView {
        nonce: 0,
        gas: 0,
        gas_price: zero_word(),
        from: Address { lo: 0, hi: 0 },
        to: None,
        value: zero_word(),
        call_data: Seq::empty(),
    }
}

/// The gas charged for one byte of call data.
pub open spec fn byte_gas_cost(b: u8) -> nat {
    if b == 0 {
        4
    } else {
        16
    }
}

/// The gas charged for a sequence of call data bytes.
pub open spec fn gas_cost_of(data: Seq<u8>) -> nat
    decreases data.len(),
{
    if data.len() == 0 {
        0
    } else {
        gas_cost_of(data.drop_last()) + byte_gas_cost(data.last())
    }
}

/// The word that the `k`-th static row of a slot holds for transaction `t`;
/// the signature hash is the one given, not one computed from `t`.
pub open spec fn static_field_word(t: TransactionView, k: int, msg_hash: Word) -> Word {
    let tag = static_tag(k);
    match tag {
        FieldTag::Nonce => small_word(t.nonce as nat),
        FieldTag::Gas => small_word(t.gas as nat),
        FieldTag::GasPrice => t.gas_price,
        FieldTag::CallerAddress => address_word(t.from),
        FieldTag::CalleeAddress => match t.to {
            Some(a) => address_word(a),
            None => zero_word(),
        },
        FieldTag::IsCreate => small_word(
            if t.to is None {
                1
            } else {
                0
            },
        ),
        FieldTag::Value => t.value,
        FieldTag::CallDataLength => small_word(t.call_data.len()),
        FieldTag::CallDataGasCost => small_word(gas_cost_of(t.call_data)),
        _ => msg_hash,
    }
}

impl Default for Transaction {
    fn default() -> (r: Transaction)
        ensures
            r@ == zero_transaction(),
    {
        Transaction {
            nonce: 0,
            gas: 0,
            gas_price: Word::zero(),
            from: Address::zero(),
            to: None,
            value: Word::zero(),
            call_data: Vec::new(),
        }
    }
}

impl Transaction {
    pub fn is_create(&self) -> (r: bool)
        ensures
            r == (self.to is None),
    {
        self.to.is_none()
    }

    /// The callee, or the zero address for a contract creation.
    pub fn to_or_zero(&self) -> (r: Address)
        ensures
            r == (match self.to {
                Some(a) => a,
                None => Address { lo: 0, hi: 0 },
            }),
    {
        match self.to {
            Some(a) => a,
            None => Address::zero(),
        }
    }

    /// The gas charged for the call data: 4 per zero byte, 16 per other byte.
    pub fn call_data_gas_cost(&self) -> (r: u128)
        ensures
            r == gas_cost_of(self.call_data@),
    {
        let data = &self.call_data;
        let mut cost: u128 = 0;
        let mut i: usize = 0;
        while i < data.len()
            invariant
                i <= data@.len(),
                cost == gas_cost_of(data@.take(i as int)),
                cost <= 16 * i,
            decreases data@.len() - i,
        {
            assert(data@.take(i + 1).drop_last() =~= data@.take(i as int));
            if data[i] == 0 {
                cost = cost + 4;
            } else {
                cost = cost + 16;
            }
            i = i + 1;
        }
        assert(data@.take(i as int) =~= data@);
        cost
    }

    /// The word of the `k`-th static row of this transaction's slot.
    pub fn static_field(&self, k: usize, msg_hash: Word) -> (r: Word)
        requires
            k < TX_LEN,
        ensures
            r == static_field_word(self@, k as int, msg_hash),
    {
        if k == 0 {
            Word::from_u64(self.nonce)
        } else if k == 1 {
            Word::from_u64(self.gas)
        } else if k == 2 {
            self.gas_price
        } else if k == 3 {
            Word::from_address(self.from)
        } else if k == 4 {
            Word::from_address(self.to_or_zero())
        } else if k == 5 {
            Word::from_u64(if self.is_create() { 1 } else { 0 })
        } else if k == 6 {
            self.value
        } else if k == 7 {
            Word::new(self.call_data.len() as u128, 0)
        } else if k == 8 {
            Word::new(self.call_data_gas_cost(), 0)
        } else {
            msg_hash
        }
    }
}

} // verus!

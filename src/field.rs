use vstd::prelude::*;

verus! {

/// The number of static field rows that each transaction slot occupies.
pub const TX_LEN: usize = 10;

/// What a row of the transaction table holds.
#[derive(Clone, Copy, Debug, PartialEq, Eq, Structural)]
pub enum FieldTag {
    Null,
    Nonce,
    Gas,
    GasPrice,
    CallerAddress,
    CalleeAddress,
    IsCreate,
    Value,
    CallDataLength,
    CallDataGasCost,
    TxSignHash,
    CallData,
}

/// The numeric code of a tag, as the tag column of the proving engine holds it.
pub open spec fn tag_code(t: FieldTag) -> u64 {
    match t {
        FieldTag::Null => 0,
        FieldTag::Nonce => 1,
        FieldTag::Gas => 2,
        FieldTag::GasPrice => 3,
        FieldTag::CallerAddress => 4,
        FieldTag::CalleeAddress => 5,
        FieldTag::IsCreate => 6,
        FieldTag::Value => 7,
        FieldTag::CallDataLength => 8,
        FieldTag::CallDataGasCost => 9,
        FieldTag::TxSignHash => 10,
        FieldTag::CallData => 11,
    }
}

/// The tag of the `k`-th static row of a slot; the order is fixed.
pub open spec fn static_tag(k: int) -> FieldTag {
    if k == 0 {
        FieldTag::Nonce
    } else if k == 1 {
        FieldTag::Gas
    } else if k == 2 {
        FieldTag::GasPrice
    } else if k == 3 {
        FieldTag::CallerAddress
    } else if k == 4 {
        FieldTag::CalleeAddress
    } else if k == 5 {
        FieldTag::IsCreate
    } else if k == 6 {
        FieldTag::Value
    } else if k == 7 {
        FieldTag::CallDataLength
    } else if k == 8 {
        FieldTag::CallDataGasCost
    } else {
        FieldTag::TxSignHash
    }
}

impl FieldTag {
    pub fn code(&self) -> (r: u64)
        ensures
            r == tag_code(*self),
    {
        match self {
            FieldTag::Null => 0,
            FieldTag::Nonce => 1,
            FieldTag::Gas => 2,
            FieldTag::GasPrice => 3,
            FieldTag::CallerAddress => 4,
            FieldTag::CalleeAddress => 5,
            FieldTag::IsCreate => 6,
            FieldTag::Value => 7,
            FieldTag::CallDataLength => 8,
            FieldTag::CallDataGasCost => 9,
            FieldTag::TxSignHash => 10,
            FieldTag::CallData => 11,
        }
    }

    /// The tag of the `k`-th static row of a slot.
    pub fn static_at(k: usize) -> (r: FieldTag)
        requires
            k < TX_LEN,
        ensures
            r == static_tag(k as int),
    {
        if k == 0 {
            FieldTag::Nonce
        } else if k == 1 {
            FieldTag::Gas
        } else if k == 2 {
            FieldTag::GasPrice
        } else if k == 3 {
            FieldTag::CallerAddress
        } else if k == 4 {
            FieldTag::CalleeAddress
        } else if k == 5 {
            FieldTag::IsCreate
        } else if k == 6 {
            FieldTag::Value
        } else if k == 7 {
            FieldTag::CallDataLength
        } else if k == 8 {
            FieldTag::CallDataGasCost
        } else {
            FieldTag::TxSignHash
        }
    }
}

} // verus!

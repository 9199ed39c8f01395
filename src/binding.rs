use vstd::prelude::*;

use crate::field::TX_LEN;
use crate::table::{SignatureVerification, TxCircuitError, TxTable};

verus! {

/// One of the two 128-bit limbs of a word.
#[derive(Clone, Copy, Debug, PartialEq, Eq, Structural)]
pub enum Limb {
    Lo,
    Hi,
}

/// An output of the signature verification component.
#[derive(Clone, Copy, Debug, PartialEq, Eq, Structural)]
pub enum SignField {
    Address,
    MsgHash,
}

/// A declared equality between one limb of a table row's value and the same
/// limb of a signature verification output.
#[derive(Clone, Copy, Debug, PartialEq, Eq, Structural)]
pub struct Binding {
    /// The row of the table.
    pub row: usize,
    pub limb: Limb,
    /// The slot whose signature verification result is bound.
    pub slot: usize,
    pub field: SignField,
}

/// The row of slot `i` that holds the caller address.
pub open spec fn caller_row(i: int) -> int {
    1 + 10 * i + 3
}

/// The row of slot `i` that holds the signature hash.
pub open spec fn sign_hash_row(i: int) -> int {
    1 + 10 * i + 9
}

/// The `m`-th of the four bindings of slot `i`: the caller address, low then
/// high limb, then the signature hash, low then high limb.
pub open spec fn slot_binding(i: int, m: int) -> Binding {
    Binding {
        row: (if m < 2 {
            caller_row(i)
        } else {
            sign_hash_row(i)
        }) as usize,
        limb: if m % 2 == 0 {
            Limb::Lo
        } else {
            Limb::Hi
        },
        slot: i as usize,
        field: if m < 2 {
            SignField::Address
        } else {
            SignField::MsgHash
        },
    }
}

/// All bindings of a table with `max_txs` slots, four per slot in slot order.
pub open spec fn bindings_for(max_txs: nat) -> Seq<Binding> {
    Seq::new(4 * max_txs, |b: int| slot_binding(b / 4, b % 4))
}

/// Declares, for every slot of `table`, the equality of its caller address
/// and its signature hash with the address and the message hash that
/// `sign_results` holds for the slot, both limbs each.
pub fn bind_signatures(table: &TxTable, sign_results: &Vec<SignatureVerification>) -> (r: Result<
    Vec<Binding>,
    TxCircuitError,
>)
    requires
        table.wf(),
    ensures
        match r {
            Ok(b) => sign_results@.len() >= table.max_txs && b@ == bindings_for(
                table.max_txs as nat,
            ),
            Err(e) => sign_results@.len() < table.max_txs && e == TxCircuitError::BindingRangeError,
        },
{
    let max_txs = table.max_txs;
    if sign_results.len() < max_txs {
        return Err(TxCircuitError::BindingRangeError);
    }
    let ghost all = bindings_for(max_txs as nat);
    let mut bindings: Vec<Binding> = Vec::new();
    let mut i: usize = 0;
    while i < max_txs
        invariant
            i <= max_txs,
            TX_LEN * max_txs < usize::MAX,
            all == bindings_for(max_txs as nat),
            bindings@ == all.take(4 * i),
        decreases max_txs - i,
    {
        let caller = 1 + TX_LEN * i + 3;
        let hash = 1 + TX_LEN * i + 9;
        let slot_bindings = [
            Binding { row: caller, limb: Limb::Lo, slot: i, field: SignField::Address },
            Binding { row: caller, limb: Limb::Hi, slot: i, field: SignField::Address },
            Binding { row: hash, limb: Limb::Lo, slot: i, field: SignField::MsgHash },
            Binding { row: hash, limb: Limb::Hi, slot: i, field: SignField::MsgHash },
        ];
        let mut m: usize = 0;
        while m < 4
            invariant
                i < max_txs,
                m <= 4,
                caller == caller_row(i as int),
                hash == sign_hash_row(i as int),
                all == bindings_for(max_txs as nat),
                forall|n: int| 0 <= n < 4 ==> #[trigger] slot_bindings[n] == slot_binding(i as int, n),
                bindings@ == all.take(4 * i + m),
            decreases 4 - m,
        {
            let b = slot_bindings[m];
            assert((4 * i + m) / 4 == i && (4 * i + m) % 4 == m) by {
                vstd::arithmetic::div_mod::lemma_fundamental_div_mod_converse(
                    4 * i + m,
                    4,
                    i as int,
                    m as int,
                );
            }
            assert(all.take(4 * i + m + 1) =~= all.take(4 * i + m).push(b));
            bindings.push(b);
            m = m + 1;
        }
        i = i + 1;
    }
    assert(all.take(4 * max_txs) =~= all);
    Ok(bindings)
}

} // verus!

//! Transactions as the values that signing and analysis read.

use vstd::prelude::*;
use bitcoin::Witness;

verus! {

/// One input: the output it spends, its sequence number and its witness.
#[derive(Clone, Debug)]
pub struct TxInput {
    pub prev_txid: [u8; 32],
    pub prev_vout: u32,
    pub sequence: u32,
    pub witness: Witness,
}

/// One output: an amount locked by a script.
#[derive(Clone, Debug)]
pub struct TxOutput {
    pub amount: u64,
    pub script: Vec<u8>,
}

/// An output that an input spends, with the place where it was created.
#[derive(Clone, Debug)]
pub struct PreviousOutput {
    pub txid: [u8; 32],
    pub vout: u32,
    pub script: Vec<u8>,
    pub amount: u64,
}

/// A transaction that spends previous outputs.
#[derive(Clone, Debug)]
pub struct SpendTransaction {
    pub version: i32,
    pub lock_time: u32,
    pub inputs: Vec<TxInput>,
    pub outputs: Vec<TxOutput>,
}

/// A transaction as the chain reports it once confirmed.
#[derive(Clone, Debug)]
pub struct ConfirmedTransaction {
    pub txid: [u8; 32],
    pub tx: SpendTransaction,
    pub confirmations: i32,
    pub block_height: Option<u32>,
}

impl TxInput {
    /// What a signature covers of the input: the spent outpoint and the
    /// sequence number, not the witness.
    pub open spec fn signed_part(self) -> (Seq<u8>, u32, u32) {
        (self.prev_txid@, self.prev_vout, self.sequence)
    }
}

impl View for TxOutput {
    type V = (u64, Seq<u8>);

    open spec fn view(&self) -> (u64, Seq<u8>) {
        (self.amount, self.script@)
    }
}

impl PreviousOutput {
    /// The amount and script of the output.
    pub open spec fn spent(self) -> (u64, Seq<u8>) {
        (self.amount, self.script@)
    }
}

/// What a signature covers of each input of a list.
pub open spec fn signed_parts(inputs: Seq<TxInput>) -> Seq<(Seq<u8>, u32, u32)> {
    Seq::new(inputs.len(), |i: int| inputs[i].signed_part())
}

/// The amount and script of each output of a list.
pub open spec fn output_views(outputs: Seq<TxOutput>) -> Seq<(u64, Seq<u8>)> {
    Seq::new(outputs.len(), |i: int| outputs[i]@)
}

/// The amount and script of each previous output of a list.
pub open spec fn spent_views(prevouts: Seq<PreviousOutput>) -> Seq<(u64, Seq<u8>)> {
    Seq::new(prevouts.len(), |i: int| prevouts[i].spent())
}

/// The sum of the amounts of a list of outputs.
pub open spec fn total_amount(outputs: Seq<TxOutput>) -> int
    decreases outputs.len(),
{
    if outputs.len() == 0 {
        0
    } else {
        total_amount(outputs.drop_last()) + outputs.last().amount
    }
}

/// The sum of at most `usize::MAX` amounts fits in 128 bits.
pub proof fn total_amount_bounds(outputs: Seq<TxOutput>)
    ensures
        0 <= total_amount(outputs) <= outputs.len() * u64::MAX,
    decreases outputs.len(),
{
    if outputs.len() > 0 {
        total_amount_bounds(outputs.drop_last());
        assert((outputs.len() - 1) * u64::MAX + u64::MAX == outputs.len() * u64::MAX)
            by (nonlinear_arith);
    }
}

impl SpendTransaction {
    /// The sum of the output amounts.
    pub fn total_output(&self) -> (total: u128)
        ensures
            total == total_amount(self.outputs@),
    {
        let mut total: u128 = 0;
        let mut i: usize = 0;
        while i < self.outputs.len()
            invariant
                i <= self.outputs@.len(),
                total == total_amount(self.outputs@.take(i as int)),
            decreases self.outputs@.len() - i,
        {
            proof {
                let next = self.outputs@.take(i + 1);
                assert(next.drop_last() =~= self.outputs@.take(i as int));
                total_amount_bounds(next);
                assert(next.len() * u64::MAX <= usize::MAX * u64::MAX) by (nonlinear_arith)
                    requires
                        next.len() <= usize::MAX,
                ;
            }
            total = total + self.outputs[i].amount as u128;
            i = i + 1;
        }
        assert(self.outputs@.take(i as int) =~= self.outputs@);
        total
    }
}

} // verus!

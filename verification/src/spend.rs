//! Building the transaction that spends a funded Taproot output by its
//! script path.

use vstd::prelude::*;
use bitcoin::Witness;
use crate::bytes::{bytes_equal, bytes_to_vec};
use crate::classify::{script_type, ScriptType};
use crate::taproot::{
    p2tr_script, single_leaf_control_block, single_leaf_control_block_encoding,
    TaprootCommitment,
};
use crate::transaction::{
    total_amount, ConfirmedTransaction, PreviousOutput, SpendTransaction, TxInput, TxOutput,
};
use crate::tx_analyzer::{
    all_resolved, fee_of, first_spender, lookup, no_spender, relation_at, relation_by,
    relation_matches, resolved_output, spends_from, total_input,
};
use crate::simple_script::MAX_LEAF_SCRIPT_LEN;
use crate::witness::{assemble, script_path_items, witness_items, witness_new, WitnessError};

verus! {

/// The transaction version of a spend.
pub const SPEND_VERSION: i32 = 2;

/// The sequence number of the input of a spend: final.
pub const SEQUENCE_FINAL: u32 = 0xFFFF_FFFF;

/// Why no spend can be built.
#[derive(Clone, Copy, Debug, PartialEq, Eq, Structural)]
pub enum SpendError {
    /// No output of the funding transaction pays to the script.
    OutputNotFound,
    /// The fee exceeds the amount to spend.
    InsufficientFunds { available: u64, fee: u64 },
    /// The transaction has no input at the index.
    NoSuchInput { index: usize, inputs: usize },
}

/// Whether output `i` is the first of `outputs` that pays to `script`.
pub open spec fn first_paying(outputs: Seq<TxOutput>, script: Seq<u8>, i: int) -> bool {
    &&& 0 <= i < outputs.len()
    &&& outputs[i].script@ == script
    &&& forall|j: int| 0 <= j < i ==> (#[trigger] outputs[j]).script@ != script
}

/// The index of the first output of `tx` that pays to `script`.
pub fn find_output(tx: &SpendTransaction, script: &[u8]) -> (found: Option<usize>)
    ensures
        match found {
            Some(i) => first_paying(tx.outputs@, script@, i as int),
            None => forall|j: int|
                0 <= j < tx.outputs@.len() ==> (#[trigger] tx.outputs@[j]).script@ != script@,
        },
{
    let mut i: usize = 0;
    while i < tx.outputs.len()
        invariant
            i <= tx.outputs@.len(),
            forall|j: int| 0 <= j < i ==> (#[trigger] tx.outputs@[j]).script@ != script@,
        decreases tx.outputs@.len() - i,
    {
        if bytes_equal(tx.outputs[i].script.as_slice(), script) {
            return Some(i);
        }
        i = i + 1;
    }
    None
}

/// The first output of `funding` that pays to `script`, as an output to
/// spend. An output whose index does not fit an outpoint cannot be spent, so
/// it counts as not found.
pub fn funding_output(funding: &ConfirmedTransaction, script: &[u8]) -> (res: Result<
    PreviousOutput,
    SpendError,
>)
    ensures
        match res {
            Ok(prev) => {
                &&& first_paying(funding.tx.outputs@, script@, prev.vout as int)
                &&& prev.txid == funding.txid
                &&& prev.script@ == script@
                &&& prev.amount == funding.tx.outputs@[prev.vout as int].amount
            },
            Err(e) => {
                &&& e == SpendError::OutputNotFound
                &&& forall|i: int|
                    first_paying(funding.tx.outputs@, script@, i) ==> i > u32::MAX
            },
        },
{
    match find_output(&funding.tx, script) {
        Some(i) => {
            if i > u32::MAX as usize {
                Err(SpendError::OutputNotFound)
            } else {
                Ok(
                    PreviousOutput {
                        txid: funding.txid,
                        vout: i as u32,
                        script: bytes_to_vec(script),
                        amount: funding.tx.outputs[i].amount,
                    },
                )
            }
        },
        None => Err(SpendError::OutputNotFound),
    }
}

/// Whether `tx` spends `prev` alone and pays all of it but `fee` to
/// `destination`, the witness apart.
pub open spec fn is_spend_of(
    tx: SpendTransaction,
    prev: PreviousOutput,
    destination: Seq<u8>,
    fee: u64,
) -> bool {
    &&& tx.version == SPEND_VERSION
    &&& tx.lock_time == 0
    &&& tx.inputs@.len() == 1
    &&& tx.inputs@[0].prev_txid == prev.txid
    &&& tx.inputs@[0].prev_vout == prev.vout
    &&& tx.inputs@[0].sequence == SEQUENCE_FINAL
    &&& tx.outputs@.len() == 1
    &&& tx.outputs@[0].script@ == destination
    &&& tx.outputs@[0].amount == prev.amount - fee
}

/// Builds the transaction that spends `prev` and pays its amount less `fee`
/// to `destination`. Its input has an empty witness, as signing needs it.
pub fn build_spend(prev: &PreviousOutput, destination: &[u8], fee: u64) -> (res: Result<
    SpendTransaction,
    SpendError,
>)
    ensures
        match res {
            Ok(tx) => {
                &&& fee <= prev.amount
                &&& is_spend_of(tx, *prev, destination@, fee)
                &&& witness_items(tx.inputs@[0].witness) == Seq::<Seq<u8>>::empty()
            },
            Err(e) => fee > prev.amount && e == (SpendError::InsufficientFunds {
                available: prev.amount,
                fee,
            }),
        },
{
    if fee > prev.amount {
        return Err(SpendError::InsufficientFunds { available: prev.amount, fee });
    }
    let mut inputs: Vec<TxInput> = Vec::new();
    inputs.push(
        TxInput {
            prev_txid: prev.txid,
            prev_vout: prev.vout,
            sequence: SEQUENCE_FINAL,
            witness: witness_new(),
        },
    );
    let mut outputs: Vec<TxOutput> = Vec::new();
    outputs.push(TxOutput { amount: prev.amount - fee, script: bytes_to_vec(destination) });
    Ok(SpendTransaction { version: SPEND_VERSION, lock_time: 0, inputs, outputs })
}

/// The witness that spends the committed leaf with `signature`: the two
/// halves of the signature, the leaf script, and the serialized control
/// block of the leaf.
pub fn script_path_witness(commitment: &TaprootCommitment, signature: &[u8]) -> (res: Result<
    Witness,
    WitnessError,
>)
    requires
        commitment.leaf@.len() <= MAX_LEAF_SCRIPT_LEN,
    ensures
        match res {
            Ok(witness) => signature@.len() == 64 && witness_items(witness) == script_path_items(
                signature@,
                commitment.leaf@,
                single_leaf_control_block(commitment.output_key_odd, commitment.internal_key@),
            ),
            Err(e) => signature@.len() != 64 && e == (WitnessError::UnexpectedSignatureLength {
                length: signature@.len() as usize,
            }),
        },
{
    let block = commitment.leaf_control_block();
    let bytes = block.serialize();
    proof {
        single_leaf_control_block_encoding(block);
    }
    assemble(signature, &commitment.leaf, bytes.as_slice())
}

/// Puts `witness` on input `input_index` of `tx`; nothing else changes.
pub fn attach_witness(tx: &mut SpendTransaction, input_index: usize, witness: Witness) -> (res:
    Result<(), SpendError>)
    ensures
        final(tx).version == old(tx).version,
        final(tx).lock_time == old(tx).lock_time,
        final(tx).outputs == old(tx).outputs,
        final(tx).inputs@.len() == old(tx).inputs@.len(),
        match res {
            Ok(_) => {
                &&& input_index < old(tx).inputs@.len()
                &&& final(tx).inputs@ == old(tx).inputs@.update(
                    input_index as int,
                    TxInput {
                        prev_txid: old(tx).inputs@[input_index as int].prev_txid,
                        prev_vout: old(tx).inputs@[input_index as int].prev_vout,
                        sequence: old(tx).inputs@[input_index as int].sequence,
                        witness,
                    },
                )
            },
            Err(e) => {
                &&& input_index >= old(tx).inputs@.len()
                &&& final(tx).inputs@ == old(tx).inputs@
                &&& e == SpendError::NoSuchInput {
                    index: input_index,
                    inputs: old(tx).inputs@.len() as usize,
                }
            },
        },
{
    if input_index >= tx.inputs.len() {
        return Err(SpendError::NoSuchInput { index: input_index, inputs: tx.inputs.len() });
    }
    let prev_txid = tx.inputs[input_index].prev_txid;
    let prev_vout = tx.inputs[input_index].prev_vout;
    let sequence = tx.inputs[input_index].sequence;
    tx.inputs[input_index] = TxInput { prev_txid, prev_vout, sequence, witness };
    Ok(())
}

/// The output script of a commitment is a Taproot script.
pub proof fn output_script_is_p2tr(output_key: Seq<u8>)
    requires
        output_key.len() == 32,
    ensures
        p2tr_script(output_key).len() == 34,
        script_type(p2tr_script(output_key)) == ScriptType::P2TR,
{
}

/// A spend that was built with a fee relates to its funding transaction by
/// that fee: the input amount is the funded amount, the outputs hold the
/// amount less the fee, and the witness shape matches exactly when the
/// input carries four witness items.
pub proof fn spend_relates_by_its_fee(
    funding: ConfirmedTransaction,
    spending: ConfirmedTransaction,
    prev: PreviousOutput,
    destination: Seq<u8>,
    fee: u64,
)
    requires
        prev.txid == funding.txid,
        prev.vout < funding.tx.outputs@.len(),
        prev.amount == funding.tx.outputs@[prev.vout as int].amount,
        fee <= prev.amount,
        is_spend_of(spending.tx, prev, destination, fee),
    ensures
        relation_at(funding, spending, 0) matches Ok(report) && {
            &&& report.funding_vout == prev.vout
            &&& report.input_index == 0
            &&& report.input_amount == prev.amount
            &&& report.total_output == prev.amount - fee
            &&& report.fee == fee
            &&& report.witness_shape_matches == (witness_items(
                spending.tx.inputs@[0].witness,
            ).len() == 4)
        },
        relation_matches(funding, spending, relation_by(funding, spending, 0)),
{
    let outputs = spending.tx.outputs@;
    assert(outputs.drop_last().len() == 0);
    assert(total_amount(outputs.drop_last()) == 0);
    assert(total_amount(outputs) == prev.amount - fee);
    assert(spends_from(spending.tx.inputs@[0], funding));
    assert(first_spender(spending.tx.inputs@, funding, 0));
    assert(!no_spender(spending.tx.inputs@, funding));
}

/// Where the funding transaction is known, a spend that was built with a
/// positive fee has that fee, and one built without a fee has none.
pub proof fn spend_has_its_fee(
    chain: Seq<ConfirmedTransaction>,
    funding: ConfirmedTransaction,
    tx: SpendTransaction,
    prev: PreviousOutput,
    destination: Seq<u8>,
    fee: u64,
)
    requires
        lookup(chain, prev.txid@) == Some(funding),
        prev.vout < funding.tx.outputs@.len(),
        prev.amount == funding.tx.outputs@[prev.vout as int].amount,
        fee <= prev.amount,
        is_spend_of(tx, prev, destination, fee),
    ensures
        fee > 0 ==> fee_of(chain, tx) == Some(fee as int),
        fee == 0 ==> fee_of(chain, tx) is None,
{
    let outputs = tx.outputs@;
    assert(outputs.drop_last().len() == 0);
    assert(total_amount(outputs.drop_last()) == 0);
    assert(total_amount(outputs) == prev.amount - fee);
    let inputs = tx.inputs@;
    assert(inputs.drop_last().len() == 0);
    assert(total_input(chain, inputs.drop_last()) == 0);
    assert(inputs.last() == inputs[0]);
    assert(resolved_output(chain, inputs[0]) == Some(funding.tx.outputs@[prev.vout as int]));
    assert(total_input(chain, inputs) == prev.amount);
    assert(all_resolved(chain, inputs));
}

} // verus!

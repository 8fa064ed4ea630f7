//! The digest that a signature for a script-path spend commits to.

use vstd::prelude::*;
use bitcoin::hashes::Hash as _;
use bitcoin::sighash::{Prevouts, SighashCache, TapSighashType};
use bitcoin::absolute::LockTime;
use bitcoin::transaction::Version;
use bitcoin::{Amount, OutPoint, Sequence, TapLeafHash, Transaction, TxIn, TxOut, Txid};
use crate::simple_script::LeafScript;
use crate::taproot::{leaf_hash_of, tap_leaf_hash};
use crate::transaction::{
    output_views, signed_parts, spent_views, PreviousOutput, SpendTransaction, TxInput, TxOutput,
};

verus! {

/// Which parts of the transaction a signature commits to.
#[derive(Clone, Copy, Debug, PartialEq, Eq, Structural)]
pub enum SighashType {
    /// All inputs and all outputs, without a hash type byte in the signature.
    AllImplicit,
    /// All inputs and all outputs.
    All,
    /// All inputs and no output.
    NoOutputs,
    /// All inputs and the output at the index of the signed input.
    SingleOutput,
    /// The signed input alone and all outputs.
    AllAnyoneCanPay,
    /// The signed input alone and no output.
    NoOutputsAnyoneCanPay,
    /// The signed input alone and the output at its index.
    SingleOutputAnyoneCanPay,
}

impl SighashType {
    /// The hash type byte.
    pub open spec fn byte(self) -> u8 {
        match self {
            SighashType::AllImplicit => 0x00,
            SighashType::All => 0x01,
            SighashType::NoOutputs => 0x02,
            SighashType::SingleOutput => 0x03,
            SighashType::AllAnyoneCanPay => 0x81,
            SighashType::NoOutputsAnyoneCanPay => 0x82,
            SighashType::SingleOutputAnyoneCanPay => 0x83,
        }
    }

    /// Whether the type commits to the one output at the input's index.
    pub open spec fn commits_single_output(self) -> bool {
        self == SighashType::SingleOutput || self == SighashType::SingleOutputAnyoneCanPay
    }

    /// The hash type byte.
    pub fn to_byte(self) -> (byte: u8)
        ensures
            byte == self.byte(),
    {
        match self {
            SighashType::AllImplicit => 0x00,
            SighashType::All => 0x01,
            SighashType::NoOutputs => 0x02,
            SighashType::SingleOutput => 0x03,
            SighashType::AllAnyoneCanPay => 0x81,
            SighashType::NoOutputsAnyoneCanPay => 0x82,
            SighashType::SingleOutputAnyoneCanPay => 0x83,
        }
    }
}

/// Why no digest can be computed.
#[derive(Clone, Copy, Debug, PartialEq, Eq, Structural)]
pub enum SighashError {
    /// The number of previous outputs differs from the number of inputs.
    PrevoutsMismatch { inputs: usize, previous_outputs: usize },
    /// The transaction has no input at the index.
    InputIndexOutOfRange { index: u32, inputs: usize },
    /// The hash type commits to the output at the input's index, and the
    /// transaction has no output there.
    MissingSingleOutput { index: u32, outputs: usize },
}

/// Whether a byte is a hash type byte.
pub open spec fn is_hash_type_byte(byte: u8) -> bool {
    byte == 0x00 || byte == 0x01 || byte == 0x02 || byte == 0x03 || byte == 0x81 || byte == 0x82
        || byte == 0x83
}

/// The script-path signature hash of input `input_index` of a transaction
/// with the given version, lock time, inputs (outpoint and sequence number)
/// and outputs (amount and script), where `prevouts` are the amounts and
/// scripts of the outputs that the inputs spend, `leaf_hash` is the hash of
/// the leaf that runs, and `hash_type` is the hash type byte.
pub uninterp spec fn tap_script_sighash(
    version: i32,
    lock_time: u32,
    inputs: Seq<(Seq<u8>, u32, u32)>,
    outputs: Seq<(u64, Seq<u8>)>,
    input_index: usize,
    prevouts: Seq<(u64, Seq<u8>)>,
    leaf_hash: Seq<u8>,
    hash_type: u8,
) -> Seq<u8>;

/// `SighashCache::taproot_script_spend_signature_hash` on the transaction
/// with these parts, an empty script signature and witness in every input,
/// and all previous outputs. The call succeeds where there is one previous
/// output for each input, the index names an input and, for a hash type that
/// commits to a single output, an output as well; `tap_script_sighash` names
/// its result.
#[verifier::external_body]
fn script_spend_signature_hash(
    version: i32,
    lock_time: u32,
    inputs: &Vec<TxInput>,
    outputs: &Vec<TxOutput>,
    input_index: usize,
    spent: &Vec<TxOutput>,
    leaf_hash: [u8; 32],
    hash_type: u8,
) -> (digest: [u8; 32])
    requires
        is_hash_type_byte(hash_type),
        spent@.len() == inputs@.len(),
        input_index < inputs@.len(),
        hash_type == 0x03 || hash_type == 0x83 ==> input_index < outputs@.len(),
    ensures
        digest@ == tap_script_sighash(
            version,
            lock_time,
            signed_parts(inputs@),
            output_views(outputs@),
            input_index,
            output_views(spent@),
            leaf_hash@,
            hash_type,
        ),
{
    let txout = |o: &TxOutput| TxOut {
        value: Amount::from_sat(o.amount), script_pubkey: o.script.clone().into() };
    SighashCache::new(Transaction {
        version: Version(version), lock_time: LockTime::from_consensus(lock_time),
        input: inputs.iter().map(|i| TxIn {
            previous_output: OutPoint::new(Txid::from_byte_array(i.prev_txid), i.prev_vout),
            sequence: Sequence(i.sequence), ..Default::default() }).collect(),
        output: outputs.iter().map(txout).collect() })
    .taproot_script_spend_signature_hash(
        input_index, &Prevouts::All(&spent.iter().map(txout).collect::<Vec<_>>()),
        TapLeafHash::from_byte_array(leaf_hash),
        TapSighashType::from_consensus_u8(hash_type).unwrap())
    .unwrap().to_byte_array()
}

/// The reason, if there is one, why input `input_index` of `tx` cannot be
/// signed with `previous_outputs` outputs to spend.
pub open spec fn signing_error(
    tx: SpendTransaction,
    input_index: u32,
    previous_outputs: nat,
    hash_type: SighashType,
) -> Option<SighashError> {
    if previous_outputs != tx.inputs@.len() {
        Some(
            SighashError::PrevoutsMismatch {
                inputs: tx.inputs@.len() as usize,
                previous_outputs: previous_outputs as usize,
            },
        )
    } else if input_index >= tx.inputs@.len() {
        Some(
            SighashError::InputIndexOutOfRange {
                index: input_index,
                inputs: tx.inputs@.len() as usize,
            },
        )
    } else if hash_type.commits_single_output() && input_index >= tx.outputs@.len() {
        Some(
            SighashError::MissingSingleOutput {
                index: input_index,
                outputs: tx.outputs@.len() as usize,
            },
        )
    } else {
        None
    }
}

/// The digest to sign for spending input `input_index` of `tx` by running
/// `leaf`.
pub open spec fn digest_of(
    tx: SpendTransaction,
    input_index: u32,
    previous_outputs: Seq<PreviousOutput>,
    leaf: Seq<u8>,
    hash_type: SighashType,
) -> Seq<u8> {
    tap_script_sighash(
        tx.version,
        tx.lock_time,
        signed_parts(tx.inputs@),
        output_views(tx.outputs@),
        input_index as usize,
        spent_views(previous_outputs),
        tap_leaf_hash(leaf),
        hash_type.byte(),
    )
}

/// Checks that input `input_index` of `tx` can be signed, given the number
/// of previous outputs at hand.
pub fn check_signing_inputs(
    tx: &SpendTransaction,
    input_index: u32,
    previous_outputs: usize,
    hash_type: SighashType,
) -> (res: Result<(), SighashError>)
    ensures
        match signing_error(*tx, input_index, previous_outputs as nat, hash_type) {
            Some(e) => res == Err::<(), SighashError>(e),
            None => res == Ok::<(), SighashError>(()),
        },
{
    let inputs = tx.inputs.len();
    let outputs = tx.outputs.len();
    let single = match hash_type {
        SighashType::SingleOutput => true,
        SighashType::SingleOutputAnyoneCanPay => true,
        _ => false,
    };
    if previous_outputs != inputs {
        Err(SighashError::PrevoutsMismatch { inputs, previous_outputs })
    } else if input_index as usize >= inputs {
        Err(SighashError::InputIndexOutOfRange { index: input_index, inputs })
    } else if single && input_index as usize >= outputs {
        Err(SighashError::MissingSingleOutput { index: input_index, outputs })
    } else {
        Ok(())
    }
}

/// The amounts and scripts of a list of previous outputs, as outputs.
fn spent_outputs(previous_outputs: &[PreviousOutput]) -> (spent: Vec<TxOutput>)
    ensures
        output_views(spent@) == spent_views(previous_outputs@),
        spent@.len() == previous_outputs@.len(),
{
    let mut spent: Vec<TxOutput> = Vec::new();
    let mut i: usize = 0;
    while i < previous_outputs.len()
        invariant
            i <= previous_outputs@.len(),
            spent@.len() == i,
            forall|j: int| 0 <= j < i ==> spent@[j]@ == previous_outputs@[j].spent(),
        decreases previous_outputs@.len() - i,
    {
        let prev = &previous_outputs[i];
        spent.push(TxOutput { amount: prev.amount, script: prev.script.clone() });
        i = i + 1;
    }
    assert(output_views(spent@) =~= spent_views(previous_outputs@));
    spent
}

/// The digest that a signature must sign to spend input `input_index` of
/// `tx` by running `leaf`. The witnesses of the transaction play no part.
pub fn digest(
    tx: &SpendTransaction,
    input_index: u32,
    all_previous_outputs: &[PreviousOutput],
    leaf: &LeafScript,
    hash_type: SighashType,
) -> (res: Result<[u8; 32], SighashError>)
    ensures
        match signing_error(*tx, input_index, all_previous_outputs@.len(), hash_type) {
            Some(e) => res == Err::<[u8; 32], SighashError>(e),
            None => res matches Ok(d) && d@ == digest_of(
                *tx,
                input_index,
                all_previous_outputs@,
                leaf@,
                hash_type,
            ),
        },
{
    match check_signing_inputs(tx, input_index, all_previous_outputs.len(), hash_type) {
        Err(e) => Err(e),
        Ok(_) => {
            let spent = spent_outputs(all_previous_outputs);
            let leaf_hash = leaf_hash_of(leaf.bytes.as_slice());
            let byte = hash_type.to_byte();
            Ok(
                script_spend_signature_hash(
                    tx.version,
                    tx.lock_time,
                    &tx.inputs,
                    &tx.outputs,
                    input_index as usize,
                    &spent,
                    leaf_hash,
                    byte,
                ),
            )
        },
    }
}

/// The digest does not depend on witnesses: two transactions that differ
/// in nothing but the witnesses of their inputs are rejected alike and have
/// the same digest.
pub proof fn digest_ignores_witnesses(
    a: SpendTransaction,
    b: SpendTransaction,
    input_index: u32,
    previous_outputs: Seq<PreviousOutput>,
    leaf: Seq<u8>,
    hash_type: SighashType,
)
    requires
        a.version == b.version,
        a.lock_time == b.lock_time,
        a.outputs@ == b.outputs@,
        a.inputs@.len() == b.inputs@.len(),
        forall|i: int|
            0 <= i < a.inputs@.len() ==> a.inputs@[i].signed_part() == b.inputs@[i].signed_part(),
    ensures
        signing_error(a, input_index, previous_outputs.len(), hash_type) == signing_error(
            b,
            input_index,
            previous_outputs.len(),
            hash_type,
        ),
        digest_of(a, input_index, previous_outputs, leaf, hash_type) == digest_of(
            b,
            input_index,
            previous_outputs,
            leaf,
            hash_type,
        ),
{
    assert(signed_parts(a.inputs@) =~= signed_parts(b.inputs@));
}

/// An output amount is part of what is hashed: two lists of outputs that
/// differ in the amount at one index are handed to the hash as different
/// values.
pub proof fn output_amount_is_hashed(a: Seq<TxOutput>, b: Seq<TxOutput>, i: int)
    requires
        a.len() == b.len(),
        0 <= i < a.len(),
        a[i].amount != b[i].amount,
    ensures
        output_views(a) != output_views(b),
{
    assert(output_views(a)[i].0 == a[i].amount);
    assert(output_views(b)[i].0 == b[i].amount);
}

} // verus!

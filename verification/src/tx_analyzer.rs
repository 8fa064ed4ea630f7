//! Queries over confirmed transactions: script kinds, fees, witness slots
//! and the relation between a funding and a spending transaction.

use vstd::prelude::*;
use crate::bytes::bytes_equal;
use crate::classify::{classify, script_type, ScriptType};
use crate::transaction::{
    total_amount, ConfirmedTransaction, PreviousOutput, SpendTransaction, TxInput, TxOutput,
};
use crate::witness::{script_path_items, witness_items, witness_len, witness_nth};

verus! {

/// What a witness item is, by its position in a script-path spend of the
/// concatenating leaf.
#[derive(Clone, Copy, Debug, PartialEq, Eq, Structural)]
pub enum SlotRole {
    /// The first half of the signature.
    R,
    /// The second half of the signature.
    S,
    /// The leaf script.
    Script,
    /// The control block.
    ControlBlock,
    /// An item beyond the four of that shape.
    Opaque,
}

/// The role of the witness item at `index`.
pub open spec fn slot_role(index: int) -> SlotRole {
    if index == 0 {
        SlotRole::R
    } else if index == 1 {
        SlotRole::S
    } else if index == 2 {
        SlotRole::Script
    } else if index == 3 {
        SlotRole::ControlBlock
    } else {
        SlotRole::Opaque
    }
}

impl SlotRole {
    /// The name under which a report shows the role.
    pub fn label(self) -> (name: &'static str)
        ensures
            name@ == match self {
                SlotRole::R => "r part"@,
                SlotRole::S => "s part"@,
                SlotRole::Script => "script"@,
                SlotRole::ControlBlock => "control block"@,
                SlotRole::Opaque => "Data"@,
            },
    {
        match self {
            SlotRole::R => "r part",
            SlotRole::S => "s part",
            SlotRole::Script => "script",
            SlotRole::ControlBlock => "control block",
            SlotRole::Opaque => "Data",
        }
    }
}

/// What an analysis can report as failed.
#[derive(Clone, Debug, PartialEq, Eq)]
pub enum AnalysisError {
    /// No transaction with this id is known.
    UnknownTransaction { txid: [u8; 32] },
    /// Input `input_index` of transaction `txid` spends output `prev_vout`
    /// of `prev_txid`, and no such output is known.
    PrevoutUnresolved {
        txid: [u8; 32],
        input_index: usize,
        prev_txid: [u8; 32],
        prev_vout: u32,
    },
    /// The outputs of transaction `txid` add up to more than the amount that
    /// its input `input_index` spends.
    NegativeFeeAnomaly {
        txid: [u8; 32],
        input_index: usize,
        input_amount: u64,
        total_output: u128,
    },
}

/// The first transaction of `chain` with the given id.
pub open spec fn lookup(chain: Seq<ConfirmedTransaction>, txid: Seq<u8>) -> Option<
    ConfirmedTransaction,
>
    decreases chain.len(),
{
    if chain.len() == 0 {
        None
    } else if chain[0].txid@ == txid {
        Some(chain[0])
    } else {
        lookup(chain.drop_first(), txid)
    }
}

/// The output that `input` spends, where the transaction that created it is
/// in `chain` and has an output at that index.
pub open spec fn resolved_output(chain: Seq<ConfirmedTransaction>, input: TxInput) -> Option<
    TxOutput,
> {
    match lookup(chain, input.prev_txid@) {
        Some(prev) => if input.prev_vout < prev.tx.outputs@.len() {
            Some(prev.tx.outputs@[input.prev_vout as int])
        } else {
            None
        },
        None => None,
    }
}

/// Whether `prev` is the output that `input` spends, with the place where
/// it was created.
pub open spec fn is_prevout_of(
    chain: Seq<ConfirmedTransaction>,
    input: TxInput,
    prev: PreviousOutput,
) -> bool {
    match resolved_output(chain, input) {
        Some(output) => {
            &&& prev.txid == input.prev_txid
            &&& prev.vout == input.prev_vout
            &&& prev.script@ == output.script@
            &&& prev.amount == output.amount
        },
        None => false,
    }
}

/// Whether the output that each input spends is known.
pub open spec fn all_resolved(chain: Seq<ConfirmedTransaction>, inputs: Seq<TxInput>) -> bool {
    forall|i: int| 0 <= i < inputs.len() ==> resolved_output(chain, #[trigger] inputs[i]) is Some
}

/// The sum of the amounts that the inputs spend, an unknown output counting
/// as nothing.
pub open spec fn total_input(chain: Seq<ConfirmedTransaction>, inputs: Seq<TxInput>) -> int
    decreases inputs.len(),
{
    if inputs.len() == 0 {
        0
    } else {
        total_input(chain, inputs.drop_last()) + match resolved_output(chain, inputs.last()) {
            Some(output) => output.amount as int,
            None => 0,
        }
    }
}

/// The fee of a transaction: what its inputs spend less what its outputs
/// hold. There is none where an input's previous output is unknown, or
/// where the inputs do not exceed the outputs.
pub open spec fn fee_of(chain: Seq<ConfirmedTransaction>, tx: SpendTransaction) -> Option<int> {
    if all_resolved(chain, tx.inputs@) && total_input(chain, tx.inputs@) > total_amount(
        tx.outputs@,
    ) {
        Some(total_input(chain, tx.inputs@) - total_amount(tx.outputs@))
    } else {
        None
    }
}

/// The sum of at most `usize::MAX` input amounts fits in 128 bits.
pub proof fn total_input_bounds(chain: Seq<ConfirmedTransaction>, inputs: Seq<TxInput>)
    ensures
        0 <= total_input(chain, inputs) <= inputs.len() * u64::MAX,
    decreases inputs.len(),
{
    if inputs.len() > 0 {
        total_input_bounds(chain, inputs.drop_last());
        assert((inputs.len() - 1) * u64::MAX + u64::MAX == inputs.len() * u64::MAX)
            by (nonlinear_arith);
    }
}

/// One witness item of an input: its position, its role and its length.
#[derive(Clone, Debug, PartialEq, Eq)]
pub struct WitnessSlot {
    pub index: usize,
    pub role: SlotRole,
    pub length: usize,
}

/// One input of an analyzed transaction.
#[derive(Clone, Debug, PartialEq, Eq)]
pub struct InputRecord {
    pub prev_txid: [u8; 32],
    pub prev_vout: u32,
    /// The amount of the output that the input spends, if it is known.
    pub amount: Option<u64>,
    pub witness: Vec<WitnessSlot>,
}

/// One output of an analyzed transaction.
#[derive(Clone, Debug, PartialEq, Eq)]
pub struct OutputRecord {
    pub index: usize,
    pub amount: u64,
    pub script_type: ScriptType,
}

/// What the analysis of one confirmed transaction found.
#[derive(Clone, Debug, PartialEq, Eq)]
pub struct AnalysisRecord {
    pub name: String,
    pub txid: [u8; 32],
    pub confirmations: i32,
    pub block_height: Option<u32>,
    pub fee: Option<u128>,
    pub inputs: Vec<InputRecord>,
    pub outputs: Vec<OutputRecord>,
}

/// How a spending transaction relates to the transaction that funded it.
#[derive(Clone, Copy, Debug, PartialEq, Eq)]
pub struct RelationshipReport {
    /// The index of the funding output that is spent.
    pub funding_vout: u32,
    /// The index of the input that spends it.
    pub input_index: usize,
    pub input_amount: u64,
    pub total_output: u128,
    pub fee: u64,
    /// Whether the witness of the input has the four items of a script-path
    /// spend of the concatenating leaf.
    pub witness_shape_matches: bool,
    /// The lengths of the two signature halves, where the shape matches.
    pub signature_lengths: Option<(usize, usize)>,
}

/// What a batch analysis found: one result for each transaction, and the
/// relation of the second to the first where the batch holds exactly two.
#[derive(Clone, Debug, PartialEq, Eq)]
pub struct FullAnalysis {
    pub records: Vec<Result<AnalysisRecord, AnalysisError>>,
    pub relationship: Option<Result<Option<RelationshipReport>, AnalysisError>>,
}

/// Whether `slots` describe the witness items one by one.
pub open spec fn slots_match(items: Seq<Seq<u8>>, slots: Seq<WitnessSlot>) -> bool {
    &&& slots.len() == items.len()
    &&& forall|k: int|
        0 <= k < slots.len() ==> {
            &&& (#[trigger] slots[k]).index == k
            &&& slots[k].role == slot_role(k)
            &&& slots[k].length == items[k].len()
        }
}

/// Whether `record` describes `input`.
pub open spec fn input_record_matches(
    chain: Seq<ConfirmedTransaction>,
    input: TxInput,
    record: InputRecord,
) -> bool {
    &&& record.prev_txid == input.prev_txid
    &&& record.prev_vout == input.prev_vout
    &&& record.amount == match resolved_output(chain, input) {
        Some(output) => Some(output.amount),
        None => None,
    }
    &&& slots_match(witness_items(input.witness), record.witness@)
}

/// Whether `record` describes the output at `index`.
pub open spec fn output_record_matches(output: TxOutput, index: int, record: OutputRecord) -> bool {
    &&& record.index == index
    &&& record.amount == output.amount
    &&& record.script_type == script_type(output.script@)
}

/// Whether `record`, under `name`, describes the confirmed transaction.
pub open spec fn record_matches(
    chain: Seq<ConfirmedTransaction>,
    confirmed: ConfirmedTransaction,
    name: Seq<char>,
    record: AnalysisRecord,
) -> bool {
    &&& record.name@ == name
    &&& record.txid == confirmed.txid
    &&& record.confirmations == confirmed.confirmations
    &&& record.block_height == confirmed.block_height
    &&& match record.fee {
        Some(amount) => fee_of(chain, confirmed.tx) == Some(amount as int),
        None => fee_of(chain, confirmed.tx) is None,
    }
    &&& record.inputs@.len() == confirmed.tx.inputs@.len()
    &&& forall|i: int|
        0 <= i < record.inputs@.len() ==> input_record_matches(
            chain,
            confirmed.tx.inputs@[i],
            #[trigger] record.inputs@[i],
        )
    &&& record.outputs@.len() == confirmed.tx.outputs@.len()
    &&& forall|i: int|
        0 <= i < record.outputs@.len() ==> output_record_matches(
            confirmed.tx.outputs@[i],
            i,
            #[trigger] record.outputs@[i],
        )
}

/// Whether `res` is the analysis, under `name`, of the transaction with the
/// given id: a record of it, or the error that it is unknown.
pub open spec fn analysis_matches(
    chain: Seq<ConfirmedTransaction>,
    txid: [u8; 32],
    name: Seq<char>,
    res: Result<AnalysisRecord, AnalysisError>,
) -> bool {
    match lookup(chain, txid@) {
        Some(confirmed) => res matches Ok(record) && record_matches(chain, confirmed, name, record),
        None => res == Err::<AnalysisRecord, AnalysisError>(
            AnalysisError::UnknownTransaction { txid },
        ),
    }
}

/// Whether `input` spends an output that `funding` has: it names the
/// transaction and an output index below the number of its outputs.
pub open spec fn spends_from(input: TxInput, funding: ConfirmedTransaction) -> bool {
    input.prev_txid@ == funding.txid@ && input.prev_vout < funding.tx.outputs@.len()
}

/// Whether input `i` is the first that spends an output of `funding`.
pub open spec fn first_spender(
    inputs: Seq<TxInput>,
    funding: ConfirmedTransaction,
    i: int,
) -> bool {
    &&& 0 <= i < inputs.len()
    &&& spends_from(inputs[i], funding)
    &&& forall|j: int| 0 <= j < i ==> !spends_from(#[trigger] inputs[j], funding)
}

/// Whether no input spends an output of `funding`.
pub open spec fn no_spender(inputs: Seq<TxInput>, funding: ConfirmedTransaction) -> bool {
    forall|j: int| 0 <= j < inputs.len() ==> !spends_from(#[trigger] inputs[j], funding)
}

/// The relation that input `i` of `spending`, which spends an output of
/// `funding`, makes with it: the amount it spends, the outputs it pays, and
/// the fee that is left. Outputs that add up to more than the amount are an
/// anomaly.
pub open spec fn relation_at(
    funding: ConfirmedTransaction,
    spending: ConfirmedTransaction,
    i: int,
) -> Result<RelationshipReport, AnalysisError> {
    let input = spending.tx.inputs@[i];
    let items = witness_items(input.witness);
    let total = total_amount(spending.tx.outputs@);
    let amount = funding.tx.outputs@[input.prev_vout as int].amount;
    if total > amount {
        Err(
            AnalysisError::NegativeFeeAnomaly {
                txid: spending.txid,
                input_index: i as usize,
                input_amount: amount,
                total_output: total as u128,
            },
        )
    } else {
        Ok(
            RelationshipReport {
                funding_vout: input.prev_vout,
                input_index: i as usize,
                input_amount: amount,
                total_output: total as u128,
                fee: (amount - total) as u64,
                witness_shape_matches: items.len() == 4,
                signature_lengths: if items.len() == 4 {
                    Some((items[0].len() as usize, items[1].len() as usize))
                } else {
                    None
                },
            },
        )
    }
}

/// The result that relating by input `i` gives.
pub open spec fn relation_by(
    funding: ConfirmedTransaction,
    spending: ConfirmedTransaction,
    i: int,
) -> Result<Option<RelationshipReport>, AnalysisError> {
    match relation_at(funding, spending, i) {
        Ok(report) => Ok(Some(report)),
        Err(e) => Err(e),
    }
}

/// Whether `res` relates `spending` to `funding`: nothing where no input
/// spends an output that `funding` has, else what the first such input
/// gives. An input that names `funding` with an output index that it does
/// not have is passed over.
pub open spec fn relation_matches(
    funding: ConfirmedTransaction,
    spending: ConfirmedTransaction,
    res: Result<Option<RelationshipReport>, AnalysisError>,
) -> bool {
    if no_spender(spending.tx.inputs@, funding) {
        res == Ok::<Option<RelationshipReport>, AnalysisError>(None)
    } else {
        exists|i: int| #[trigger]
            first_spender(spending.tx.inputs@, funding, i) && res == relation_by(
                funding,
                spending,
                i,
            )
    }
}

/// Whether `res` relates the transactions with the given ids: the error
/// that one is unknown, the funding one first, or the relation of the two.
pub open spec fn relationship_matches(
    chain: Seq<ConfirmedTransaction>,
    funding_txid: [u8; 32],
    spending_txid: [u8; 32],
    res: Result<Option<RelationshipReport>, AnalysisError>,
) -> bool {
    match lookup(chain, funding_txid@) {
        None => res == Err::<Option<RelationshipReport>, AnalysisError>(
            AnalysisError::UnknownTransaction { txid: funding_txid },
        ),
        Some(funding) => match lookup(chain, spending_txid@) {
            None => res == Err::<Option<RelationshipReport>, AnalysisError>(
                AnalysisError::UnknownTransaction { txid: spending_txid },
            ),
            Some(spending) => relation_matches(funding, spending, res),
        },
    }
}

/// The name of the transaction at `position` of a batch: the first funds,
/// the second spends.
pub open spec fn batch_name(position: int) -> Seq<char> {
    if position == 0 {
        "송금 트랜잭션"@
    } else if position == 1 {
        "소비 트랜잭션"@
    } else {
        "트랜잭션"@
    }
}

/// A query layer over the confirmed transactions that it was given.
#[derive(Clone, Debug)]
pub struct TxAnalyzer {
    pub chain: Vec<ConfirmedTransaction>,
}

impl TxAnalyzer {
    /// An analyzer over the given transactions.
    pub fn new(chain: Vec<ConfirmedTransaction>) -> (analyzer: TxAnalyzer)
        ensures
            analyzer.chain == chain,
    {
        TxAnalyzer { chain }
    }

    /// The transaction with the given id: the first one, should several
    /// carry it.
    pub fn get_transaction(&self, txid: &[u8; 32]) -> (found: Option<&ConfirmedTransaction>)
        ensures
            match found {
                Some(confirmed) => lookup(self.chain@, txid@) == Some(*confirmed),
                None => lookup(self.chain@, txid@) is None,
            },
    {
        let mut i: usize = 0;
        assert(self.chain@.skip(0) =~= self.chain@);
        while i < self.chain.len()
            invariant
                i <= self.chain@.len(),
                lookup(self.chain@, txid@) == lookup(self.chain@.skip(i as int), txid@),
            decreases self.chain@.len() - i,
        {
            let confirmed = &self.chain[i];
            assert(self.chain@.skip(i as int)[0] == self.chain@[i as int]);
            assert(self.chain@.skip(i as int).drop_first() =~= self.chain@.skip(i + 1));
            if bytes_equal(confirmed.txid.as_slice(), txid.as_slice()) {
                return Some(confirmed);
            }
            i = i + 1;
        }
        assert(self.chain@.skip(i as int).len() == 0);
        None
    }

    /// The output that `input` spends, if it is known.
    pub fn resolve_input(&self, input: &TxInput) -> (found: Option<PreviousOutput>)
        ensures
            match found {
                Some(prev) => is_prevout_of(self.chain@, *input, prev),
                None => resolved_output(self.chain@, *input) is None,
            },
    {
        match self.get_transaction(&input.prev_txid) {
            Some(confirmed) => {
                if (input.prev_vout as usize) < confirmed.tx.outputs.len() {
                    let output = &confirmed.tx.outputs[input.prev_vout as usize];
                    Some(
                        PreviousOutput {
                            txid: input.prev_txid,
                            vout: input.prev_vout,
                            script: output.script.clone(),
                            amount: output.amount,
                        },
                    )
                } else {
                    None
                }
            },
            None => None,
        }
    }

    /// The fee of `tx`: none where an input's previous output is unknown or
    /// the inputs do not exceed the outputs.
    pub fn fee_of_transaction(&self, tx: &SpendTransaction) -> (fee: Option<u128>)
        ensures
            match fee {
                Some(amount) => fee_of(self.chain@, *tx) == Some(amount as int),
                None => fee_of(self.chain@, *tx) is None,
            },
    {
        let mut input_total: u128 = 0;
        let mut i: usize = 0;
        while i < tx.inputs.len()
            invariant
                i <= tx.inputs@.len(),
                all_resolved(self.chain@, tx.inputs@.take(i as int)),
                input_total == total_input(self.chain@, tx.inputs@.take(i as int)),
            decreases tx.inputs@.len() - i,
        {
            proof {
                let next = tx.inputs@.take(i + 1);
                assert(next.drop_last() =~= tx.inputs@.take(i as int));
                assert(next.last() == tx.inputs@[i as int]);
                total_input_bounds(self.chain@, next);
                assert(next.len() * u64::MAX <= usize::MAX * u64::MAX) by (nonlinear_arith)
                    requires
                        next.len() <= usize::MAX,
                ;
            }
            match self.resolve_input(&tx.inputs[i]) {
                Some(prev) => {
                    input_total = input_total + prev.amount as u128;
                },
                None => {
                    assert(!all_resolved(self.chain@, tx.inputs@));
                    return None;
                },
            }
            proof {
                let next = tx.inputs@.take(i + 1);
                assert forall|j: int| 0 <= j < next.len() implies resolved_output(
                    self.chain@,
                    #[trigger] next[j],
                ) is Some by {
                    if j < i {
                        assert(next[j] == tx.inputs@.take(i as int)[j]);
                    }
                }
            }
            i = i + 1;
        }
        assert(tx.inputs@.take(i as int) =~= tx.inputs@);
        let output_total = tx.total_output();
        if input_total > output_total {
            Some(input_total - output_total)
        } else {
            None
        }
    }

    /// The role of the witness item at `index`.
    pub fn describe_witness_slot(index: usize) -> (role: SlotRole)
        ensures
            role == slot_role(index as int),
    {
        if index == 0 {
            SlotRole::R
        } else if index == 1 {
            SlotRole::S
        } else if index == 2 {
            SlotRole::Script
        } else if index == 3 {
            SlotRole::ControlBlock
        } else {
            SlotRole::Opaque
        }
    }

    /// The fee of the transaction with the given id. An unknown transaction
    /// is an error; the fee of a known one is none where an input's previous
    /// output is unknown or the inputs do not exceed the outputs.
    pub fn fee(&self, txid: &[u8; 32]) -> (res: Result<Option<u128>, AnalysisError>)
        ensures
            match lookup(self.chain@, txid@) {
                None => res == Err::<Option<u128>, AnalysisError>(
                    AnalysisError::UnknownTransaction { txid: *txid },
                ),
                Some(confirmed) => res matches Ok(fee) && match fee {
                    Some(amount) => fee_of(self.chain@, confirmed.tx) == Some(amount as int),
                    None => fee_of(self.chain@, confirmed.tx) is None,
                },
            },
    {
        match self.get_transaction(txid) {
            Some(confirmed) => Ok(self.fee_of_transaction(&confirmed.tx)),
            None => Err(AnalysisError::UnknownTransaction { txid: *txid }),
        }
    }

    /// The witness items of an input, each with its position, role and
    /// length.
    pub fn witness_slots(input: &TxInput) -> (slots: Vec<WitnessSlot>)
        ensures
            slots_match(witness_items(input.witness), slots@),
    {
        let count = witness_len(&input.witness);
        let mut slots: Vec<WitnessSlot> = Vec::new();
        let mut k: usize = 0;
        while k < count
            invariant
                k <= count,
                count == witness_items(input.witness).len(),
                slots_match(witness_items(input.witness).take(k as int), slots@),
            decreases count - k,
        {
            let item = witness_nth(&input.witness, k).unwrap();
            slots.push(
                WitnessSlot {
                    index: k,
                    role: TxAnalyzer::describe_witness_slot(k),
                    length: item.len(),
                },
            );
            k = k + 1;
        }
        slots
    }

    /// The record of one input.
    pub fn input_record(&self, input: &TxInput) -> (record: InputRecord)
        ensures
            input_record_matches(self.chain@, *input, record),
    {
        let amount = match self.resolve_input(input) {
            Some(prev) => Some(prev.amount),
            None => None,
        };
        InputRecord {
            prev_txid: input.prev_txid,
            prev_vout: input.prev_vout,
            amount,
            witness: TxAnalyzer::witness_slots(input),
        }
    }

    /// The record of a confirmed transaction, under `name`.
    pub fn record_of(&self, confirmed: &ConfirmedTransaction, name: &str) -> (record:
        AnalysisRecord)
        ensures
            record_matches(self.chain@, *confirmed, name@, record),
    {
        let fee = self.fee_of_transaction(&confirmed.tx);
        let mut inputs: Vec<InputRecord> = Vec::new();
        let mut i: usize = 0;
        while i < confirmed.tx.inputs.len()
            invariant
                i <= confirmed.tx.inputs@.len(),
                inputs@.len() == i,
                forall|j: int|
                    0 <= j < i ==> input_record_matches(
                        self.chain@,
                        confirmed.tx.inputs@[j],
                        #[trigger] inputs@[j],
                    ),
            decreases confirmed.tx.inputs@.len() - i,
        {
            inputs.push(self.input_record(&confirmed.tx.inputs[i]));
            i = i + 1;
        }
        let mut outputs: Vec<OutputRecord> = Vec::new();
        let mut o: usize = 0;
        while o < confirmed.tx.outputs.len()
            invariant
                o <= confirmed.tx.outputs@.len(),
                outputs@.len() == o,
                forall|j: int|
                    0 <= j < o ==> output_record_matches(
                        confirmed.tx.outputs@[j],
                        j,
                        #[trigger] outputs@[j],
                    ),
            decreases confirmed.tx.outputs@.len() - o,
        {
            let output = &confirmed.tx.outputs[o];
            outputs.push(
                OutputRecord {
                    index: o,
                    amount: output.amount,
                    script_type: classify(output.script.as_slice()),
                },
            );
            o = o + 1;
        }
        AnalysisRecord {
            name: name.to_owned(),
            txid: confirmed.txid,
            confirmations: confirmed.confirmations,
            block_height: confirmed.block_height,
            fee,
            inputs,
            outputs,
        }
    }

    /// Analyzes the transaction with the given id.
    pub fn analyze_transaction(&self, txid: &[u8; 32], name: &str) -> (res: Result<
        AnalysisRecord,
        AnalysisError,
    >)
        ensures
            analysis_matches(self.chain@, *txid, name@, res),
    {
        match self.get_transaction(txid) {
            Some(confirmed) => Ok(self.record_of(confirmed, name)),
            None => Err(AnalysisError::UnknownTransaction { txid: *txid }),
        }
    }

    /// Relates a spending transaction to the transaction that funded it, by
    /// the first input that spends one of its outputs.
    pub fn relate(funding: &ConfirmedTransaction, spending: &ConfirmedTransaction) -> (res: Result<
        Option<RelationshipReport>,
        AnalysisError,
    >)
        ensures
            relation_matches(*funding, *spending, res),
    {
        let mut i: usize = 0;
        while i < spending.tx.inputs.len()
            invariant
                i <= spending.tx.inputs@.len(),
                forall|j: int|
                    0 <= j < i ==> !spends_from(#[trigger] spending.tx.inputs@[j], *funding),
            decreases spending.tx.inputs@.len() - i,
        {
            let input = &spending.tx.inputs[i];
            if bytes_equal(input.prev_txid.as_slice(), funding.txid.as_slice())
                && (input.prev_vout as usize) < funding.tx.outputs.len() {
                assert(first_spender(spending.tx.inputs@, *funding, i as int));
                let total_output = spending.tx.total_output();
                let input_amount = funding.tx.outputs[input.prev_vout as usize].amount;
                if total_output > input_amount as u128 {
                    return Err(
                        AnalysisError::NegativeFeeAnomaly {
                            txid: spending.txid,
                            input_index: i,
                            input_amount,
                            total_output,
                        },
                    );
                }
                let items = witness_len(&input.witness);
                let signature_lengths = if items == 4 {
                    let r = witness_nth(&input.witness, 0).unwrap();
                    let s = witness_nth(&input.witness, 1).unwrap();
                    Some((r.len(), s.len()))
                } else {
                    None
                };
                return Ok(
                    Some(
                        RelationshipReport {
                            funding_vout: input.prev_vout,
                            input_index: i,
                            input_amount,
                            total_output,
                            fee: (input_amount as u128 - total_output) as u64,
                            witness_shape_matches: items == 4,
                            signature_lengths,
                        },
                    ),
                );
            }
            i = i + 1;
        }
        Ok(None)
    }

    /// Relates the transactions with the given ids.
    pub fn analyze_relationship(&self, funding_txid: &[u8; 32], spending_txid: &[u8; 32]) -> (res:
        Result<Option<RelationshipReport>, AnalysisError>)
        ensures
            relationship_matches(self.chain@, *funding_txid, *spending_txid, res),
    {
        match self.get_transaction(funding_txid) {
            None => Err(AnalysisError::UnknownTransaction { txid: *funding_txid }),
            Some(funding) => match self.get_transaction(spending_txid) {
                None => Err(AnalysisError::UnknownTransaction { txid: *spending_txid }),
                Some(spending) => TxAnalyzer::relate(funding, spending),
            },
        }
    }

    /// The name of the transaction at `position` of a batch.
    pub fn batch_label(position: usize) -> (name: &'static str)
        ensures
            name@ == batch_name(position as int),
    {
        if position == 0 {
            "송금 트랜잭션"
        } else if position == 1 {
            "소비 트랜잭션"
        } else {
            "트랜잭션"
        }
    }

    /// Analyzes each transaction of a batch and, where the batch holds
    /// exactly two, relates the second to the first. One transaction's
    /// failure leaves the results of the others as they are.
    pub fn full_analysis(&self, txids: &[[u8; 32]]) -> (report: FullAnalysis)
        ensures
            report.records@.len() == txids@.len(),
            forall|i: int|
                0 <= i < txids@.len() ==> analysis_matches(
                    self.chain@,
                    txids@[i],
                    batch_name(i),
                    #[trigger] report.records@[i],
                ),
            match report.relationship {
                Some(res) => txids@.len() == 2 && relationship_matches(
                    self.chain@,
                    txids@[0],
                    txids@[1],
                    res,
                ),
                None => txids@.len() != 2,
            },
    {
        let mut records: Vec<Result<AnalysisRecord, AnalysisError>> = Vec::new();
        let mut i: usize = 0;
        while i < txids.len()
            invariant
                i <= txids@.len(),
                records@.len() == i,
                forall|j: int|
                    0 <= j < i ==> analysis_matches(
                        self.chain@,
                        txids@[j],
                        batch_name(j),
                        #[trigger] records@[j],
                    ),
            decreases txids@.len() - i,
        {
            records.push(self.analyze_transaction(&txids[i], TxAnalyzer::batch_label(i)));
            i = i + 1;
        }
        let relationship = if txids.len() == 2 {
            Some(self.analyze_relationship(&txids[0], &txids[1]))
        } else {
            None
        };
        FullAnalysis { records, relationship }
    }

    /// The outputs that the inputs of `confirmed` spend, in the order of the
    /// inputs, or the first input whose previous output is unknown.
    pub fn previous_outputs(&self, confirmed: &ConfirmedTransaction) -> (res: Result<
        Vec<PreviousOutput>,
        AnalysisError,
    >)
        ensures
            match res {
                Ok(prevouts) => {
                    &&& prevouts@.len() == confirmed.tx.inputs@.len()
                    &&& forall|i: int|
                        0 <= i < prevouts@.len() ==> is_prevout_of(
                            self.chain@,
                            confirmed.tx.inputs@[i],
                            #[trigger] prevouts@[i],
                        )
                },
                Err(e) => exists|i: int|
                    {
                        &&& 0 <= i < confirmed.tx.inputs@.len()
                        &&& resolved_output(self.chain@, #[trigger] confirmed.tx.inputs@[i]) is None
                        &&& all_resolved(self.chain@, confirmed.tx.inputs@.take(i))
                        &&& e == AnalysisError::PrevoutUnresolved {
                            txid: confirmed.txid,
                            input_index: i as usize,
                            prev_txid: confirmed.tx.inputs@[i].prev_txid,
                            prev_vout: confirmed.tx.inputs@[i].prev_vout,
                        }
                    },
            },
    {
        let mut prevouts: Vec<PreviousOutput> = Vec::new();
        let mut i: usize = 0;
        while i < confirmed.tx.inputs.len()
            invariant
                i <= confirmed.tx.inputs@.len(),
                prevouts@.len() == i,
                forall|j: int|
                    0 <= j < i ==> is_prevout_of(
                        self.chain@,
                        confirmed.tx.inputs@[j],
                        #[trigger] prevouts@[j],
                    ),
            decreases confirmed.tx.inputs@.len() - i,
        {
            let input = &confirmed.tx.inputs[i];
            match self.resolve_input(input) {
                Some(prev) => {
                    prevouts.push(prev);
                },
                None => {
                    proof {
                        let before = confirmed.tx.inputs@.take(i as int);
                        assert forall|j: int| 0 <= j < before.len() implies resolved_output(
                            self.chain@,
                            #[trigger] before[j],
                        ) is Some by {
                            assert(is_prevout_of(
                                self.chain@,
                                confirmed.tx.inputs@[j],
                                prevouts@[j],
                            ));
                        }
                    }
                    return Err(
                        AnalysisError::PrevoutUnresolved {
                            txid: confirmed.txid,
                            input_index: i,
                            prev_txid: input.prev_txid,
                            prev_vout: input.prev_vout,
                        },
                    );
                },
            }
            i = i + 1;
        }
        Ok(prevouts)
    }
}

/// The witness that is assembled for a script-path spend holds four items
/// whose roles, in order, are the two signature halves, the script and the
/// control block; the two halves are 32 bytes each and, put together, give
/// the signature back.
pub proof fn assembled_witness_roles(signature: Seq<u8>, leaf: Seq<u8>, control_block: Seq<u8>)
    requires
        signature.len() == 64,
    ensures
        ({
            let items = script_path_items(signature, leaf, control_block);
            &&& items.len() == 4
            &&& slot_role(0) == SlotRole::R && items[0] == signature.subrange(0, 32)
            &&& slot_role(1) == SlotRole::S && items[1] == signature.subrange(32, 64)
            &&& slot_role(2) == SlotRole::Script && items[2] == leaf
            &&& slot_role(3) == SlotRole::ControlBlock && items[3] == control_block
            &&& items[0].len() == 32 && items[1].len() == 32
            &&& items[0] + items[1] == signature
        }),
{
    let items = script_path_items(signature, leaf, control_block);
    assert(items[0] + items[1] =~= signature);
}

/// The slots that describe an assembled witness carry those four roles and
/// the lengths of the items.
pub proof fn assembled_witness_slots(
    signature: Seq<u8>,
    leaf: Seq<u8>,
    control_block: Seq<u8>,
    slots: Seq<WitnessSlot>,
)
    requires
        signature.len() == 64,
        slots_match(script_path_items(signature, leaf, control_block), slots),
    ensures
        slots.len() == 4,
        slots[0].role == SlotRole::R && slots[0].length == 32,
        slots[1].role == SlotRole::S && slots[1].length == 32,
        slots[2].role == SlotRole::Script && slots[2].length == leaf.len(),
        slots[3].role == SlotRole::ControlBlock && slots[3].length == control_block.len(),
{
    assembled_witness_roles(signature, leaf, control_block);
}

/// A transaction with an input whose previous output is unknown has no fee,
/// whatever its other inputs spend.
pub proof fn unresolved_input_leaves_fee_indeterminate(
    chain: Seq<ConfirmedTransaction>,
    tx: SpendTransaction,
    i: int,
)
    requires
        0 <= i < tx.inputs@.len(),
        resolved_output(chain, tx.inputs@[i]) is None,
    ensures
        fee_of(chain, tx) is None,
{
}

/// A fee, where there is one, is positive, and the outputs and the fee add
/// up to what the inputs spend.
pub proof fn fee_balances(chain: Seq<ConfirmedTransaction>, tx: SpendTransaction)
    requires
        fee_of(chain, tx) is Some,
    ensures
        fee_of(chain, tx)->0 > 0,
        all_resolved(chain, tx.inputs@),
        total_amount(tx.outputs@) + fee_of(chain, tx)->0 == total_input(chain, tx.inputs@),
{
}

/// The relation of two transactions is determined by them: two results that
/// both relate `spending` to `funding` are the same.
pub proof fn relation_is_unique(
    funding: ConfirmedTransaction,
    spending: ConfirmedTransaction,
    a: Result<Option<RelationshipReport>, AnalysisError>,
    b: Result<Option<RelationshipReport>, AnalysisError>,
)
    requires
        relation_matches(funding, spending, a),
        relation_matches(funding, spending, b),
    ensures
        a == b,
{
    let inputs = spending.tx.inputs@;
    if !no_spender(inputs, funding) {
        let i = choose|i: int| #[trigger]
            first_spender(inputs, funding, i) && a == relation_by(funding, spending, i);
        let j = choose|j: int| #[trigger]
            first_spender(inputs, funding, j) && b == relation_by(funding, spending, j);
        if i < j {
            assert(!spends_from(inputs[i], funding));
        }
        if j < i {
            assert(!spends_from(inputs[j], funding));
        }
        assert(i == j);
    }
}

/// An input that names the funding transaction with an output index that
/// it does not have decides nothing: where every input that names it is of
/// that kind, there is no report and no failure.
pub proof fn missing_outputs_are_passed_over(
    funding: ConfirmedTransaction,
    spending: ConfirmedTransaction,
)
    requires
        forall|j: int|
            0 <= j < spending.tx.inputs@.len() && (#[trigger] spending.tx.inputs@[j]).prev_txid@
                == funding.txid@ ==> spending.tx.inputs@[j].prev_vout
                >= funding.tx.outputs@.len(),
    ensures
        relation_matches(
            funding,
            spending,
            Ok::<Option<RelationshipReport>, AnalysisError>(None),
        ),
{
}

} // verus!

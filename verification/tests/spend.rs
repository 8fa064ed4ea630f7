use bitcoin::absolute::LockTime;
use bitcoin::hashes::Hash as _;
use bitcoin::key::TapTweak;
use bitcoin::secp256k1::{Keypair, Message, Secp256k1, XOnlyPublicKey};
use bitcoin::transaction::Version;
use bitcoin::{Amount, OutPoint, ScriptBuf, Sequence, Transaction, TxIn, TxOut, Txid, Witness};
use op_cat_test::classify::{classify, ScriptType};
use op_cat_test::keys::PublicKey;
use op_cat_test::simple_script::simple_cat_checksig;
use op_cat_test::sighash::{digest, SighashType};
use op_cat_test::spend::{
    attach_witness, build_spend, find_output, funding_output, script_path_witness, SpendError,
};
use op_cat_test::taproot::TaprootCommitment;
use op_cat_test::transaction::{
    ConfirmedTransaction, PreviousOutput, SpendTransaction, TxInput, TxOutput,
};
use op_cat_test::tx_analyzer::{RelationshipReport, SlotRole, TxAnalyzer};

fn p2wpkh(tag: u8) -> Vec<u8> {
    let mut script = vec![0x00, 0x14];
    script.extend_from_slice(&[tag; 20]);
    script
}

fn funding(script: &[u8]) -> ConfirmedTransaction {
    ConfirmedTransaction {
        txid: [0x0f; 32],
        tx: SpendTransaction {
            version: 2,
            lock_time: 101,
            inputs: vec![TxInput {
                prev_txid: [0x0a; 32],
                prev_vout: 0,
                sequence: 0xffff_fffd,
                witness: Witness::new(),
            }],
            outputs: vec![
                TxOutput { amount: 39_800, script: p2wpkh(0x02) },
                TxOutput { amount: 10_000, script: script.to_vec() },
                TxOutput { amount: 77, script: script.to_vec() },
            ],
        },
        confirmations: 1,
        block_height: Some(102),
    }
}

fn native(tx: &SpendTransaction) -> Transaction {
    Transaction {
        version: Version(tx.version),
        lock_time: LockTime::from_consensus(tx.lock_time),
        input: tx
            .inputs
            .iter()
            .map(|i| TxIn {
                previous_output: OutPoint {
                    txid: Txid::from_byte_array(i.prev_txid),
                    vout: i.prev_vout,
                },
                script_sig: ScriptBuf::new(),
                sequence: Sequence(i.sequence),
                witness: i.witness.clone(),
            })
            .collect(),
        output: tx
            .outputs
            .iter()
            .map(|o| TxOut {
                value: Amount::from_sat(o.amount),
                script_pubkey: ScriptBuf::from_bytes(o.script.clone()),
            })
            .collect(),
    }
}

#[test]
fn funding_output_is_the_first_that_pays_to_the_script() {
    let script = vec![0x51, 0x20, 0x01];
    let tx = funding(&script);
    assert_eq!(find_output(&tx.tx, &script), Some(1));
    assert_eq!(find_output(&tx.tx, &p2wpkh(0x02)), Some(0));
    let prev = funding_output(&tx, &script).unwrap();
    assert_eq!(prev.txid, [0x0f; 32]);
    assert_eq!(prev.vout, 1);
    assert_eq!(prev.amount, 10_000);
    assert_eq!(prev.script, script);
}

#[test]
fn funding_output_that_is_not_there() {
    let tx = funding(&[0x51, 0x20, 0x01]);
    assert_eq!(find_output(&tx.tx, &[0x51, 0x20, 0x02]), None);
    assert_eq!(find_output(&tx.tx, &[]), None);
    assert_eq!(funding_output(&tx, &[0x51, 0x20]).unwrap_err(), SpendError::OutputNotFound);
}

#[test]
fn spend_pays_the_amount_less_the_fee() {
    let prev = PreviousOutput { txid: [0x0f; 32], vout: 1, script: vec![0x51], amount: 10_000 };
    let tx = build_spend(&prev, &p2wpkh(0x09), 1_000).unwrap();
    assert_eq!(tx.version, 2);
    assert_eq!(tx.lock_time, 0);
    assert_eq!(tx.inputs.len(), 1);
    assert_eq!(tx.inputs[0].prev_txid, [0x0f; 32]);
    assert_eq!(tx.inputs[0].prev_vout, 1);
    assert_eq!(tx.inputs[0].sequence, 0xffff_ffff);
    assert!(tx.inputs[0].witness.is_empty());
    assert_eq!(tx.outputs.len(), 1);
    assert_eq!(tx.outputs[0].amount, 9_000);
    assert_eq!(tx.outputs[0].script, p2wpkh(0x09));
}

#[test]
fn spend_of_everything_and_of_nothing() {
    let prev = PreviousOutput { txid: [0x0f; 32], vout: 0, script: vec![], amount: 10_000 };
    assert_eq!(build_spend(&prev, &[], 10_000).unwrap().outputs[0].amount, 0);
    assert_eq!(build_spend(&prev, &[], 0).unwrap().outputs[0].amount, 10_000);
}

#[test]
fn fee_above_the_amount_is_refused() {
    let prev = PreviousOutput { txid: [0x0f; 32], vout: 0, script: vec![], amount: 999 };
    assert_eq!(
        build_spend(&prev, &p2wpkh(0x09), 1_000).unwrap_err(),
        SpendError::InsufficientFunds { available: 999, fee: 1_000 },
    );
}

#[test]
fn witness_is_put_on_the_input() {
    let prev = PreviousOutput { txid: [0x0f; 32], vout: 1, script: vec![0x51], amount: 10_000 };
    let mut tx = build_spend(&prev, &p2wpkh(0x09), 1_000).unwrap();
    let witness = Witness::from_slice(&[vec![1u8, 2], vec![3u8]]);
    assert_eq!(attach_witness(&mut tx, 0, witness.clone()), Ok(()));
    assert_eq!(tx.inputs[0].witness, witness);
    assert_eq!(tx.inputs[0].prev_txid, [0x0f; 32]);
    assert_eq!(tx.inputs[0].prev_vout, 1);
    assert_eq!(tx.inputs[0].sequence, 0xffff_ffff);
    assert_eq!(tx.outputs[0].amount, 9_000);
    assert_eq!(
        attach_witness(&mut tx, 1, Witness::new()),
        Err(SpendError::NoSuchInput { index: 1, inputs: 1 }),
    );
    assert_eq!(tx.inputs[0].witness, witness);
}

#[test]
fn funded_output_is_spent_by_its_script_path() {
    let secp = Secp256k1::new();
    let keypair = Keypair::from_seckey_slice(&secp, &[0x17; 32]).unwrap();
    let x_only = keypair.x_only_public_key().0;
    let key = PublicKey::from_bytes(x_only.serialize()).unwrap();

    // Leaf, commitment and the script that is funded.
    let leaf = simple_cat_checksig(&key);
    let commitment = TaprootCommitment::commit(&leaf, &key).unwrap();
    let funded_script = commitment.script_pubkey();
    assert_eq!(classify(&funded_script), ScriptType::P2TR);
    let (tweaked, _) = x_only.tap_tweak(
        &secp,
        Some(bitcoin::TapNodeHash::from_byte_array(commitment.merkle_root)),
    );
    assert_eq!(funded_script, ScriptBuf::new_p2tr_tweaked(tweaked).into_bytes());

    // The funding transaction holds 10,000 units under that script.
    let funding = funding(&funded_script);
    let prev = funding_output(&funding, &funded_script).unwrap();
    assert_eq!(prev.amount, 10_000);

    // The spend, its digest and a signature over it.
    let destination = p2wpkh(0x33);
    let mut tx = build_spend(&prev, &destination, 1_000).unwrap();
    let prevouts = vec![prev.clone()];
    let hash = digest(&tx, 0, &prevouts, &leaf, SighashType::AllImplicit).unwrap();
    let message = Message::from_digest(hash);
    let signature = secp.sign_schnorr_no_aux_rand(&message, &keypair);
    assert!(secp.verify_schnorr(&signature, &message, &x_only).is_ok());

    // The witness of four items.
    let witness = script_path_witness(&commitment, &signature.serialize()).unwrap();
    assert_eq!(attach_witness(&mut tx, 0, witness), Ok(()));
    let items = tx.inputs[0].witness.to_vec();
    assert_eq!(items.len(), 4);
    let mut joined = items[0].clone();
    joined.extend_from_slice(&items[1]);
    assert_eq!(joined, signature.serialize().to_vec());
    assert_eq!(items[2], leaf.bytes);

    // The script library reads leaf and control block back from the witness,
    // and the control block proves the leaf under the funded key.
    let native_tx = native(&tx);
    let read = native_tx.input[0].witness.taproot_leaf_script().unwrap();
    assert_eq!(read.script.as_bytes(), &leaf.bytes[..]);
    let block = bitcoin::taproot::ControlBlock::decode(
        native_tx.input[0].witness.taproot_control_block().unwrap(),
    )
    .unwrap();
    let output_key = XOnlyPublicKey::from_slice(&commitment.output_key).unwrap();
    assert!(block.verify_taproot_commitment(&secp, output_key, read.script));

    // The digest was not changed by the witness.
    assert_eq!(digest(&tx, 0, &prevouts, &leaf, SighashType::AllImplicit).unwrap(), hash);

    // Analysis of the two transactions.
    let spending = ConfirmedTransaction {
        txid: native_tx.compute_txid().to_byte_array(),
        tx,
        confirmations: 1,
        block_height: Some(103),
    };
    let report = TxAnalyzer::relate(&funding, &spending).unwrap().unwrap();
    assert_eq!(
        report,
        RelationshipReport {
            funding_vout: 1,
            input_index: 0,
            input_amount: 10_000,
            total_output: 9_000,
            fee: 1_000,
            witness_shape_matches: true,
            signature_lengths: Some((32, 32)),
        },
    );
    let analyzer = TxAnalyzer::new(vec![funding.clone(), spending.clone()]);
    assert_eq!(analyzer.fee(&spending.txid), Ok(Some(1_000)));
    let record = analyzer.analyze_transaction(&spending.txid, "spend").unwrap();
    let roles: Vec<SlotRole> = record.inputs[0].witness.iter().map(|slot| slot.role).collect();
    assert_eq!(
        roles,
        vec![SlotRole::R, SlotRole::S, SlotRole::Script, SlotRole::ControlBlock],
    );
    let lengths: Vec<usize> = record.inputs[0].witness.iter().map(|slot| slot.length).collect();
    assert_eq!(lengths, vec![32, 32, 35, 33]);
    let full = analyzer.full_analysis(&vec![funding.txid, spending.txid]);
    assert_eq!(full.relationship, Some(Ok(Some(report))));
}

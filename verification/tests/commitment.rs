use bitcoin::hashes::Hash as _;
use bitcoin::key::TweakedPublicKey;
use bitcoin::secp256k1::{Keypair, Parity, Secp256k1, XOnlyPublicKey};
use bitcoin::taproot::{LeafVersion, TapLeafHash, TaprootBuilder};
use bitcoin::ScriptBuf;
use op_cat_test::keys::PublicKey;
use op_cat_test::simple_script::{simple_cat_checksig, LeafScript};
use op_cat_test::taproot::{
    ControlBlock, ScriptTree, TaprootCommitment, TaprootError, TreeLeaf, TAPSCRIPT_LEAF_VERSION,
};

fn x_only(secret: u8) -> [u8; 32] {
    let secp = Secp256k1::new();
    let keypair = Keypair::from_seckey_slice(&secp, &[secret; 32]).unwrap();
    keypair.x_only_public_key().0.serialize()
}

fn key(secret: u8) -> PublicKey {
    PublicKey::from_bytes(x_only(secret)).unwrap()
}

fn reference(leaf: &LeafScript, internal: [u8; 32]) -> bitcoin::taproot::TaprootSpendInfo {
    let secp = Secp256k1::new();
    TaprootBuilder::new()
        .add_leaf(0, ScriptBuf::from_bytes(leaf.bytes.clone()))
        .unwrap()
        .finalize(&secp, XOnlyPublicKey::from_slice(&internal).unwrap())
        .unwrap()
}

fn unhex(text: &str) -> Vec<u8> {
    (0..text.len()).step_by(2).map(|i| u8::from_str_radix(&text[i..i + 2], 16).unwrap()).collect()
}

#[test]
fn commitment_of_a_known_key() {
    assert_eq!(
        x_only(1).to_vec(),
        unhex("1b84c5567b126440995d3ed5aaba0565d71e1834604819ff9c17f5e9d5dd078f"),
    );
    let internal = key(1);
    let leaf = simple_cat_checksig(&internal);
    let commitment = TaprootCommitment::commit(&leaf, &internal).unwrap();
    assert_eq!(
        commitment.merkle_root.to_vec(),
        unhex("610eb706b5177f9ca27aee3865477c236a9532d56d79c57c95cc9f7261860daa"),
    );
    assert_eq!(
        commitment.output_key.to_vec(),
        unhex("23624f45cf550a3ec75d5c672ae4fe46eb434a93c83006bce5c511641fb5fe8a"),
    );
    assert!(commitment.output_key_odd);
    let block = commitment.control_block(&leaf, TAPSCRIPT_LEAF_VERSION).unwrap();
    assert_eq!(
        block.serialize(),
        unhex("c11b84c5567b126440995d3ed5aaba0565d71e1834604819ff9c17f5e9d5dd078f"),
    );
}

#[test]
fn commit_gives_the_output_key_of_the_single_leaf_tree() {
    for secret in 1u8..=8 {
        let internal = key(secret);
        let leaf = simple_cat_checksig(&internal);
        let commitment = TaprootCommitment::commit(&leaf, &internal).unwrap();
        let info = reference(&leaf, x_only(secret));
        assert_eq!(commitment.output_key, info.output_key().serialize());
        assert_eq!(commitment.output_key_odd, info.output_key_parity() == Parity::Odd);
        assert_eq!(commitment.merkle_root, info.merkle_root().unwrap().to_byte_array());
        assert_eq!(commitment.leaf.bytes, leaf.bytes);
        assert_eq!(commitment.internal_key.serialize(), x_only(secret));
    }
}

#[test]
fn merkle_root_is_the_leaf_hash() {
    let internal = key(3);
    let leaf = simple_cat_checksig(&key(4));
    let commitment = TaprootCommitment::commit(&leaf, &internal).unwrap();
    let hash = TapLeafHash::from_script(
        &ScriptBuf::from_bytes(leaf.bytes.clone()),
        LeafVersion::TapScript,
    );
    assert_eq!(commitment.merkle_root, hash.to_byte_array());
    assert_ne!(commitment.merkle_root.to_vec(), leaf.bytes);
}

#[test]
fn commit_is_stable() {
    let internal = key(5);
    let leaf = simple_cat_checksig(&internal);
    let first = TaprootCommitment::commit(&leaf, &internal).unwrap();
    let second = TaprootCommitment::commit(&leaf, &internal).unwrap();
    assert_eq!(first.output_key, second.output_key);
    assert_eq!(first.output_key_odd, second.output_key_odd);
    assert_eq!(first.merkle_root, second.merkle_root);
}

#[test]
fn changing_one_byte_of_the_leaf_changes_the_output_key() {
    let internal = key(6);
    let leaf = simple_cat_checksig(&internal);
    let base = TaprootCommitment::commit(&leaf, &internal).unwrap();
    for position in 0..leaf.bytes.len() {
        let mut bytes = leaf.bytes.clone();
        bytes[position] ^= 0x01;
        let changed = TaprootCommitment::commit(&LeafScript { bytes }, &internal).unwrap();
        assert_ne!(changed.output_key, base.output_key);
        assert_ne!(changed.merkle_root, base.merkle_root);
    }
}

#[test]
fn changing_the_internal_key_changes_the_output_key() {
    let leaf = simple_cat_checksig(&key(7));
    let a = TaprootCommitment::commit(&leaf, &key(7)).unwrap();
    let b = TaprootCommitment::commit(&leaf, &key(8)).unwrap();
    assert_ne!(a.output_key, b.output_key);
    assert_eq!(a.merkle_root, b.merkle_root);
}

#[test]
fn output_key_differs_from_the_internal_key() {
    let internal = key(9);
    let leaf = simple_cat_checksig(&internal);
    let commitment = TaprootCommitment::commit(&leaf, &internal).unwrap();
    assert_ne!(commitment.output_key, x_only(9));
}

#[test]
fn output_script_pays_to_the_output_key() {
    let internal = key(10);
    let leaf = simple_cat_checksig(&internal);
    let commitment = TaprootCommitment::commit(&leaf, &internal).unwrap();
    let native = XOnlyPublicKey::from_slice(&commitment.output_key).unwrap();
    let expected = ScriptBuf::new_p2tr_tweaked(TweakedPublicKey::dangerous_assume_tweaked(native));
    assert_eq!(commitment.script_pubkey(), expected.into_bytes());
}

#[test]
fn control_block_is_that_of_the_single_leaf_tree() {
    for secret in 11u8..=18 {
        let internal = key(secret);
        let leaf = simple_cat_checksig(&internal);
        let commitment = TaprootCommitment::commit(&leaf, &internal).unwrap();
        let block = commitment.control_block(&leaf, TAPSCRIPT_LEAF_VERSION).unwrap();
        let info = reference(&leaf, x_only(secret));
        let expected = info
            .control_block(&(ScriptBuf::from_bytes(leaf.bytes.clone()), LeafVersion::TapScript))
            .unwrap();
        assert_eq!(block.serialize(), expected.serialize());
        assert_eq!(block.serialize().len(), 33);
        assert_eq!(block.leaf_version, 0xc0);
        assert!(block.merkle_path.is_empty());
        let mut bytes = vec![if commitment.output_key_odd { 0xc1 } else { 0xc0 }];
        bytes.extend_from_slice(&x_only(secret));
        assert_eq!(block.serialize(), bytes);
    }
}

#[test]
fn control_block_proves_the_leaf_under_the_output_key() {
    let secp = Secp256k1::new();
    let internal = key(19);
    let leaf = simple_cat_checksig(&internal);
    let commitment = TaprootCommitment::commit(&leaf, &internal).unwrap();
    let block = commitment.control_block(&leaf, TAPSCRIPT_LEAF_VERSION).unwrap();
    let decoded = bitcoin::taproot::ControlBlock::decode(&block.serialize()).unwrap();
    let output_key = XOnlyPublicKey::from_slice(&commitment.output_key).unwrap();
    assert!(decoded.verify_taproot_commitment(
        &secp,
        output_key,
        &ScriptBuf::from_bytes(leaf.bytes.clone()),
    ));
}

#[test]
fn control_block_with_a_path_lists_its_nodes() {
    let block = ControlBlock {
        leaf_version: 0xc0,
        output_key_odd: true,
        internal_key: key(20),
        merkle_path: vec![[0x11; 32], [0x22; 32]],
    };
    let mut expected = vec![0xc1];
    expected.extend_from_slice(&x_only(20));
    expected.extend_from_slice(&[0x11; 32]);
    expected.extend_from_slice(&[0x22; 32]);
    assert_eq!(block.serialize(), expected);
    assert_eq!(block.serialize().len(), 97);
    let decoded = bitcoin::taproot::ControlBlock::decode(&block.serialize()).unwrap();
    assert_eq!(decoded.serialize(), expected);
}

#[test]
fn control_block_of_another_leaf_is_not_found() {
    let internal = key(21);
    let leaf = simple_cat_checksig(&internal);
    let other = simple_cat_checksig(&key(22));
    let commitment = TaprootCommitment::commit(&leaf, &internal).unwrap();
    assert_eq!(
        commitment.control_block(&other, TAPSCRIPT_LEAF_VERSION).unwrap_err(),
        TaprootError::LeafNotFound,
    );
    let shorter = LeafScript { bytes: leaf.bytes[..34].to_vec() };
    assert_eq!(
        commitment.control_block(&shorter, TAPSCRIPT_LEAF_VERSION).unwrap_err(),
        TaprootError::LeafNotFound,
    );
}

#[test]
fn control_block_of_another_leaf_version_is_not_found() {
    let internal = key(23);
    let leaf = simple_cat_checksig(&internal);
    let commitment = TaprootCommitment::commit(&leaf, &internal).unwrap();
    assert_eq!(
        commitment.control_block(&leaf, 0xc2).unwrap_err(),
        TaprootError::LeafNotFound,
    );
    assert_eq!(commitment.control_block(&leaf, 0).unwrap_err(), TaprootError::LeafNotFound);
}

#[test]
fn single_leaf_tree_commits_like_its_leaf() {
    let internal = key(24);
    let leaf = simple_cat_checksig(&internal);
    let direct = TaprootCommitment::commit(&leaf, &internal).unwrap();
    let tree = ScriptTree::SingleLeaf(leaf.clone());
    let by_tree = TaprootCommitment::commit_tree(&tree, &internal).unwrap();
    assert_eq!(by_tree.output_key, direct.output_key);
    assert_eq!(by_tree.output_key_odd, direct.output_key_odd);
    let listed = ScriptTree::MultiLeaf(vec![TreeLeaf { depth: 0, script: leaf.clone() }]);
    let by_list = TaprootCommitment::commit_tree(&listed, &internal).unwrap();
    assert_eq!(by_list.output_key, direct.output_key);
    assert_eq!(by_list.leaf.bytes, leaf.bytes);
}

#[test]
fn trees_that_are_no_single_root_leaf_cannot_be_built() {
    let internal = key(25);
    let leaf = simple_cat_checksig(&internal);
    let deep = ScriptTree::MultiLeaf(vec![TreeLeaf { depth: 1, script: leaf.clone() }]);
    assert_eq!(
        TaprootCommitment::commit_tree(&deep, &internal).unwrap_err(),
        TaprootError::TreeConstruction,
    );
    let too_deep = ScriptTree::MultiLeaf(vec![TreeLeaf { depth: 129, script: leaf.clone() }]);
    assert_eq!(
        TaprootCommitment::commit_tree(&too_deep, &internal).unwrap_err(),
        TaprootError::TreeConstruction,
    );
    let empty = ScriptTree::MultiLeaf(vec![]);
    assert_eq!(
        TaprootCommitment::commit_tree(&empty, &internal).unwrap_err(),
        TaprootError::TreeConstruction,
    );
    let two = ScriptTree::MultiLeaf(vec![
        TreeLeaf { depth: 1, script: leaf.clone() },
        TreeLeaf { depth: 1, script: simple_cat_checksig(&key(26)) },
    ]);
    assert_eq!(
        TaprootCommitment::commit_tree(&two, &internal).unwrap_err(),
        TaprootError::TreeConstruction,
    );
}

#[test]
fn failed_tweak_is_an_error() {
    let internal = key(27);
    let leaf = simple_cat_checksig(&internal);
    let res = TaprootCommitment::from_tweak(leaf, internal, [0x33; 32], None);
    assert_eq!(res.unwrap_err(), TaprootError::Tweak);
}

#[test]
fn tweak_result_becomes_the_commitment() {
    let internal = key(28);
    let leaf = simple_cat_checksig(&internal);
    let commitment =
        TaprootCommitment::from_tweak(leaf.clone(), internal, [0x33; 32], Some(([0x44; 32], true)))
            .unwrap();
    assert_eq!(commitment.output_key, [0x44; 32]);
    assert!(commitment.output_key_odd);
    assert_eq!(commitment.merkle_root, [0x33; 32]);
    assert_eq!(commitment.leaf.bytes, leaf.bytes);
    assert_eq!(commitment.internal_key.serialize(), x_only(28));
}

//! The Taproot commitment to a single leaf script.

use vstd::prelude::*;
use bitcoin::hashes::Hash as _;
use bitcoin::secp256k1::{Parity, Scalar, Secp256k1, XOnlyPublicKey};
use bitcoin::taproot::{LeafVersion, TapLeafHash, TapNodeHash, TapTweakHash};
use crate::bytes::bytes_equal;
use crate::keys::{is_x_only_point, PublicKey};
use crate::simple_script::{
    builder_into_bytes, builder_new, builder_push_key, builder_push_opcode, LeafScript,
    MAX_LEAF_SCRIPT_LEN, OP_PUSHBYTES_32,
};

verus! {

/// The leaf version of tapscript.
pub const TAPSCRIPT_LEAF_VERSION: u8 = 0xc0;

/// The opcode that pushes the number 1: witness version 1.
pub const OP_PUSHNUM_1: u8 = 0x51;

/// The tagged hash of a tapscript leaf that holds `script`.
pub uninterp spec fn tap_leaf_hash(script: Seq<u8>) -> Seq<u8>;

/// The tagged hash of an internal key followed by a Merkle root: the tweak
/// that turns the internal key into the output key.
pub uninterp spec fn tap_tweak_hash(internal_key: Seq<u8>, merkle_root: Seq<u8>) -> Seq<u8>;

/// The x-only key and the parity (`true` for odd) of the point that results
/// from adding `tweak` times the generator to the point with x coordinate
/// `key`; `None` where the tweak is not below the curve order or the sum is
/// the point at infinity.
pub uninterp spec fn tweaked_key(key: Seq<u8>, tweak: Seq<u8>) -> Option<(Seq<u8>, bool)>;

/// A tweak result with its key taken as a sequence of bytes.
pub open spec fn tweak_view(out: Option<([u8; 32], bool)>) -> Option<(Seq<u8>, bool)> {
    match out {
        Some((key, odd)) => Some((key@, odd)),
        None => None,
    }
}

/// `TapLeafHash::from_script` with the tapscript leaf version: the leaf hash
/// of the script, which `tap_leaf_hash` names.
#[verifier::external_body]
pub(crate) fn leaf_hash_of(script: &[u8]) -> (hash: [u8; 32])
    ensures
        hash@ == tap_leaf_hash(script@),
{
    let script = bitcoin::Script::from_bytes(script);
    TapLeafHash::from_script(script, LeafVersion::TapScript).to_byte_array()
}

/// `TapTweakHash::from_key_and_tweak` with a Merkle root: the hash of the
/// key's serialization followed by the root, which `tap_tweak_hash` names.
#[verifier::external_body]
fn tweak_hash_of(internal_key: &[u8; 32], merkle_root: &[u8; 32]) -> (hash: [u8; 32])
    requires
        is_x_only_point(internal_key@),
    ensures
        hash@ == tap_tweak_hash(internal_key@, merkle_root@),
{
    let key = XOnlyPublicKey::from_slice(internal_key).unwrap();
    let root = TapNodeHash::from_byte_array(*merkle_root);
    TapTweakHash::from_key_and_tweak(key, Some(root)).to_byte_array()
}

/// `XOnlyPublicKey::add_tweak`: the tweaked key and its parity, or `None`
/// where `Scalar::from_be_bytes` refuses the tweak or the addition fails.
/// `tweaked_key` names the outcome.
#[verifier::external_body]
fn add_tweak(internal_key: &[u8; 32], tweak: &[u8; 32]) -> (out: Option<([u8; 32], bool)>)
    requires
        is_x_only_point(internal_key@),
    ensures
        tweak_view(out) == tweaked_key(internal_key@, tweak@),
{
    let key = XOnlyPublicKey::from_slice(internal_key).ok()?;
    let scalar = Scalar::from_be_bytes(*tweak).ok()?;
    let (tweaked, parity) = key.add_tweak(&Secp256k1::verification_only(), &scalar).ok()?;
    Some((tweaked.serialize(), match parity {
        Parity::Even => false,
        Parity::Odd => true,
    }))
}

/// What can go wrong when committing to a script tree or proving a leaf.
#[derive(Clone, Copy, Debug, PartialEq, Eq, Structural)]
pub enum TaprootError {
    /// The tree is not one that holds a single leaf at its root, or the leaf
    /// is too long to be spent.
    TreeConstruction,
    /// Tweaking the internal key gave no valid output key.
    Tweak,
    /// The leaf asked for is not the one committed to.
    LeafNotFound,
}

/// A leaf of a script tree, with its depth below the root.
#[derive(Clone, Debug)]
pub struct TreeLeaf {
    pub depth: u8,
    pub script: LeafScript,
}

/// A script tree to commit to.
#[derive(Clone, Debug)]
pub enum ScriptTree {
    /// One leaf, which is the root.
    SingleLeaf(LeafScript),
    /// Leaves with their depths, in depth-first order.
    MultiLeaf(Vec<TreeLeaf>),
}

impl ScriptTree {
    /// The script at the root, where the tree holds exactly one leaf and
    /// that leaf is the root.
    pub open spec fn root_leaf(self) -> Option<Seq<u8>> {
        match self {
            ScriptTree::SingleLeaf(script) => Some(script@),
            ScriptTree::MultiLeaf(leaves) => if leaves@.len() == 1 && leaves@[0].depth == 0 {
                Some(leaves@[0].script@)
            } else {
                None
            },
        }
    }
}

/// The output key and parity that commit to `leaf` under `internal_key`:
/// the Merkle root of a one-leaf tree is the leaf hash, and the output key is
/// the internal key tweaked by the hash of key and root.
pub open spec fn commitment_of(leaf: Seq<u8>, internal_key: Seq<u8>) -> Option<(Seq<u8>, bool)> {
    tweaked_key(internal_key, tap_tweak_hash(internal_key, tap_leaf_hash(leaf)))
}

/// A commitment to one leaf script under an internal key.
#[derive(Clone, Debug)]
pub struct TaprootCommitment {
    pub leaf: LeafScript,
    pub internal_key: PublicKey,
    pub merkle_root: [u8; 32],
    pub output_key: [u8; 32],
    pub output_key_odd: bool,
}

/// The proof that a leaf is committed to by an output key.
#[derive(Clone, Debug)]
pub struct ControlBlock {
    pub leaf_version: u8,
    pub output_key_odd: bool,
    pub internal_key: PublicKey,
    pub merkle_path: Vec<[u8; 32]>,
}

/// The first byte of a serialized control block: the leaf version with the
/// parity of the output key in its lowest bit.
pub open spec fn control_byte(leaf_version: u8, output_key_odd: bool) -> u8 {
    if output_key_odd {
        leaf_version | 1
    } else {
        leaf_version
    }
}

/// The nodes of a Merkle path, one after the other.
pub open spec fn concat_nodes(path: Seq<[u8; 32]>) -> Seq<u8>
    decreases path.len(),
{
    if path.len() == 0 {
        Seq::<u8>::empty()
    } else {
        concat_nodes(path.drop_last()) + path.last()@
    }
}

/// The serialized control block of the single leaf of a tree: the tapscript
/// leaf version with the parity bit, then the internal key.
pub open spec fn single_leaf_control_block(output_key_odd: bool, internal_key: Seq<u8>) -> Seq<u8> {
    seq![control_byte(TAPSCRIPT_LEAF_VERSION, output_key_odd)] + internal_key
}

impl ControlBlock {
    /// The serialized control block: control byte, internal key, Merkle
    /// path.
    pub open spec fn encoding(self) -> Seq<u8> {
        seq![control_byte(self.leaf_version, self.output_key_odd)] + self.internal_key@
            + concat_nodes(self.merkle_path@)
    }

    /// Serializes the control block as it stands in a witness.
    pub fn serialize(&self) -> (bytes: Vec<u8>)
        ensures
            bytes@ == self.encoding(),
            bytes@.len() == 33 + 32 * self.merkle_path@.len(),
    {
        let first: u8 = if self.output_key_odd {
            self.leaf_version | 1
        } else {
            self.leaf_version
        };
        let key = self.internal_key.serialize();
        let mut bytes: Vec<u8> = Vec::new();
        bytes.push(first);
        bytes.extend_from_slice(key.as_slice());
        let ghost head = bytes@;
        assert(head =~= seq![control_byte(self.leaf_version, self.output_key_odd)]
            + self.internal_key@);
        let mut i: usize = 0;
        while i < self.merkle_path.len()
            invariant
                i <= self.merkle_path@.len(),
                head.len() == 33,
                bytes@ == head + concat_nodes(self.merkle_path@.take(i as int)),
                bytes@.len() == 33 + 32 * i,
            decreases self.merkle_path@.len() - i,
        {
            let node = &self.merkle_path[i];
            bytes.extend_from_slice(node.as_slice());
            proof {
                let next = self.merkle_path@.take(i + 1);
                assert(next.drop_last() =~= self.merkle_path@.take(i as int));
                assert(next.last() == self.merkle_path@[i as int]);
                assert(bytes@ =~= head + concat_nodes(next));
            }
            i = i + 1;
        }
        assert(self.merkle_path@.take(i as int) =~= self.merkle_path@);
        bytes
    }
}

impl TaprootCommitment {
    /// The leaf can be spent, the Merkle root is the leaf hash and the output
    /// key is the tweaked internal key.
    pub open spec fn wf(self) -> bool {
        &&& self.leaf@.len() <= MAX_LEAF_SCRIPT_LEN
        &&& self.merkle_root@ == tap_leaf_hash(self.leaf@)
        &&& commitment_of(self.leaf@, self.internal_key@) == Some(
            (self.output_key@, self.output_key_odd),
        )
    }

    /// The commitment that a tweak result gives: none where the tweak failed.
    pub fn from_tweak(
        leaf: LeafScript,
        internal_key: PublicKey,
        merkle_root: [u8; 32],
        tweaked: Option<([u8; 32], bool)>,
    ) -> (res: Result<TaprootCommitment, TaprootError>)
        ensures
            match tweaked {
                Some((output_key, output_key_odd)) => res == Ok::<TaprootCommitment, TaprootError>(
                    TaprootCommitment {
                        leaf,
                        internal_key,
                        merkle_root,
                        output_key,
                        output_key_odd,
                    },
                ),
                None => res == Err::<TaprootCommitment, TaprootError>(TaprootError::Tweak),
            },
    {
        match tweaked {
            Some((output_key, output_key_odd)) => Ok(
                TaprootCommitment { leaf, internal_key, merkle_root, output_key, output_key_odd },
            ),
            None => Err(TaprootError::Tweak),
        }
    }

    /// Commits to `leaf` as the only leaf of a tree under `internal_key`. A
    /// leaf that is too long to be spent cannot be placed in the tree.
    pub fn commit(leaf: &LeafScript, internal_key: &PublicKey) -> (res: Result<
        TaprootCommitment,
        TaprootError,
    >)
        ensures
            res is Ok <==> leaf@.len() <= MAX_LEAF_SCRIPT_LEN && commitment_of(
                leaf@,
                internal_key@,
            ) is Some,
            match res {
                Ok(c) => c.wf() && c.leaf@ == leaf@ && c.internal_key@ == internal_key@,
                Err(e) => e == if leaf@.len() > MAX_LEAF_SCRIPT_LEN {
                    TaprootError::TreeConstruction
                } else {
                    TaprootError::Tweak
                },
            },
    {
        if leaf.bytes.len() > MAX_LEAF_SCRIPT_LEN {
            return Err(TaprootError::TreeConstruction);
        }
        let key = internal_key.serialize();
        let merkle_root = leaf_hash_of(leaf.bytes.as_slice());
        let tweak = tweak_hash_of(&key, &merkle_root);
        let tweaked = add_tweak(&key, &tweak);
        TaprootCommitment::from_tweak(
            LeafScript { bytes: leaf.bytes.clone() },
            *internal_key,
            merkle_root,
            tweaked,
        )
    }

    /// The output script that pays to the commitment's output key.
    pub fn script_pubkey(&self) -> (script: Vec<u8>)
        ensures
            script@ == p2tr_script(self.output_key@),
    {
        p2tr_script_pubkey(&self.output_key)
    }

    /// Commits to a script tree. Only a tree whose single leaf is its root
    /// can be built.
    pub fn commit_tree(tree: &ScriptTree, internal_key: &PublicKey) -> (res: Result<
        TaprootCommitment,
        TaprootError,
    >)
        ensures
            match tree.root_leaf() {
                None => res == Err::<TaprootCommitment, TaprootError>(
                    TaprootError::TreeConstruction,
                ),
                Some(leaf) => {
                    &&& res is Ok <==> leaf.len() <= MAX_LEAF_SCRIPT_LEN && commitment_of(
                        leaf,
                        internal_key@,
                    ) is Some
                    &&& match res {
                        Ok(c) => c.wf() && c.leaf@ == leaf && c.internal_key@ == internal_key@,
                        Err(e) => e == if leaf.len() > MAX_LEAF_SCRIPT_LEN {
                            TaprootError::TreeConstruction
                        } else {
                            TaprootError::Tweak
                        },
                    }
                },
            },
    {
        match tree {
            ScriptTree::SingleLeaf(script) => TaprootCommitment::commit(script, internal_key),
            ScriptTree::MultiLeaf(leaves) => {
                if leaves.len() == 1 && leaves[0].depth == 0 {
                    TaprootCommitment::commit(&leaves[0].script, internal_key)
                } else {
                    Err(TaprootError::TreeConstruction)
                }
            },
        }
    }

    /// The control block that proves the committed leaf: tapscript, the
    /// parity of the output key, the internal key and an empty Merkle path.
    pub fn leaf_control_block(&self) -> (block: ControlBlock)
        ensures
            block.leaf_version == TAPSCRIPT_LEAF_VERSION,
            block.output_key_odd == self.output_key_odd,
            block.internal_key == self.internal_key,
            block.merkle_path@ == Seq::<[u8; 32]>::empty(),
    {
        ControlBlock {
            leaf_version: TAPSCRIPT_LEAF_VERSION,
            output_key_odd: self.output_key_odd,
            internal_key: self.internal_key,
            merkle_path: Vec::new(),
        }
    }

    /// The control block that proves `leaf`, with `leaf_version`, to be
    /// committed to: it exists for the committed leaf as tapscript only.
    pub fn control_block(&self, leaf: &LeafScript, leaf_version: u8) -> (res: Result<
        ControlBlock,
        TaprootError,
    >)
        ensures
            res is Ok <==> leaf@ == self.leaf@ && leaf_version == TAPSCRIPT_LEAF_VERSION,
            match res {
                Ok(block) => {
                    &&& block.leaf_version == leaf_version
                    &&& block.output_key_odd == self.output_key_odd
                    &&& block.internal_key == self.internal_key
                    &&& block.merkle_path@ == Seq::<[u8; 32]>::empty()
                },
                Err(e) => e == TaprootError::LeafNotFound,
            },
    {
        if leaf_version == TAPSCRIPT_LEAF_VERSION && bytes_equal(
            leaf.bytes.as_slice(),
            self.leaf.bytes.as_slice(),
        ) {
            Ok(self.leaf_control_block())
        } else {
            Err(TaprootError::LeafNotFound)
        }
    }
}

/// The output script that pays to a Taproot output key: witness version 1
/// and the key as its 32-byte program.
pub open spec fn p2tr_script(output_key: Seq<u8>) -> Seq<u8> {
    seq![OP_PUSHNUM_1, OP_PUSHBYTES_32] + output_key
}

/// Builds the output script that pays to `output_key`.
pub fn p2tr_script_pubkey(output_key: &[u8; 32]) -> (script: Vec<u8>)
    ensures
        script@ == p2tr_script(output_key@),
{
    let builder = builder_new();
    let builder = builder_push_opcode(builder, OP_PUSHNUM_1);
    let builder = builder_push_key(builder, output_key);
    let script = builder_into_bytes(builder);
    assert(script@ =~= p2tr_script(output_key@));
    script
}

/// A commitment is determined by its leaf and internal key: two commitments
/// to the same leaf under the same key have the same Merkle root, output key
/// and parity.
pub proof fn commitment_is_stable(a: TaprootCommitment, b: TaprootCommitment)
    requires
        a.wf(),
        b.wf(),
        a.leaf@ == b.leaf@,
        a.internal_key@ == b.internal_key@,
    ensures
        a.merkle_root@ == b.merkle_root@,
        a.output_key@ == b.output_key@,
        a.output_key_odd == b.output_key_odd,
{
}

/// The control block of a single-leaf commitment serializes to 33 bytes:
/// the tapscript leaf version with the parity bit, then the internal key.
pub proof fn single_leaf_control_block_encoding(block: ControlBlock)
    requires
        block.leaf_version == TAPSCRIPT_LEAF_VERSION,
        block.merkle_path@.len() == 0,
    ensures
        block.encoding() == single_leaf_control_block(block.output_key_odd, block.internal_key@),
        block.encoding() == seq![if block.output_key_odd { 0xc1u8 } else { 0xc0u8 }]
            + block.internal_key@,
        block.encoding().len() == 33,
{
    assert(0xc0u8 | 1 == 0xc1u8) by (bit_vector);
    block.internal_key.view_len();
    assert(concat_nodes(block.merkle_path@) =~= Seq::<u8>::empty());
    assert(block.encoding() =~= single_leaf_control_block(
        block.output_key_odd,
        block.internal_key@,
    ));
}

} // verus!

//! The leaf script: concatenate two stack items, then check the result as a
//! signature under one key.

use vstd::prelude::*;
use bitcoin::opcodes::Opcode;
use bitcoin::script::Builder;
use crate::keys::PublicKey;

verus! {

/// The opcode that concatenates the two topmost stack items.
pub const OP_CAT: u8 = 0x7e;

/// The opcode that checks a signature against a public key.
pub const OP_CHECKSIG: u8 = 0xac;

/// The opcode that pushes the next 32 bytes.
pub const OP_PUSHBYTES_32: u8 = 0x20;

/// The script builder of the `bitcoin` crate.
#[verifier::external_type_specification]
#[verifier::external_body]
pub struct ExBuilder(bitcoin::script::Builder);

/// The bytes of the script that a builder has collected so far.
pub uninterp spec fn builder_bytes(builder: Builder) -> Seq<u8>;

/// `Builder::new`: a builder that holds the empty script.
#[verifier::external_body]
pub(crate) fn builder_new() -> (builder: Builder)
    ensures
        builder_bytes(builder) == Seq::<u8>::empty(),
{
    Builder::new()
}

/// `Builder::push_opcode`: appends the one byte of the opcode.
#[verifier::external_body]
pub(crate) fn builder_push_opcode(builder: Builder, opcode: u8) -> (next: Builder)
    ensures
        builder_bytes(next) == builder_bytes(builder).push(opcode),
{
    builder.push_opcode(Opcode::from(opcode))
}

/// `Builder::push_slice` on 32 bytes: appends the push opcode for 32 bytes
/// and then the bytes themselves.
#[verifier::external_body]
pub(crate) fn builder_push_key(builder: Builder, data: &[u8; 32]) -> (next: Builder)
    ensures
        builder_bytes(next) == builder_bytes(builder).push(OP_PUSHBYTES_32) + data@,
{
    builder.push_slice(data)
}

/// `Builder::into_bytes`: the collected script.
#[verifier::external_body]
pub(crate) fn builder_into_bytes(builder: Builder) -> (bytes: Vec<u8>)
    ensures
        bytes@ == builder_bytes(builder),
{
    builder.into_bytes()
}

/// The script that concatenates two stack items and checks the result as a
/// signature under `key`.
pub open spec fn cat_checksig_script(key: Seq<u8>) -> Seq<u8> {
    seq![OP_CAT, OP_PUSHBYTES_32] + key + seq![OP_CHECKSIG]
}

/// The longest script that can be spent as a leaf. A witness holds it behind
/// the two halves of a signature and in front of the control block, and
/// records where each item starts as a 32-bit number: the halves and the
/// script, each with its length in front, must end within that range.
pub const MAX_LEAF_SCRIPT_LEN: usize = 0xffff_ffb8;

/// A script committed to as the single leaf of a Taproot tree.
#[derive(Clone, Debug)]
pub struct LeafScript {
    pub bytes: Vec<u8>,
}

impl View for LeafScript {
    type V = Seq<u8>;

    open spec fn view(&self) -> Seq<u8> {
        self.bytes@
    }
}

/// Builds the leaf script for `pubkey`.
pub fn simple_cat_checksig(pubkey: &PublicKey) -> (script: LeafScript)
    ensures
        script@ == cat_checksig_script(pubkey@),
{
    let key = pubkey.serialize();
    let builder = builder_new();
    let builder = builder_push_opcode(builder, OP_CAT);
    let builder = builder_push_key(builder, &key);
    let builder = builder_push_opcode(builder, OP_CHECKSIG);
    let bytes = builder_into_bytes(builder);
    assert(bytes@ =~= cat_checksig_script(pubkey@));
    LeafScript { bytes }
}

/// The leaf script is 35 bytes long and holds its key at offset 2: equal
/// keys give equal scripts, and different keys give different scripts.
pub proof fn leaf_script_is_determined_by_key(a: Seq<u8>, b: Seq<u8>)
    requires
        a.len() == 32,
        b.len() == 32,
    ensures
        cat_checksig_script(a).len() == 35,
        cat_checksig_script(a).subrange(2, 34) == a,
        a == b <==> cat_checksig_script(a) == cat_checksig_script(b),
{
    assert(cat_checksig_script(a).subrange(2, 34) =~= a);
    assert(cat_checksig_script(b).subrange(2, 34) =~= b);
}

} // verus!

//! The witness stack of a script-path spend.

use vstd::prelude::*;
use bitcoin::Witness;
use crate::bytes::bytes_to_vec;
use crate::simple_script::{LeafScript, MAX_LEAF_SCRIPT_LEN};

verus! {

/// The witness stack of the `bitcoin` crate.
#[verifier::external_type_specification]
#[verifier::external_body]
pub struct ExWitness(bitcoin::Witness);

/// The items that a witness stack holds, first pushed first.
pub uninterp spec fn witness_items(witness: Witness) -> Seq<Seq<u8>>;

/// `Witness::clone`: the copy holds the same items.
pub assume_specification[ <bitcoin::Witness as Clone>::clone ](witness: &Witness) -> (copy: Witness)
    ensures
        witness_items(copy) == witness_items(*witness),
;

/// The number of bytes that the length of an item of `length` bytes takes
/// in a serialized witness.
pub open spec fn compact_size_len(length: nat) -> nat {
    if length <= 0xfc {
        1
    } else if length <= 0xffff {
        3
    } else if length <= 0xffff_ffff {
        5
    } else {
        9
    }
}

/// The number of bytes that the items take in a serialized witness, each
/// with its length in front.
pub open spec fn content_size(items: Seq<Seq<u8>>) -> nat
    decreases items.len(),
{
    if items.len() == 0 {
        0
    } else {
        content_size(items.drop_last()) + compact_size_len(items.last().len())
            + items.last().len()
    }
}

/// One more item adds its length and the bytes of that length's encoding.
pub proof fn content_size_push(items: Seq<Seq<u8>>, item: Seq<u8>)
    ensures
        content_size(items.push(item)) == content_size(items) + compact_size_len(item.len())
            + item.len(),
        content_size(Seq::<Seq<u8>>::empty()) == 0,
{
    assert(items.push(item).drop_last() =~= items);
}

/// `Witness::new`: a stack without items.
#[verifier::external_body]
pub(crate) fn witness_new() -> (witness: Witness)
    ensures
        witness_items(witness) == Seq::<Seq<u8>>::empty(),
{
    Witness::new()
}

/// `Witness::push`: the item becomes the last one; the others stay. The
/// stack records where each item starts as a 32-bit number, so the items
/// that it holds already must not take more bytes than such a number counts.
#[verifier::external_body]
pub(crate) fn witness_push(witness: &mut Witness, item: &[u8])
    requires
        content_size(witness_items(*old(witness))) <= u32::MAX,
    ensures
        witness_items(*final(witness)) == witness_items(*old(witness)).push(item@),
{
    witness.push(item)
}

/// `Witness::len`: the number of items.
#[verifier::external_body]
pub(crate) fn witness_len(witness: &Witness) -> (len: usize)
    ensures
        len == witness_items(*witness).len(),
{
    witness.len()
}

/// `Witness::nth` below the number of items: a copy of the item at
/// `index`.
#[verifier::external_body]
pub(crate) fn witness_nth(witness: &Witness, index: usize) -> (item: Option<Vec<u8>>)
    requires
        index < witness_items(*witness).len(),
    ensures
        item is Some,
        item matches Some(bytes) ==> bytes@ == witness_items(*witness)[index as int],
{
    witness.nth(index).map(|bytes| bytes.to_vec())
}

/// The length of a signature without a hash type byte.
pub const SIGNATURE_LENGTH: usize = 64;

/// Why no witness can be assembled.
#[derive(Clone, Copy, Debug, PartialEq, Eq, Structural)]
pub enum WitnessError {
    /// The signature is not 64 bytes long.
    UnexpectedSignatureLength { length: usize },
}

/// The witness items of a script-path spend of the concatenating leaf: the
/// two halves of the signature, the leaf script and the control block.
pub open spec fn script_path_items(
    signature: Seq<u8>,
    leaf: Seq<u8>,
    control_block: Seq<u8>,
) -> Seq<Seq<u8>> {
    seq![signature.subrange(0, 32), signature.subrange(32, 64), leaf, control_block]
}

/// Splits a 64-byte signature into its halves.
pub fn split_signature(signature: &[u8]) -> (res: Result<(Vec<u8>, Vec<u8>), WitnessError>)
    ensures
        match res {
            Ok((r, s)) => {
                &&& signature@.len() == 64
                &&& r@ == signature@.subrange(0, 32)
                &&& s@ == signature@.subrange(32, 64)
            },
            Err(e) => signature@.len() != 64 && e == (WitnessError::UnexpectedSignatureLength {
                length: signature@.len() as usize,
            }),
        },
{
    if signature.len() != SIGNATURE_LENGTH {
        return Err(WitnessError::UnexpectedSignatureLength { length: signature.len() });
    }
    let r = bytes_to_vec(&signature[0..32]);
    let s = bytes_to_vec(&signature[32..64]);
    Ok((r, s))
}

/// Assembles the witness that spends by running `leaf`: first half of the
/// signature, second half, leaf script, control block, in this order.
pub fn assemble(signature: &[u8], leaf: &LeafScript, control_block: &[u8]) -> (res: Result<
    Witness,
    WitnessError,
>)
    requires
        leaf@.len() <= MAX_LEAF_SCRIPT_LEN,
    ensures
        match res {
            Ok(witness) => signature@.len() == 64 && witness_items(witness) == script_path_items(
                signature@,
                leaf@,
                control_block@,
            ),
            Err(e) => signature@.len() != 64 && e == (WitnessError::UnexpectedSignatureLength {
                length: signature@.len() as usize,
            }),
        },
{
    match split_signature(signature) {
        Err(e) => Err(e),
        Ok((r, s)) => {
            let mut witness = witness_new();
            proof {
                let none = Seq::<Seq<u8>>::empty();
                content_size_push(none, r@);
                content_size_push(none.push(r@), s@);
                content_size_push(none.push(r@).push(s@), leaf@);
            }
            witness_push(&mut witness, r.as_slice());
            witness_push(&mut witness, s.as_slice());
            witness_push(&mut witness, leaf.bytes.as_slice());
            witness_push(&mut witness, control_block);
            assert(witness_items(witness) =~= script_path_items(
                signature@,
                leaf@,
                control_block@,
            ));
            Ok(witness)
        },
    }
}

/// The halves of a 64-byte signature, put together again, are the signature.
pub proof fn split_then_concat(signature: Seq<u8>)
    requires
        signature.len() == 64,
    ensures
        signature.subrange(0, 32) + signature.subrange(32, 64) == signature,
        signature.subrange(0, 32).len() == 32,
        signature.subrange(32, 64).len() == 32,
{
    assert(signature.subrange(0, 32) + signature.subrange(32, 64) =~= signature);
}

} // verus!

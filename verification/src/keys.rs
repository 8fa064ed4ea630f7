//! X-only public keys.

use vstd::prelude::*;
use bitcoin::secp256k1::XOnlyPublicKey;

verus! {

/// Whether 32 bytes are the x coordinate of a point on the secp256k1 curve.
pub uninterp spec fn is_x_only_point(bytes: Seq<u8>) -> bool;

/// Calls `XOnlyPublicKey::from_slice` of secp256k1 and reports whether it
/// accepted the bytes. The parser accepts 32 bytes exactly when they are the
/// x coordinate of a curve point, which is what `is_x_only_point` names.
#[verifier::external_body]
fn parses_as_x_only(bytes: &[u8; 32]) -> (ok: bool)
    ensures
        ok == is_x_only_point(bytes@),
{
    XOnlyPublicKey::from_slice(bytes).is_ok()
}

/// The x coordinate of a curve point: the key that a leaf script checks a
/// signature against, or the internal key of a Taproot output.
#[derive(Clone, Copy, Debug)]
pub struct PublicKey {
    bytes: [u8; 32],
}

impl View for PublicKey {
    type V = Seq<u8>;

    closed spec fn view(&self) -> Seq<u8> {
        self.bytes@
    }
}

impl PublicKey {
    /// Every key is the x coordinate of a curve point.
    #[verifier::type_invariant]
    spec fn on_curve(self) -> bool {
        is_x_only_point(self.bytes@)
    }

    /// The key with the given serialization, if the bytes are the x
    /// coordinate of a curve point.
    pub fn from_bytes(bytes: [u8; 32]) -> (key: Option<PublicKey>)
        ensures
            key is Some <==> is_x_only_point(bytes@),
            key matches Some(k) ==> k@ == bytes@,
    {
        if parses_as_x_only(&bytes) {
            Some(PublicKey { bytes })
        } else {
            None
        }
    }

    /// A key is 32 bytes long.
    pub proof fn view_len(self)
        ensures
            self@.len() == 32,
    {
    }

    /// The 32-byte serialization of the key.
    pub fn serialize(&self) -> (bytes: [u8; 32])
        ensures
            bytes@ == self@,
            is_x_only_point(bytes@),
            bytes@.len() == 32,
    {
        proof {
            use_type_invariant(self);
        }
        self.bytes
    }
}

} // verus!

//! The kinds of output script, told apart by length and prefix bytes.

use vstd::prelude::*;

verus! {

/// The kind of an output script.
#[derive(Clone, Copy, Debug, PartialEq, Eq, Structural)]
pub enum ScriptType {
    /// Pay to the hash of a public key.
    P2PKH,
    /// Pay to the hash of a script.
    P2SH,
    /// Witness version 0 with a 20-byte program.
    P2WPKH,
    /// Witness version 0 with a 32-byte program.
    P2WSH,
    /// Witness version 1 with a 32-byte program.
    P2TR,
    /// A witness program of another version or length.
    WitnessProgramOther,
    /// Anything else.
    Other,
}

/// `OP_DUP OP_HASH160 <20 bytes> OP_EQUALVERIFY OP_CHECKSIG`.
pub open spec fn is_p2pkh(script: Seq<u8>) -> bool {
    &&& script.len() == 25
    &&& script[0] == 0x76
    &&& script[1] == 0xa9
    &&& script[2] == 0x14
    &&& script[23] == 0x88
    &&& script[24] == 0xac
}

/// `OP_HASH160 <20 bytes> OP_EQUAL`.
pub open spec fn is_p2sh(script: Seq<u8>) -> bool {
    &&& script.len() == 23
    &&& script[0] == 0xa9
    &&& script[1] == 0x14
    &&& script[22] == 0x87
}

/// The witness version of a witness program: a script of 4 to 42 bytes that
/// is a version opcode (`OP_0`, or `OP_1` to `OP_16`) followed by one push of
/// the 2 to 40 bytes that remain.
pub open spec fn witness_version(script: Seq<u8>) -> Option<u8> {
    if 4 <= script.len() <= 42 && 2 <= script[1] <= 40 && script.len() - 2 == script[1] {
        if script[0] == 0 {
            Some(0u8)
        } else if 0x51 <= script[0] <= 0x60 {
            Some((script[0] - 0x50) as u8)
        } else {
            None
        }
    } else {
        None
    }
}

/// The kind of a script. A script of one of the two older forms is of that
/// kind; a witness program is told apart by version and program length; all
/// others are `Other`.
pub open spec fn script_type(script: Seq<u8>) -> ScriptType {
    if is_p2pkh(script) {
        ScriptType::P2PKH
    } else if is_p2sh(script) {
        ScriptType::P2SH
    } else {
        match witness_version(script) {
            Some(version) => if version == 0 && script.len() == 22 {
                ScriptType::P2WPKH
            } else if version == 0 && script.len() == 34 {
                ScriptType::P2WSH
            } else if version == 1 && script.len() == 34 {
                ScriptType::P2TR
            } else {
                ScriptType::WitnessProgramOther
            },
            None => ScriptType::Other,
        }
    }
}

/// The witness version of a script, if it is a witness program.
pub fn witness_version_of(script: &[u8]) -> (version: Option<u8>)
    ensures
        version == witness_version(script@),
{
    let len = script.len();
    if len < 4 || len > 42 {
        return None;
    }
    let push = script[1];
    if push < 2 || push > 40 || len - 2 != push as usize {
        return None;
    }
    let first = script[0];
    if first == 0 {
        Some(0)
    } else if 0x51 <= first && first <= 0x60 {
        Some(first - 0x50)
    } else {
        None
    }
}

/// Classifies an output script.
pub fn classify(script: &[u8]) -> (kind: ScriptType)
    ensures
        kind == script_type(script@),
{
    let len = script.len();
    if len == 25 && script[0] == 0x76 && script[1] == 0xa9 && script[2] == 0x14 && script[23]
        == 0x88 && script[24] == 0xac {
        ScriptType::P2PKH
    } else if len == 23 && script[0] == 0xa9 && script[1] == 0x14 && script[22] == 0x87 {
        ScriptType::P2SH
    } else {
        match witness_version_of(script) {
            Some(version) => {
                if version == 0 && len == 22 {
                    ScriptType::P2WPKH
                } else if version == 0 && len == 34 {
                    ScriptType::P2WSH
                } else if version == 1 && len == 34 {
                    ScriptType::P2TR
                } else {
                    ScriptType::WitnessProgramOther
                }
            },
            None => ScriptType::Other,
        }
    }
}

impl ScriptType {
    /// The name under which a report shows the kind.
    pub fn label(self) -> (name: &'static str)
        ensures
            name@ == match self {
                ScriptType::P2PKH => "P2PKH"@,
                ScriptType::P2SH => "P2SH"@,
                ScriptType::P2WPKH => "P2WPKH"@,
                ScriptType::P2WSH => "P2WSH"@,
                ScriptType::P2TR => "P2TR (Taproot)"@,
                ScriptType::WitnessProgramOther => "Witness Program"@,
                ScriptType::Other => "Other"@,
            },
    {
        match self {
            ScriptType::P2PKH => "P2PKH",
            ScriptType::P2SH => "P2SH",
            ScriptType::P2WPKH => "P2WPKH",
            ScriptType::P2WSH => "P2WSH",
            ScriptType::P2TR => "P2TR (Taproot)",
            ScriptType::WitnessProgramOther => "Witness Program",
            ScriptType::Other => "Other",
        }
    }
}

/// The two older forms and the witness programs exclude one another, so the
/// order in which `script_type` asks for them decides nothing.
pub proof fn script_kinds_are_disjoint(script: Seq<u8>)
    ensures
        !(is_p2pkh(script) && is_p2sh(script)),
        is_p2pkh(script) || is_p2sh(script) ==> witness_version(script) is None,
        script_type(script) == ScriptType::P2PKH <==> is_p2pkh(script),
        script_type(script) == ScriptType::P2SH <==> is_p2sh(script),
        script_type(script) == ScriptType::Other <==> !is_p2pkh(script) && !is_p2sh(script)
            && witness_version(script) is None,
{
}

/// A version 1 witness program of 32 bytes is Taproot, whatever the bytes.
pub proof fn witness_v1_program_is_p2tr(program: Seq<u8>)
    requires
        program.len() == 32,
    ensures
        script_type(seq![0x51u8, 0x20u8] + program) == ScriptType::P2TR,
{
}

/// A version 0 witness program of 20 bytes pays to a witness key hash.
pub proof fn witness_v0_short_program_is_p2wpkh(program: Seq<u8>)
    requires
        program.len() == 20,
    ensures
        script_type(seq![0x00u8, 0x14u8] + program) == ScriptType::P2WPKH,
{
}

/// `OP_HASH160`, a push of 20 bytes and `OP_EQUAL` pay to a script hash.
pub proof fn hash160_equal_is_p2sh(hash: Seq<u8>)
    requires
        hash.len() == 20,
    ensures
        script_type(seq![0xa9u8, 0x14u8] + hash + seq![0x87u8]) == ScriptType::P2SH,
{
}

} // verus!

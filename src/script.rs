//! Scripts and addresses: the CTV locking script, witness programs, OP_RETURN data
//! outputs, and the bitcoin crate's address and taproot machinery.
use crate::encoding::{u16_le, u32_le};
use crate::hashing::{sha256, sha256_of};
use crate::network::Network;
use vstd::prelude::*;

verus! {

/// OP_NOP4, which BIP-119 redefines as OP_CHECKTEMPLATEVERIFY.
pub const OP_NOP4: u8 = 0xb3;

/// OP_RETURN, which marks an output as unspendable data.
pub const OP_RETURN: u8 = 0x6a;

/// The script that pushes the 32-byte template hash `h` and checks it with OP_NOP4.
pub open spec fn ctv_script(h: Seq<u8>) -> Seq<u8> {
    seq![0x20u8] + h + seq![OP_NOP4]
}

/// The output script that pays to the witness script hash of `script` (segwit v0).
pub open spec fn p2wsh_script(script: Seq<u8>) -> Seq<u8> {
    seq![0x00u8, 0x20u8] + sha256_of(script)
}

/// The output script that pays to the taproot output key `key` (segwit v1).
pub open spec fn p2tr_script(key: Seq<u8>) -> Seq<u8> {
    seq![0x51u8, 0x20u8] + key
}

/// Whether `spk` is a segwit v0 or v1 output script with a 32-byte program.
pub open spec fn is_witness_32(spk: Seq<u8>) -> bool {
    spk.len() == 34 && (spk[0] == 0x00u8 || spk[0] == 0x51u8) && spk[1] == 0x20u8
}

/// The shortest push of `d` onto the script stack, as the bitcoin crate writes it.
pub open spec fn push_data(d: Seq<u8>) -> Seq<u8> {
    if d.len() < 0x4c {
        seq![d.len() as u8] + d
    } else if d.len() < 0x100 {
        seq![0x4cu8, d.len() as u8] + d
    } else if d.len() < 0x1_0000 {
        seq![0x4du8] + u16_le(d.len()) + d
    } else {
        seq![0x4eu8] + u32_le(d.len() as u32) + d
    }
}

/// The unspendable output script that carries `d`.
pub open spec fn op_return_script(d: Seq<u8>) -> Seq<u8> {
    seq![OP_RETURN] + push_data(d)
}

/// The bitcoin crate's error for an address that does not parse or belongs to another network.
#[verifier::external_type_specification]
#[verifier::external_body]
pub struct ExParseError(bitcoin::address::ParseError);

/// The bitcoin crate's error for data too long for a single push.
#[verifier::external_type_specification]
#[verifier::external_body]
pub struct ExPushBytesError(bitcoin::script::PushBytesError);

/// Whether `address` parses and belongs to `network`.
pub uninterp spec fn address_accepted(address: Seq<char>, network: Network) -> bool;

/// The output script that pays to `address`.
pub uninterp spec fn address_script_of(address: Seq<char>) -> Seq<u8>;

/// The address, written for `network`, that pays to the output script `spk`.
pub uninterp spec fn address_text_of(spk: Seq<u8>, network: Network) -> Option<Seq<char>>;

/// The taproot output key and the control block of the one-leaf tree that holds
/// `leaf` under the internal key `key`, where that tree can be built.
pub uninterp spec fn taproot_commitment_of(key: Seq<u8>, leaf: Seq<u8>) -> Option<
    (Seq<u8>, Seq<u8>),
>;

/// Relies on bitcoin's `Address<NetworkUnchecked>::from_str`, `require_network` and
/// `script_pubkey`: the output script of `address`, where it parses and belongs to
/// `network`. The script does not depend on the network.
#[verifier::external_body]
pub(crate) fn address_script(address: &str, network: Network) -> (r: Result<
    Vec<u8>,
    bitcoin::address::ParseError,
>)
    ensures
        r is Ok <==> address_accepted(address@, network),
        r matches Ok(spk) ==> spk@ == address_script_of(address@),
{
    let network = match network {
        Network::Bitcoin => bitcoin::Network::Bitcoin,
        Network::Testnet => bitcoin::Network::Testnet,
        Network::Testnet4 => bitcoin::Network::Testnet4,
        Network::Signet => bitcoin::Network::Signet,
        Network::Regtest => bitcoin::Network::Regtest,
    };
    let unchecked = address.parse::<bitcoin::Address<bitcoin::address::NetworkUnchecked>>()?;
    Ok(unchecked.require_network(network)?.script_pubkey().into_bytes())
}

/// Relies on bitcoin's `Address::from_script` and the address's `Display`: the address
/// that pays to `spk` on `network`. It is there for every segwit v0 or v1 script with a
/// 32-byte program.
#[verifier::external_body]
pub(crate) fn address_from_script(spk: &[u8], network: Network) -> (r: Option<String>)
    ensures
        r matches Some(a) ==> address_text_of(spk@, network) == Some(a@),
        r is None ==> address_text_of(spk@, network) is None,
        is_witness_32(spk@) ==> r is Some,
{
    let network = match network {
        Network::Bitcoin => bitcoin::Network::Bitcoin,
        Network::Testnet => bitcoin::Network::Testnet,
        Network::Testnet4 => bitcoin::Network::Testnet4,
        Network::Signet => bitcoin::Network::Signet,
        Network::Regtest => bitcoin::Network::Regtest,
    };
    let script = bitcoin::Script::from_bytes(spk);
    bitcoin::Address::from_script(script, network).ok().map(|a| a.to_string())
}

/// Relies on bitcoin's `TaprootBuilder` (`add_leaf` at depth 0, `finalize`), its
/// `TaprootSpendInfo::output_key` and `control_block`, and secp256k1's
/// `XOnlyPublicKey::from_slice`: the 32-byte output key and the serialized control
/// block of the tree whose one leaf is `leaf`, or `None` where `key` is no x-only
/// public key or the tree cannot be finalized. The control block of a one-leaf tree
/// is 33 bytes: the tapscript leaf version 0xc0 with the output key's parity in its
/// low bit, then the internal key.
#[verifier::external_body]
pub(crate) fn taproot_commitment(key: &[u8; 32], leaf: &[u8]) -> (r: Option<(Vec<u8>, Vec<u8>)>)
    ensures
        r matches Some(t) ==> taproot_commitment_of(key@, leaf@) == Some((t.0@, t.1@)),
        r matches Some(t) ==> t.0@.len() == 32,
        r matches Some(t) ==> t.1@.len() == 33 && (t.1@[0] == 0xc0u8 || t.1@[0] == 0xc1u8)
            && t.1@.subrange(1, 33) == key@,
        r is None ==> taproot_commitment_of(key@, leaf@) is None,
{
    let key = secp256k1::XOnlyPublicKey::from_slice(key).ok()?;
    let script = bitcoin::ScriptBuf::from_bytes(leaf.to_vec());
    let builder = bitcoin::taproot::TaprootBuilder::new().add_leaf(0, script.clone()).ok()?;
    let info = builder.finalize(secp256k1::SECP256K1, key).ok()?;
    let leaf_version = bitcoin::taproot::LeafVersion::TapScript;
    let control_block = info.control_block(&(script, leaf_version))?;
    Some((info.output_key().serialize().to_vec(), control_block.serialize()))
}

/// Relies on bitcoin's `ScriptBuf::new_op_return`, and on `&PushBytes::try_from`,
/// which refuses 2^32 bytes or more: the OP_RETURN script that carries `data`.
#[verifier::external_body]
pub(crate) fn new_op_return(data: &[u8]) -> (r: Result<Vec<u8>, bitcoin::script::PushBytesError>)
    ensures
        r is Ok <==> data@.len() < 0x1_0000_0000,
        r matches Ok(spk) ==> spk@ == op_return_script(data@),
{
    let bytes = <&bitcoin::script::PushBytes>::try_from(data)?;
    Ok(bitcoin::ScriptBuf::new_op_return(bytes).into_bytes())
}

/// The CTV locking script for the 32-byte template hash `tmplhash`: a push of the
/// hash followed by OP_NOP4.
pub fn locking_script(tmplhash: &[u8]) -> (r: Vec<u8>)
    requires
        tmplhash@.len() == 32,
    ensures
        r@ == ctv_script(tmplhash@),
{
    let mut script: Vec<u8> = Vec::new();
    script.push(0x20);
    crate::encoding::push_bytes(&mut script, tmplhash);
    script.push(OP_NOP4);
    assert(script@ =~= ctv_script(tmplhash@));
    script
}

/// The segwit v0 output script that pays to the hash of `script`.
pub fn p2wsh_script_pubkey(script: &[u8]) -> (r: Vec<u8>)
    ensures
        r@ == p2wsh_script(script@),
        is_witness_32(r@),
{
    let hash = sha256(script);
    let mut spk: Vec<u8> = Vec::new();
    spk.push(0x00);
    spk.push(0x20);
    crate::encoding::push_bytes(&mut spk, hash.as_slice());
    assert(spk@ =~= p2wsh_script(script@));
    spk
}

/// The segwit v1 output script that pays to the 32-byte output key `key`.
pub fn p2tr_script_pubkey(key: &[u8]) -> (r: Vec<u8>)
    requires
        key@.len() == 32,
    ensures
        r@ == p2tr_script(key@),
        is_witness_32(r@),
{
    let mut spk: Vec<u8> = Vec::new();
    spk.push(0x51);
    spk.push(0x20);
    crate::encoding::push_bytes(&mut spk, key);
    assert(spk@ =~= p2tr_script(key@));
    spk
}

/// The address on `network` that pays to the witness script hash of `script`.
pub fn locking_address(script: &[u8], network: Network) -> (r: String)
    ensures
        address_text_of(p2wsh_script(script@), network) == Some(r@),
{
    let spk = p2wsh_script_pubkey(script);
    match address_from_script(spk.as_slice(), network) {
        Some(a) => a,
        None => {
            proof {
                assert(false);
            }
            String::new()
        },
    }
}

} // verus!

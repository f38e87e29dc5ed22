use ctvlib::script::locking_script;
use ctvlib::util::hash2curve;
use ctvlib::{Context, Error, Fields, Network, Output, TemplateHash, TxType};

const NUMS: &str = "50929b74c1a04954b78b4b6035e97a5e078a5a0f28ec96d547bfee9ace803ac0";

fn nums_key() -> [u8; 32] {
    let mut key = [0u8; 32];
    key.copy_from_slice(&hex::decode(NUMS).unwrap());
    key
}

fn testnet_p2pkh() -> String {
    let hash = <bitcoin::PubkeyHash as bitcoin::hashes::Hash>::from_byte_array([7u8; 20]);
    bitcoin::Address::p2pkh(hash, bitcoin::NetworkKind::Test).to_string()
}

fn mainnet_p2wsh() -> String {
    bitcoin::Address::p2wsh(bitcoin::Script::from_bytes(&[0x51]), bitcoin::Network::Bitcoin)
        .to_string()
}

fn context(network: Network, tx_type: TxType, outputs: Vec<Output>) -> Context {
    Context {
        network,
        tx_type,
        fields: Fields {
            version: 2,
            locktime: 0,
            sequences: vec![0xFFFF_FFFF],
            outputs,
            input_idx: 0,
        },
    }
}

fn pay(network: Network) -> Context {
    context(
        network,
        TxType::Segwit,
        vec![Output::Address { address: testnet_p2pkh(), amount: 10_000 }],
    )
}

fn tree(levels: usize, tx_type: TxType) -> Context {
    let mut ctx = pay(Network::Regtest);
    for _ in 1..levels {
        ctx = context(
            Network::Regtest,
            tx_type,
            vec![Output::Tree { tree: Box::new(ctx), amount: 10_000 }],
        );
    }
    ctx
}

#[test]
fn hash_ignores_network_but_address_does_not() {
    let a = pay(Network::Testnet);
    let b = pay(Network::Regtest);
    assert_eq!(a.ctv().unwrap(), b.ctv().unwrap());
    assert_ne!(a.address().unwrap(), b.address().unwrap());
    assert!(a.address().unwrap().starts_with("tb1"));
    assert!(b.address().unwrap().starts_with("bcrt1"));
}

#[test]
fn ctv_is_the_template_hash_of_the_rendered_transaction() {
    let ctx = pay(Network::Testnet);
    let address: bitcoin::Address<bitcoin::address::NetworkUnchecked> =
        testnet_p2pkh().parse().unwrap();
    let spk = address.assume_checked().script_pubkey().into_bytes();
    let tx = ctvlib::Transaction {
        version: 2,
        lock_time: 0,
        input: vec![ctvlib::TxIn {
            prev_txid: vec![0; 32],
            prev_vout: 0xFFFF_FFFF,
            script_sig: Vec::new(),
            sequence: 0xFFFF_FFFF,
            witness: Vec::new(),
        }],
        output: vec![ctvlib::TxOut { value: 10_000, script_pubkey: spk }],
    };
    assert_eq!(ctx.ctv().unwrap(), tx.template_hash(0).unwrap());
    assert_eq!(ctx.ctv().unwrap(), ctx.ctv().unwrap());
}

#[test]
fn locking_script_pushes_hash_then_nop4() {
    let ctx = pay(Network::Testnet);
    let hash = ctx.ctv().unwrap();
    let script = ctx.locking_script().unwrap();
    assert_eq!(script.len(), 34);
    assert_eq!(script[0], 0x20);
    assert_eq!(&script[1..33], hash.as_slice());
    assert_eq!(script[33], 0xb3);
    assert_eq!(locking_script(&hash), script);
}

#[test]
fn segwit_address_matches_bitcoin_p2wsh() {
    let ctx = pay(Network::Testnet);
    let script = ctx.locking_script().unwrap();
    let expected = bitcoin::Address::p2wsh(bitcoin::Script::from_bytes(&script), bitcoin::Network::Testnet);
    assert_eq!(ctx.address().unwrap(), expected.to_string());
    assert_eq!(ctx.script_pubkey().unwrap(), expected.script_pubkey().into_bytes());
    assert_eq!(
        ctvlib::script::locking_address(&script, Network::Testnet),
        expected.to_string()
    );
}

#[test]
fn taproot_address_and_witness_match_bitcoin() {
    let ctx = context(
        Network::Regtest,
        TxType::Taproot { internal_key: nums_key() },
        vec![Output::Address { address: testnet_p2pkh(), amount: 10_000 }],
    );
    let script = bitcoin::ScriptBuf::from_bytes(ctx.locking_script().unwrap());
    let key = bitcoin::XOnlyPublicKey::from_slice(&nums_key()).unwrap();
    let info = bitcoin::taproot::TaprootBuilder::new()
        .add_leaf(0, script.clone())
        .unwrap()
        .finalize(secp256k1::SECP256K1, key)
        .unwrap();
    let expected =
        bitcoin::Address::p2tr(secp256k1::SECP256K1, key, info.merkle_root(), bitcoin::Network::Regtest);
    assert_eq!(ctx.address().unwrap(), expected.to_string());
    assert_eq!(ctx.script_pubkey().unwrap(), expected.script_pubkey().into_bytes());
    let control_block = info
        .control_block(&(script.clone(), bitcoin::taproot::LeafVersion::TapScript))
        .unwrap()
        .serialize();
    let txs = ctx.spending_tx(&[1u8; 32], 2).unwrap();
    assert_eq!(txs.len(), 1);
    assert_eq!(control_block.len(), 33);
    assert_eq!(&control_block[1..], &nums_key()[..]);
    assert_eq!(txs[0].input[0].witness, vec![script.into_bytes(), control_block]);
}

#[test]
fn taproot_with_invalid_key_fails() {
    let ctx = context(
        Network::Regtest,
        TxType::Taproot { internal_key: [0xFF; 32] },
        vec![Output::Data { data: "x".to_string() }],
    );
    assert!(matches!(ctx.address(), Err(Error::TaprootBuilderError)));
    assert!(matches!(ctx.spending_tx(&[0u8; 32], 0), Err(Error::TaprootBuilderError)));
}

#[test]
fn data_output_renders_op_return() {
    let out = Output::Data { data: "hello".to_string() };
    let txout = out.as_txout(Network::Bitcoin).unwrap();
    assert_eq!(txout.value, 0);
    assert_eq!(txout.script_pubkey, vec![0x6a, 0x05, b'h', b'e', b'l', b'l', b'o']);
    assert_eq!(out.amount(), 0);
}

#[test]
fn long_data_output_uses_pushdata1() {
    let data = "a".repeat(80);
    let txout = Output::Data { data: data.clone() }.as_txout(Network::Bitcoin).unwrap();
    let mut expected = vec![0x6a, 0x4c, 80];
    expected.extend_from_slice(data.as_bytes());
    assert_eq!(txout.script_pubkey, expected);
}

#[test]
fn rendering_twice_is_identical() {
    let out = Output::Address { address: testnet_p2pkh(), amount: 5 };
    let first = out.as_txout(Network::Signet).unwrap();
    let second = out.as_txout(Network::Signet).unwrap();
    assert_eq!(first.value, second.value);
    assert_eq!(first.script_pubkey, second.script_pubkey);
    assert_eq!(first.value, 5);
    assert_eq!(out.amount(), 5);
}

#[test]
fn address_output_for_other_network_fails() {
    let out = Output::Address { address: mainnet_p2wsh(), amount: 5 };
    assert!(matches!(out.as_txout(Network::Testnet), Err(Error::BitcoinAddress)));
    let ok = out.as_txout(Network::Bitcoin).unwrap();
    let expected = bitcoin::Address::p2wsh(bitcoin::Script::from_bytes(&[0x51]), bitcoin::Network::Bitcoin);
    assert_eq!(ok.script_pubkey, expected.script_pubkey().into_bytes());
}

#[test]
fn malformed_address_fails() {
    let out = Output::Address { address: "not an address".to_string(), amount: 5 };
    assert!(matches!(out.as_txout(Network::Bitcoin), Err(Error::BitcoinAddress)));
    let ctx = context(Network::Bitcoin, TxType::Segwit, vec![out]);
    assert!(matches!(ctx.ctv(), Err(Error::BitcoinAddress)));
}

#[test]
fn tree_output_pays_nested_script() {
    let inner = pay(Network::Regtest);
    let inner_spk = inner.script_pubkey().unwrap();
    let out = Output::Tree { tree: Box::new(inner), amount: 777 };
    let txout = out.as_txout(Network::Bitcoin).unwrap();
    assert_eq!(txout.value, 777);
    assert_eq!(txout.script_pubkey, inner_spk);
    assert_eq!(out.amount(), 777);
}

#[test]
fn missing_sequence_fails_spend() {
    let mut ctx = pay(Network::Regtest);
    ctx.fields.sequences = Vec::new();
    assert!(matches!(ctx.spending_tx(&[0u8; 32], 0), Err(Error::MissingSequence)));
    assert_eq!(Error::MissingSequence.message(), "Missing sequence");
}

#[test]
fn input_index_other_than_zero_fails_spend() {
    let mut ctx = context(Network::Regtest, TxType::Segwit, Vec::new());
    ctx.fields.input_idx = 1;
    assert!(ctx.ctv().is_ok());
    assert!(matches!(ctx.spending_tx(&[0u8; 32], 0), Err(Error::InputIndexOutOfRange)));
    assert_eq!(Error::InputIndexOutOfRange.message(), "Input index out of range");
    ctx.fields.input_idx = 0;
    assert_eq!(ctx.spending_tx(&[0u8; 32], 0).unwrap().len(), 1);
}

#[test]
fn nested_input_index_fails_whole_chain() {
    let mut inner = pay(Network::Regtest);
    inner.fields.input_idx = 2;
    let ctx = context(
        Network::Regtest,
        TxType::Segwit,
        vec![Output::Tree { tree: Box::new(inner), amount: 10_000 }],
    );
    assert!(matches!(ctx.spending_tx(&[0u8; 32], 0), Err(Error::InputIndexOutOfRange)));
}

#[test]
fn error_messages() {
    assert_eq!(Error::BitcoinStackItemSize.message(), "Data too long for a single push");
    assert_eq!(Error::BitcoinAddress.message(), "Address invalid for the network");
    assert_eq!(Error::TaprootBuilderError.message(), "Taproot not finalizable");
}

#[test]
fn clone_keeps_the_template() {
    let ctx = tree(3, TxType::Taproot { internal_key: nums_key() });
    let copy = ctx.clone();
    assert_eq!(copy.ctv().unwrap(), ctx.ctv().unwrap());
    assert_eq!(copy.address().unwrap(), ctx.address().unwrap());
    assert_eq!(copy.fields.outputs.len(), 1);
    let out = Output::Data { data: "d".to_string() };
    assert_eq!(out.clone().as_txout(Network::Bitcoin).unwrap().script_pubkey, vec![0x6a, 0x01, b'd']);
    let fields = ctx.fields.clone();
    assert_eq!(fields.sequences, ctx.fields.sequences);
}

#[test]
fn spend_chain_follows_first_output_trees() {
    let ctx = tree(3, TxType::Segwit);
    let prev = [9u8; 32];
    let txs = ctx.spending_tx(&prev, 4).unwrap();
    assert_eq!(txs.len(), 3);
    assert_eq!(txs[0].input.len(), 1);
    assert_eq!(txs[0].input[0].prev_txid, prev.to_vec());
    assert_eq!(txs[0].input[0].prev_vout, 4);
    for k in 1..txs.len() {
        assert_eq!(txs[k].input.len(), 1);
        assert_eq!(txs[k].input[0].prev_txid, txs[k - 1].txid());
        assert_eq!(txs[k].input[0].prev_vout, 0);
    }
    // each transaction's output pays what the next one spends
    let nested = match &ctx.fields.outputs[0] {
        Output::Tree { tree, .. } => tree,
        _ => unreachable!(),
    };
    assert_eq!(txs[0].output[0].script_pubkey, nested.script_pubkey().unwrap());
    assert_eq!(txs[0].input[0].witness, vec![ctx.locking_script().unwrap()]);
}

#[test]
fn taproot_spend_chain_has_every_level() {
    let ctx = tree(2, TxType::Taproot { internal_key: nums_key() });
    let txs = ctx.spending_tx(&[3u8; 32], 1).unwrap();
    assert_eq!(txs.len(), 2);
    assert_eq!(txs[1].input[0].prev_txid, txs[0].txid());
    assert_eq!(txs[0].input[0].witness.len(), 2);
}

#[test]
fn tree_in_second_position_is_not_chained() {
    let ctx = context(
        Network::Regtest,
        TxType::Segwit,
        vec![
            Output::Data { data: "first".to_string() },
            Output::Tree { tree: Box::new(pay(Network::Regtest)), amount: 1 },
        ],
    );
    let txs = ctx.spending_tx(&[5u8; 32], 0).unwrap();
    assert_eq!(txs.len(), 1);
    assert_eq!(txs[0].output.len(), 2);
}

#[test]
fn hash2curve_returns_a_valid_key() {
    let key = hash2curve(b"ctv").unwrap();
    assert_eq!(key.len(), 32);
    assert!(bitcoin::XOnlyPublicKey::from_slice(&key).is_ok());
    assert_eq!(hash2curve(b"ctv").unwrap(), key);
    let first = ctvlib::hashing::sha256(b"ctv");
    if bitcoin::XOnlyPublicKey::from_slice(&first).is_ok() {
        assert_eq!(key, first);
    } else {
        assert_ne!(key, first);
    }
}

use ctvlib::hashing::sha256;
use ctvlib::tmplhash::template_hash_of;
use ctvlib::{TemplateHash, Transaction, TxIn, TxOut};

fn input(script_sig: Vec<u8>, sequence: u32) -> TxIn {
    TxIn {
        prev_txid: vec![0x42; 32],
        prev_vout: 3,
        script_sig,
        sequence,
        witness: Vec::new(),
    }
}

fn wpkh_like() -> Vec<u8> {
    let mut spk = vec![0x00, 0x14];
    spk.extend_from_slice(&[0x11; 20]);
    spk
}

fn simple_tx() -> Transaction {
    Transaction {
        version: 2,
        lock_time: 0,
        input: vec![input(Vec::new(), 0xFFFF_FFFF)],
        output: vec![TxOut { value: 5000, script_pubkey: wpkh_like() }],
    }
}

fn two_by_two(first_script_sig: Vec<u8>) -> Transaction {
    Transaction {
        version: 1,
        lock_time: 100,
        input: vec![input(first_script_sig, 5), input(Vec::new(), 6)],
        output: vec![
            TxOut { value: 5000, script_pubkey: wpkh_like() },
            TxOut { value: 0, script_pubkey: vec![0x6a, 0x02, b'h', b'i'] },
        ],
    }
}

fn to_bitcoin(tx: &Transaction) -> bitcoin::Transaction {
    bitcoin::Transaction {
        version: bitcoin::transaction::Version(tx.version),
        lock_time: bitcoin::absolute::LockTime::from_consensus(tx.lock_time),
        input: tx
            .input
            .iter()
            .map(|i| bitcoin::TxIn {
                previous_output: bitcoin::OutPoint {
                    txid: <bitcoin::Txid as bitcoin::hashes::Hash>::from_slice(&i.prev_txid)
                        .unwrap(),
                    vout: i.prev_vout,
                },
                script_sig: bitcoin::ScriptBuf::from_bytes(i.script_sig.clone()),
                sequence: bitcoin::Sequence(i.sequence),
                witness: bitcoin::Witness::from_slice(&i.witness),
            })
            .collect(),
        output: tx
            .output
            .iter()
            .map(|o| bitcoin::TxOut {
                value: bitcoin::Amount::from_sat(o.value),
                script_pubkey: bitcoin::ScriptBuf::from_bytes(o.script_pubkey.clone()),
            })
            .collect(),
    }
}

#[test]
fn sha256_of_abc() {
    assert_eq!(
        hex::encode(sha256(b"abc")),
        "ba7816bf8f01cfea414140de5dae2223b00361a396177a9cb410ff61f20015ad"
    );
}

#[test]
fn template_hash_exact_value() {
    let tx = simple_tx();
    let hash = tx.template_hash(0).unwrap();
    assert_eq!(
        hex::encode(&hash),
        "f91e4b337cb385ec06fe42a1282328f18b9a7e0a2463fca7db6a42b5289f31c4"
    );
    assert_eq!(
        hex::encode(tx.template_hash(1).unwrap()),
        "9ff1f654e3b8b6436c908cc35ee4da1f2940f670da480ba24f84dfe5240a2d0f"
    );
}

#[test]
fn template_hash_with_script_sigs_exact_value() {
    let tx = two_by_two(vec![0x51]);
    assert_eq!(
        hex::encode(template_hash_of(&tx, 1)),
        "4f2871e3737ab1a1ab9e8672f29cf3883ff2fca540838bdc5f1b13afe4f39ba5"
    );
}

#[test]
fn template_hash_is_deterministic() {
    let tx = two_by_two(vec![0x51]);
    assert_eq!(tx.template_hash(0).unwrap(), tx.template_hash(0).unwrap());
    assert_eq!(tx.template_hash(0).unwrap(), two_by_two(vec![0x51]).template_hash(0).unwrap());
}

#[test]
fn template_hash_sees_script_sigs() {
    let empty = two_by_two(Vec::new());
    let signed = two_by_two(vec![0x51]);
    assert_ne!(empty.template_hash(0).unwrap(), signed.template_hash(0).unwrap());
}

#[test]
fn template_hash_depends_on_input_index() {
    let tx = simple_tx();
    assert_ne!(tx.template_hash(0).unwrap(), tx.template_hash(1).unwrap());
}

#[test]
fn template_hash_ignores_outpoints_and_witnesses() {
    let mut other = simple_tx();
    other.input[0].prev_txid = vec![0x99; 32];
    other.input[0].prev_vout = 7;
    other.input[0].witness = vec![vec![1, 2, 3]];
    assert_eq!(simple_tx().template_hash(0).unwrap(), other.template_hash(0).unwrap());
}

#[test]
fn txid_matches_bitcoin() {
    let mut tx = two_by_two(vec![0x51]);
    tx.input[1].witness = vec![vec![0xAA; 40]];
    let expected = to_bitcoin(&tx).compute_txid();
    assert_eq!(tx.txid(), <bitcoin::Txid as bitcoin::hashes::Hash>::to_byte_array(expected).to_vec());
}

#[test]
fn compact_size_prefixes_long_scripts() {
    let mut tx = simple_tx();
    tx.output[0].script_pubkey = vec![0x51; 300];
    assert_eq!(
        hex::encode(tx.template_hash(0).unwrap()),
        "8e19667713e59495b4540037c3bee1749bfa92f8c5584289585fa04131728e20"
    );
    tx.input[0].script_sig = vec![0x51; 300];
    assert_eq!(
        hex::encode(tx.template_hash(0).unwrap()),
        "9eaf0adbfa0a3c96347048a5016c56cbf7ad6b8c9dbebd2c1bf59339480c159a"
    );
}

//! The parts of a transaction that this library builds and hashes.
use crate::encoding::{push_u64_le, push_var_bytes, u64_le, var_bytes};
use bitcoin::absolute::LockTime;
use bitcoin::consensus::{deserialize, serialize};
use bitcoin::transaction::Version;
use bitcoin::{Amount, OutPoint, ScriptBuf, Sequence, Witness};
use vstd::prelude::*;

verus! {

/// A transaction output: an amount in satoshis and the script that locks it.
#[derive(Debug, Clone)]
pub struct TxOut {
    pub value: u64,
    pub script_pubkey: Vec<u8>,
}

/// A transaction input: the output it spends, its scriptSig, its sequence and its witness.
#[derive(Debug, Clone)]
pub struct TxIn {
    pub prev_txid: Vec<u8>,
    pub prev_vout: u32,
    pub script_sig: Vec<u8>,
    pub sequence: u32,
    pub witness: Vec<Vec<u8>>,
}

/// A transaction: version, lock time, inputs and outputs.
#[derive(Debug, Clone)]
pub struct Transaction {
    pub version: i32,
    pub lock_time: u32,
    pub input: Vec<TxIn>,
    pub output: Vec<TxOut>,
}

/// What an output holds, as a value of specifications.
pub struct TxOutModel {
    pub value: u64,
    pub script_pubkey: Seq<u8>,
}

/// What an input holds, as a value of specifications.
pub struct TxInModel {
    pub prev_txid: Seq<u8>,
    pub prev_vout: u32,
    pub script_sig: Seq<u8>,
    pub sequence: u32,
    pub witness: Seq<Seq<u8>>,
}

/// What a transaction holds, as a value of specifications.
pub struct TransactionModel {
    pub version: i32,
    pub lock_time: u32,
    pub input: Seq<TxInModel>,
    pub output: Seq<TxOutModel>,
}

impl View for TxOut {
    type V = TxOutModel;

    open spec fn view(&self) -> TxOutModel {
        TxOutModel { value: self.value, script_pubkey: self.script_pubkey@ }
    }
}

impl View for TxIn {
    type V = TxInModel;

    open spec fn view(&self) -> TxInModel {
        TxInModel {
            prev_txid: self.prev_txid@,
            prev_vout: self.prev_vout,
            script_sig: self.script_sig@,
            sequence: self.sequence,
            witness: self.witness@.map_values(|w: Vec<u8>| w@),
        }
    }
}

impl View for Transaction {
    type V = TransactionModel;

    open spec fn view(&self) -> TransactionModel {
        TransactionModel {
            version: self.version,
            lock_time: self.lock_time,
            input: self.input@.map_values(|i: TxIn| i@),
            output: self.output@.map_values(|o: TxOut| o@),
        }
    }
}

/// Consensus encoding of an output: its value, then its script with a length prefix.
pub open spec fn txout_bytes(o: TxOutModel) -> Seq<u8> {
    u64_le(o.value) + var_bytes(o.script_pubkey)
}

/// The encodings of `outs`, one after another.
pub open spec fn outputs_bytes(outs: Seq<TxOutModel>) -> Seq<u8>
    decreases outs.len(),
{
    if outs.len() == 0 {
        Seq::empty()
    } else {
        outputs_bytes(outs.drop_last()) + txout_bytes(outs.last())
    }
}

proof fn lemma_outputs_bytes_push(outs: Seq<TxOutModel>, o: TxOutModel)
    ensures
        outputs_bytes(outs.push(o)) == outputs_bytes(outs) + txout_bytes(o),
{
    assert(outs.push(o).drop_last() =~= outs);
}

/// Appends the encoding of every output of `outs`.
pub fn push_outputs(buf: &mut Vec<u8>, outs: &Vec<TxOut>)
    ensures
        final(buf)@ == old(buf)@ + outputs_bytes(outs@.map_values(|o: TxOut| o@)),
{
    let ghost start = buf@;
    let ghost models = outs@.map_values(|o: TxOut| o@);
    let mut k: usize = 0;
    while k < outs.len()
        invariant
            k <= outs@.len(),
            models == outs@.map_values(|o: TxOut| o@),
            buf@ == start + outputs_bytes(models.subrange(0, k as int)),
        decreases outs@.len() - k,
    {
        let o = &outs[k];
        push_u64_le(buf, o.value);
        push_var_bytes(buf, o.script_pubkey.as_slice());
        proof {
            lemma_outputs_bytes_push(models.subrange(0, k as int), models[k as int]);
            assert(models.subrange(0, k as int).push(models[k as int]) =~= models.subrange(
                0,
                k + 1,
            ));
        }
        k = k + 1;
        assert(buf@ =~= start + outputs_bytes(models.subrange(0, k as int)));
    }
    assert(models.subrange(0, k as int) =~= models);
}

/// The id of a transaction.
pub uninterp spec fn txid_of(tx: TransactionModel) -> Seq<u8>;

/// Relies on bitcoin's `Transaction::compute_txid`, on the transaction that holds the
/// fields of `tx` one for one (each outpoint's 32-byte id decoded as a `Txid`): its id,
/// 32 bytes as its consensus encoding writes them, the order in which an outpoint holds it.
#[verifier::external_body]
fn compute_txid(tx: &Transaction) -> (r: Vec<u8>)
    requires
        forall|k: int| 0 <= k < tx.input@.len() ==> (#[trigger] tx.input@[k]).prev_txid@.len() == 32,
    ensures
        r@ == txid_of(tx@),
        r@.len() == 32,
{
    let input = tx.input.iter().map(|i| bitcoin::TxIn {
        previous_output: OutPoint::new(deserialize(&i.prev_txid).unwrap(), i.prev_vout),
        script_sig: ScriptBuf::from_bytes(i.script_sig.clone()),
        sequence: Sequence(i.sequence),
        witness: Witness::from_slice(&i.witness),
    });
    let output = tx.output.iter().map(|o| bitcoin::TxOut {
        value: Amount::from_sat(o.value),
        script_pubkey: ScriptBuf::from_bytes(o.script_pubkey.clone()),
    });
    let (version, lock_time) = (Version(tx.version), LockTime::from_consensus(tx.lock_time));
    let tx = bitcoin::Transaction { version, lock_time, input: input.collect(), output: output.collect() };
    serialize(&tx.compute_txid())
}

impl Transaction {
    /// The id of this transaction. Each input's outpoint must name a 32-byte id.
    pub fn txid(&self) -> (r: Vec<u8>)
        requires
            forall|k: int|
                0 <= k < self.input@.len() ==> (#[trigger] self.input@[k]).prev_txid@.len() == 32,
        ensures
            r@ == txid_of(self@),
            r@.len() == 32,
    {
        compute_txid(self)
    }
}

} // verus!

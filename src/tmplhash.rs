//! The BIP-119 template hash of a transaction.
use crate::encoding::{push_bytes, push_u32_le, push_var_bytes, u32_le, var_bytes};
use crate::error::Error;
use crate::hashing::{sha256, sha256_of};
use crate::transaction::{outputs_bytes, push_outputs, Transaction, TransactionModel, TxIn, TxInModel};
use vstd::prelude::*;

verus! {

/// Whether every input has an empty scriptSig.
pub open spec fn scriptsigs_empty(ins: Seq<TxInModel>) -> bool {
    forall|k: int| 0 <= k < ins.len() ==> #[trigger] ins[k].script_sig.len() == 0
}

/// The scriptSigs of `ins`, each with its length prefix, one after another.
pub open spec fn scriptsigs_bytes(ins: Seq<TxInModel>) -> Seq<u8>
    decreases ins.len(),
{
    if ins.len() == 0 {
        Seq::empty()
    } else {
        scriptsigs_bytes(ins.drop_last()) + var_bytes(ins.last().script_sig)
    }
}

/// The sequences of `ins`, four little-endian bytes each, one after another.
pub open spec fn sequences_bytes(ins: Seq<TxInModel>) -> Seq<u8>
    decreases ins.len(),
{
    if ins.len() == 0 {
        Seq::empty()
    } else {
        sequences_bytes(ins.drop_last()) + u32_le(ins.last().sequence)
    }
}

/// The scriptSig commitment: nothing when all scriptSigs are empty, else their hash.
pub open spec fn scriptsigs_commitment(ins: Seq<TxInModel>) -> Seq<u8> {
    if scriptsigs_empty(ins) {
        Seq::empty()
    } else {
        sha256_of(scriptsigs_bytes(ins))
    }
}

/// What the template hash of `tx` for the input at `idx` is the hash of.
pub open spec fn template_preimage(tx: TransactionModel, idx: u32) -> Seq<u8> {
    u32_le(tx.version as u32) + u32_le(tx.lock_time) + scriptsigs_commitment(tx.input) + u32_le(
        tx.input.len() as u32,
    ) + sha256_of(sequences_bytes(tx.input)) + u32_le(tx.output.len() as u32) + sha256_of(
        outputs_bytes(tx.output),
    ) + u32_le(idx)
}

/// The template hash of `tx` for the input at `idx`.
pub open spec fn template_digest(tx: TransactionModel, idx: u32) -> Seq<u8> {
    sha256_of(template_preimage(tx, idx))
}

/// Computing the OP_CHECKTEMPLATEVERIFY hash of a transaction.
pub trait TemplateHash {
    /// The transaction whose template is hashed.
    spec fn template(&self) -> TransactionModel;

    /// The template hash that commits to this transaction spent at input `inp_index`.
    fn template_hash(&self, inp_index: u32) -> (r: Result<Vec<u8>, Error>)
        ensures
            r is Ok,
            r matches Ok(h) ==> h@ == template_digest(self.template(), inp_index),
            r matches Ok(h) ==> h@.len() == 32,
    ;
}

impl TemplateHash for Transaction {
    open spec fn template(&self) -> TransactionModel {
        self@
    }

    fn template_hash(&self, inp_index: u32) -> (r: Result<Vec<u8>, Error>) {
        Ok(template_hash_of(self, inp_index))
    }
}

/// The template hash of `tx` for the input at `inp_index`.
pub fn template_hash_of(tx: &Transaction, inp_index: u32) -> (r: Vec<u8>)
    ensures
        r@ == template_digest(tx@, inp_index),
        r@.len() == 32,
{
    let mut buf: Vec<u8> = Vec::new();
    push_u32_le(&mut buf, tx.version as u32);
    push_u32_le(&mut buf, tx.lock_time);
    let scriptsigs = scriptsigs_hash(&tx.input);
    match scriptsigs {
        Some(h) => push_bytes(&mut buf, h.as_slice()),
        None => {},
    }
    push_u32_le(&mut buf, tx.input.len() as u32);
    let sequences = sequences_hash(&tx.input);
    push_bytes(&mut buf, sequences.as_slice());
    push_u32_le(&mut buf, tx.output.len() as u32);
    let outputs = outputs_hash(tx);
    push_bytes(&mut buf, outputs.as_slice());
    push_u32_le(&mut buf, inp_index);
    assert(buf@ =~= template_preimage(tx@, inp_index));
    sha256(buf.as_slice())
}

/// The hash of the scriptSigs of `ins`, or `None` when all of them are empty.
fn scriptsigs_hash(ins: &Vec<TxIn>) -> (r: Option<Vec<u8>>)
    ensures
        r is None <==> scriptsigs_empty(ins@.map_values(|i: TxIn| i@)),
        r matches Some(h) ==> h@ == sha256_of(scriptsigs_bytes(ins@.map_values(|i: TxIn| i@)))
            && h@.len() == 32,
{
    let ghost models = ins@.map_values(|i: TxIn| i@);
    let mut all_empty = true;
    let mut k: usize = 0;
    while k < ins.len()
        invariant
            k <= ins@.len(),
            models == ins@.map_values(|i: TxIn| i@),
            all_empty <==> forall|j: int| 0 <= j < k ==> #[trigger] models[j].script_sig.len() == 0,
        decreases ins@.len() - k,
    {
        if ins[k].script_sig.len() != 0 {
            all_empty = false;
        }
        assert(models[k as int] == ins@[k as int]@);
        k = k + 1;
        assert(all_empty <==> forall|j: int| 0 <= j < k ==> #[trigger] models[j].script_sig.len() == 0)
            by {
            if !all_empty {
                let w = choose|j: int| 0 <= j < k && models[j].script_sig.len() != 0;
                assert(0 <= w < k && models[w].script_sig.len() != 0);
            }
        }
    }
    if all_empty {
        return None;
    }
    let mut buf: Vec<u8> = Vec::new();
    let mut k: usize = 0;
    while k < ins.len()
        invariant
            k <= ins@.len(),
            models == ins@.map_values(|i: TxIn| i@),
            buf@ == scriptsigs_bytes(models.subrange(0, k as int)),
        decreases ins@.len() - k,
    {
        push_var_bytes(&mut buf, ins[k].script_sig.as_slice());
        proof {
            let next = models.subrange(0, k + 1);
            assert(next.drop_last() =~= models.subrange(0, k as int));
        }
        k = k + 1;
    }
    assert(models.subrange(0, k as int) =~= models);
    Some(sha256(buf.as_slice()))
}

/// The hash of the sequences of `ins`.
fn sequences_hash(ins: &Vec<TxIn>) -> (r: Vec<u8>)
    ensures
        r@ == sha256_of(sequences_bytes(ins@.map_values(|i: TxIn| i@))),
        r@.len() == 32,
{
    let ghost models = ins@.map_values(|i: TxIn| i@);
    let mut buf: Vec<u8> = Vec::new();
    let mut k: usize = 0;
    while k < ins.len()
        invariant
            k <= ins@.len(),
            models == ins@.map_values(|i: TxIn| i@),
            buf@ == sequences_bytes(models.subrange(0, k as int)),
        decreases ins@.len() - k,
    {
        push_u32_le(&mut buf, ins[k].sequence);
        proof {
            let next = models.subrange(0, k + 1);
            assert(next.drop_last() =~= models.subrange(0, k as int));
        }
        k = k + 1;
    }
    assert(models.subrange(0, k as int) =~= models);
    sha256(buf.as_slice())
}

/// The hash of the encodings of the outputs of `tx`.
fn outputs_hash(tx: &Transaction) -> (r: Vec<u8>)
    ensures
        r@ == sha256_of(outputs_bytes(tx@.output)),
        r@.len() == 32,
{
    let mut buf: Vec<u8> = Vec::new();
    push_outputs(&mut buf, &tx.output);
    assert(buf@ =~= outputs_bytes(tx@.output));
    sha256(buf.as_slice())
}

/// The template hash depends on nothing but the transaction's contents and the input
/// index: two transactions with the same contents hash alike.
pub proof fn lemma_template_hash_deterministic(a: Transaction, b: Transaction, idx: u32)
    requires
        a@ == b@,
    ensures
        template_digest(a.template(), idx) == template_digest(b.template(), idx),
{
}

proof fn lemma_sequences_bytes_agree(a: Seq<TxInModel>, b: Seq<TxInModel>)
    requires
        a.len() == b.len(),
        forall|k: int| 0 <= k < a.len() ==> #[trigger] a[k].sequence == b[k].sequence,
    ensures
        sequences_bytes(a) == sequences_bytes(b),
    decreases a.len(),
{
    if a.len() > 0 {
        lemma_sequences_bytes_agree(a.drop_last(), b.drop_last());
    }
}

/// The scriptSig commitment is observable: of two transactions that differ only in
/// their scriptSigs, where all of the first's are empty and one of the second's is not,
/// the second's preimage is the first's with the hash of the scriptSigs inserted after
/// the version and lock time.
pub proof fn lemma_scriptsigs_observable(a: TransactionModel, b: TransactionModel, idx: u32)
    requires
        a.version == b.version,
        a.lock_time == b.lock_time,
        a.output == b.output,
        a.input.len() == b.input.len(),
        forall|k: int| 0 <= k < a.input.len() ==> #[trigger] a.input[k].sequence == b.input[k].sequence,
        scriptsigs_empty(a.input),
        !scriptsigs_empty(b.input),
    ensures
        template_preimage(b, idx) == template_preimage(a, idx).subrange(0, 8) + sha256_of(
            scriptsigs_bytes(b.input),
        ) + template_preimage(a, idx).subrange(8, template_preimage(a, idx).len() as int),
{
    lemma_sequences_bytes_agree(a.input, b.input);
    let pa = template_preimage(a, idx);
    let head = u32_le(a.version as u32) + u32_le(a.lock_time);
    let tail = u32_le(a.input.len() as u32) + sha256_of(sequences_bytes(a.input)) + u32_le(
        a.output.len() as u32,
    ) + sha256_of(outputs_bytes(a.output)) + u32_le(idx);
    assert(pa =~= head + tail);
    assert(pa.subrange(0, 8) =~= head);
    assert(pa.subrange(8, pa.len() as int) =~= tail);
    assert(template_preimage(b, idx) =~= head + sha256_of(scriptsigs_bytes(b.input)) + tail);
}

/// The counts that a template hash commits to: the preimage holds the number of inputs,
/// then the number of outputs, each as four little-endian bytes, in the places the
/// algorithm gives them.
pub proof fn lemma_counts_committed(tx: TransactionModel, idx: u32)
    ensures
        ({
            let p = template_preimage(tx, idx);
            let c = scriptsigs_commitment(tx.input);
            let s = sha256_of(sequences_bytes(tx.input));
            &&& p.subrange(8 + c.len() as int, 12 + c.len() as int) == u32_le(tx.input.len() as u32)
            &&& p.subrange(12 + c.len() + s.len() as int, 16 + c.len() + s.len() as int) == u32_le(
                tx.output.len() as u32,
            )
        }),
{
    let p = template_preimage(tx, idx);
    let c = scriptsigs_commitment(tx.input);
    let s = sha256_of(sequences_bytes(tx.input));
    let head = u32_le(tx.version as u32) + u32_le(tx.lock_time) + c;
    let ins = u32_le(tx.input.len() as u32);
    let outs = u32_le(tx.output.len() as u32);
    let rest = sha256_of(outputs_bytes(tx.output)) + u32_le(idx);
    assert(p =~= head + ins + s + outs + rest);
    assert(p.subrange(8 + c.len() as int, 12 + c.len() as int) =~= ins);
    assert(p.subrange(12 + c.len() + s.len() as int, 16 + c.len() + s.len() as int) =~= outs);
}

} // verus!

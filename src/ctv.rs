//! Templates, their committed outputs (which may be templates again), and what is
//! derived from them: the template hash, the locking script, the address and the
//! chain of transactions that spends them.
use crate::error::Error;
use crate::network::Network;
use crate::script::{
    address_accepted, address_from_script, address_script, address_script_of, address_text_of,
    ctv_script, locking_script, new_op_return, op_return_script, p2tr_script, p2tr_script_pubkey,
    p2wsh_script, p2wsh_script_pubkey, taproot_commitment, taproot_commitment_of,
};
use crate::encoding::{lemma_u32_le_value, le_value, u32_le};
use crate::hashing::sha256_of;
use crate::tmplhash::{
    lemma_counts_committed, scriptsigs_commitment, sequences_bytes, template_digest, template_preimage,
};
use crate::tmplhash::TemplateHash;
use crate::transaction::{txid_of, Transaction, TransactionModel, TxIn, TxInModel, TxOut, TxOutModel};
use vstd::prelude::*;

verus! {

/// Whether a template is locked by a segwit v0 script hash or by a one-leaf taproot tree.
#[derive(Debug, Clone, Copy)]
pub enum TxType {
    Segwit,
    /// The leaf sits under this x-only internal key.
    Taproot { internal_key: [u8; 32] },
}

impl Default for TxType {
    fn default() -> (r: TxType)
        ensures
            r is Segwit,
    {
        TxType::Segwit
    }
}

/// A template: the fields that its hash commits to, how it is locked, and the network
/// its addresses are rendered for.
#[derive(Debug)]
pub struct Context {
    pub network: Network,
    pub tx_type: TxType,
    pub fields: Fields,
}

/// The fields to which a template hash commits.
#[derive(Debug)]
pub struct Fields {
    pub version: i32,
    pub locktime: u32,
    pub sequences: Vec<u32>,
    pub outputs: Vec<Output>,
    pub input_idx: u32,
}

/// An output committed to by a template.
#[derive(Debug)]
pub enum Output {
    /// An amount paid to an address, which must belong to the template's network.
    Address { address: String, amount: u64 },
    /// An unspendable OP_RETURN output that carries `data`.
    Data { data: String },
    /// An amount paid to the locking script of a nested template.
    Tree { tree: Box<Context>, amount: u64 },
}

/// Whether `b` is a copy of `a`: the same values and bytes, at every level of nesting.
pub open spec fn same_output(a: Output, b: Output) -> bool
    decreases a, 0int, 0nat,
{
    match a {
        Output::Address { address, amount } => b is Address && b->Address_address == address
            && b->Address_amount == amount,
        Output::Data { data } => b is Data && b->Data_data == data,
        Output::Tree { tree, amount } => b is Tree && b->Tree_amount == amount && same_context(
            *tree,
            *b->Tree_tree,
        ),
    }
}

/// Whether the first `n` of `outs` are copies of the first `n` outputs of `a`.
pub open spec fn same_outputs(a: Fields, outs: Seq<Output>, n: nat) -> bool
    decreases a, 1int, n,
{
    if n == 0 || n > a.outputs@.len() {
        true
    } else {
        same_outputs(a, outs, (n - 1) as nat) && same_output(a.outputs@[n - 1], outs[n - 1])
    }
}

/// Whether `b` is a copy of `a`: the same fields and outputs.
pub open spec fn same_fields(a: Fields, b: Fields) -> bool
    decreases a, 2int, 0nat,
{
    &&& a.version == b.version
    &&& a.locktime == b.locktime
    &&& a.sequences@ == b.sequences@
    &&& a.input_idx == b.input_idx
    &&& a.outputs@.len() == b.outputs@.len()
    &&& same_outputs(a, b.outputs@, a.outputs@.len())
}

/// Whether `b` is a copy of `a`: the same network, lock, fields and outputs.
pub open spec fn same_context(a: Context, b: Context) -> bool
    decreases a, 3int, 0nat,
{
    &&& a.network == b.network
    &&& a.tx_type == b.tx_type
    &&& same_fields(a.fields, b.fields)
}

proof fn lemma_same_outputs_prefix(a: Fields, s: Seq<Output>, t: Seq<Output>, n: nat)
    requires
        n <= s.len(),
        n <= t.len(),
        s.subrange(0, n as int) == t.subrange(0, n as int),
        same_outputs(a, s, n),
    ensures
        same_outputs(a, t, n),
    decreases n,
{
    if n > 0 && n <= a.outputs@.len() {
        assert(s.subrange(0, n - 1) =~= t.subrange(0, n - 1)) by {
            assert forall|j: int| 0 <= j < n - 1 implies s[j] == t[j] by {
                assert(s[j] == s.subrange(0, n as int)[j]);
                assert(t[j] == t.subrange(0, n as int)[j]);
            }
        }
        assert(s[n - 1] == s.subrange(0, n as int)[n - 1]);
        assert(t[n - 1] == t.subrange(0, n as int)[n - 1]);
        lemma_same_outputs_prefix(a, s, t, (n - 1) as nat);
    }
}

impl Clone for Output {
    fn clone(&self) -> (r: Output)
        ensures
            same_output(*self, r),
        decreases self, 0int, 0nat,
    {
        match self {
            Output::Address { address, amount } => Output::Address {
                address: address.clone(),
                amount: *amount,
            },
            Output::Data { data } => Output::Data { data: data.clone() },
            Output::Tree { tree, amount } => {
                let inner: &Context = tree;
                Output::Tree { tree: Box::new(inner.clone()), amount: *amount }
            },
        }
    }
}

impl Clone for Fields {
    fn clone(&self) -> (r: Fields)
        ensures
            same_fields(*self, r),
        decreases self, 2int, 0nat,
    {
        let mut outputs: Vec<Output> = Vec::new();
        let mut k: usize = 0;
        while k < self.outputs.len()
            invariant
                k <= self.outputs@.len(),
                outputs@.len() == k,
                same_outputs(*self, outputs@, k as nat),
            decreases self.outputs@.len() - k,
        {
            let copy = self.outputs[k].clone();
            let ghost before = outputs@;
            outputs.push(copy);
            proof {
                assert(before.subrange(0, k as int) =~= outputs@.subrange(0, k as int));
                lemma_same_outputs_prefix(*self, before, outputs@, k as nat);
            }
            k = k + 1;
        }
        let sequences = self.sequences.clone();
        assert(sequences@ =~= self.sequences@);
        Fields {
            version: self.version,
            locktime: self.locktime,
            sequences,
            outputs,
            input_idx: self.input_idx,
        }
    }
}

impl Clone for Context {
    fn clone(&self) -> (r: Context)
        ensures
            same_context(*self, r),
        decreases self, 3int, 0nat,
    {
        Context { network: self.network, tx_type: self.tx_type, fields: self.fields.clone() }
    }
}

/// The bytes of a result, or its error.
pub open spec fn bytes_result(r: Result<Vec<u8>, Error>) -> Result<Seq<u8>, Error> {
    match r {
        Ok(v) => Ok(v@),
        Err(e) => Err(e),
    }
}

/// The output that `o` is rendered to for `network`.
pub open spec fn output_model(o: Output, network: Network) -> Result<TxOutModel, Error>
    decreases o, 0int, 0nat,
{
    match o {
        Output::Address { address, amount } => if address_accepted(address@, network) {
            Ok(TxOutModel { value: amount, script_pubkey: address_script_of(address@) })
        } else {
            Err(Error::BitcoinAddress)
        },
        Output::Data { data } => {
            let bytes = vstd::utf8::encode_utf8(data@);
            if bytes.len() < 0x1_0000_0000 {
                Ok(TxOutModel { value: 0, script_pubkey: op_return_script(bytes) })
            } else {
                Err(Error::BitcoinStackItemSize)
            }
        },
        Output::Tree { tree, amount } => match context_script_pubkey(*tree) {
            Ok(spk) => Ok(TxOutModel { value: amount, script_pubkey: spk }),
            Err(e) => Err(e),
        },
    }
}

/// The first `n` outputs of `c`, rendered for its network; the first error if one fails.
pub open spec fn outputs_model(c: Context, n: nat) -> Result<Seq<TxOutModel>, Error>
    decreases c, 1int, n,
{
    if n == 0 || n > c.fields.outputs@.len() {
        Ok(Seq::empty())
    } else {
        match outputs_model(c, (n - 1) as nat) {
            Err(e) => Err(e),
            Ok(prefix) => match output_model(c.fields.outputs@[n - 1], c.network) {
                Ok(o) => Ok(prefix.push(o)),
                Err(e) => Err(e),
            },
        }
    }
}

/// All outputs of `c`, rendered for its network.
pub open spec fn txouts_model(c: Context) -> Result<Seq<TxOutModel>, Error> {
    outputs_model(c, c.fields.outputs@.len())
}

/// The input that a template commits to for a sequence: an empty scriptSig and no witness.
pub open spec fn template_input(sequence: u32) -> TxInModel {
    TxInModel {
        prev_txid: Seq::new(32, |k: int| 0u8),
        prev_vout: 0xffff_ffff,
        script_sig: Seq::empty(),
        sequence,
        witness: Seq::empty(),
    }
}

/// The transaction that the template hash of `c` is taken over, given its outputs.
pub open spec fn template_tx(c: Context, outs: Seq<TxOutModel>) -> TransactionModel {
    TransactionModel {
        version: c.fields.version,
        lock_time: c.fields.locktime,
        input: c.fields.sequences@.map_values(|s: u32| template_input(s)),
        output: outs,
    }
}

/// The template hash of `c`.
pub open spec fn context_digest(c: Context) -> Result<Seq<u8>, Error>
    decreases c, 2int, 0nat,
{
    match outputs_model(c, c.fields.outputs@.len()) {
        Ok(outs) => Ok(template_digest(template_tx(c, outs), c.fields.input_idx)),
        Err(e) => Err(e),
    }
}

/// The CTV locking script of `c`.
pub open spec fn context_locking_script(c: Context) -> Result<Seq<u8>, Error>
    decreases c, 3int, 0nat,
{
    match context_digest(c) {
        Ok(h) => Ok(ctv_script(h)),
        Err(e) => Err(e),
    }
}

/// The output script that pays to `c`: the witness script hash of its locking script,
/// or the taproot output key of the tree whose one leaf is its locking script.
pub open spec fn context_script_pubkey(c: Context) -> Result<Seq<u8>, Error>
    decreases c, 4int, 0nat,
{
    match context_locking_script(c) {
        Err(e) => Err(e),
        Ok(script) => match c.tx_type {
            TxType::Segwit => Ok(p2wsh_script(script)),
            TxType::Taproot { internal_key } => match taproot_commitment_of(
                internal_key@,
                script,
            ) {
                Some(t) => Ok(p2tr_script(t.0)),
                None => Err(Error::TaprootBuilderError),
            },
        },
    }
}

/// The witness that spends `c`: its locking script, and for taproot the control block.
pub open spec fn witness_model(c: Context) -> Result<Seq<Seq<u8>>, Error> {
    match context_locking_script(c) {
        Err(e) => Err(e),
        Ok(script) => match c.tx_type {
            TxType::Segwit => Ok(seq![script]),
            TxType::Taproot { internal_key } => match taproot_commitment_of(
                internal_key@,
                script,
            ) {
                Some(t) => Ok(seq![script, t.1]),
                None => Err(Error::TaprootBuilderError),
            },
        },
    }
}

/// The transaction that spends `c` from the outpoint `(txid, vout)`.
pub open spec fn spend_tx_model(
    c: Context,
    txid: Seq<u8>,
    vout: u32,
    witness: Seq<Seq<u8>>,
    outs: Seq<TxOutModel>,
) -> TransactionModel {
    TransactionModel {
        version: c.fields.version,
        lock_time: c.fields.locktime,
        input: seq![
            TxInModel {
                prev_txid: txid,
                prev_vout: vout,
                script_sig: Seq::empty(),
                sequence: c.fields.sequences@[0],
                witness,
            },
        ],
        output: outs,
    }
}

/// The chain of transactions that spends `c` from `(txid, vout)`: one that spends `c`,
/// which has a single input, so that `c` must commit to input index 0; followed, where its first output is a nested template, by the chain that spends that
/// template from output 0 of the first.
pub open spec fn spend_chain(c: Context, txid: Seq<u8>, vout: u32) -> Result<
    Seq<TransactionModel>,
    Error,
>
    decreases c,
{
    if c.fields.sequences@.len() == 0 {
        Err(Error::MissingSequence)
    } else if c.fields.input_idx != 0 {
        Err(Error::InputIndexOutOfRange)
    } else {
        match witness_model(c) {
            Err(e) => Err(e),
            Ok(w) => match txouts_model(c) {
                Err(e) => Err(e),
                Ok(outs) => {
                    let tx = spend_tx_model(c, txid, vout, w, outs);
                    if c.fields.outputs@.len() > 0 && c.fields.outputs@[0] is Tree {
                        let tree = c.fields.outputs@[0]->Tree_tree;
                        match spend_chain(*tree, txid_of(tx), 0) {
                            Ok(rest) => Ok(seq![tx] + rest),
                            Err(e) => Err(e),
                        }
                    } else {
                        Ok(seq![tx])
                    }
                },
            },
        }
    }
}

/// The amount that `o` pays: nothing for data.
pub open spec fn output_amount(o: Output) -> u64 {
    match o {
        Output::Address { amount, .. } => amount,
        Output::Data { .. } => 0,
        Output::Tree { amount, .. } => amount,
    }
}

/// The output of a result, or its error.
pub open spec fn txout_result(r: Result<TxOut, Error>) -> Result<TxOutModel, Error> {
    match r {
        Ok(o) => Ok(o@),
        Err(e) => Err(e),
    }
}

/// The outputs of a result, or its error.
pub open spec fn txouts_result(r: Result<Vec<TxOut>, Error>) -> Result<Seq<TxOutModel>, Error> {
    match r {
        Ok(v) => Ok(v@.map_values(|o: TxOut| o@)),
        Err(e) => Err(e),
    }
}

/// The witness of a result, or its error.
pub open spec fn witness_result(r: Result<Vec<Vec<u8>>, Error>) -> Result<Seq<Seq<u8>>, Error> {
    match r {
        Ok(v) => Ok(v@.map_values(|w: Vec<u8>| w@)),
        Err(e) => Err(e),
    }
}

/// The transactions of a result, or its error.
pub open spec fn chain_result(r: Result<Vec<Transaction>, Error>) -> Result<
    Seq<TransactionModel>,
    Error,
> {
    match r {
        Ok(v) => Ok(v@.map_values(|t: Transaction| t@)),
        Err(e) => Err(e),
    }
}

/// Once rendering the first `n` outputs fails, rendering more fails with the same error.
proof fn lemma_outputs_error_persists(c: Context, n: nat, m: nat)
    requires
        n <= m <= c.fields.outputs@.len(),
        outputs_model(c, n) is Err,
    ensures
        outputs_model(c, m) == outputs_model(c, n),
    decreases m - n,
{
    if n < m {
        lemma_outputs_error_persists(c, n, (m - 1) as nat);
    }
}

impl Output {
    /// The amount that this output pays: nothing for data.
    pub fn amount(&self) -> (r: u64)
        ensures
            r == output_amount(*self),
    {
        match self {
            Output::Address { amount, .. } => *amount,
            Output::Data { .. } => 0,
            Output::Tree { amount, .. } => *amount,
        }
    }

    /// Renders this output for `network`: an address output pays to the address's
    /// script, a data output carries its bytes after OP_RETURN, and a tree output pays
    /// to the output script of the nested template.
    pub fn as_txout(&self, network: Network) -> (r: Result<TxOut, Error>)
        ensures
            txout_result(r) == output_model(*self, network),
        decreases self, 0int, 0nat,
    {
        match self {
            Output::Address { address, amount } => match address_script(address.as_str(), network) {
                Ok(spk) => Ok(TxOut { value: *amount, script_pubkey: spk }),
                Err(_) => Err(Error::BitcoinAddress),
            },
            Output::Data { data } => match new_op_return(data.as_str().as_bytes()) {
                Ok(spk) => Ok(TxOut { value: 0, script_pubkey: spk }),
                Err(_) => Err(Error::BitcoinStackItemSize),
            },
            Output::Tree { tree, amount } => {
                let spk = tree.script_pubkey()?;
                Ok(TxOut { value: *amount, script_pubkey: spk })
            },
        }
    }
}

impl Context {
    /// The outputs of this template, rendered for its network.
    fn txouts(&self) -> (r: Result<Vec<TxOut>, Error>)
        ensures
            txouts_result(r) == txouts_model(*self),
        decreases self, 1int, self.fields.outputs@.len() + 1,
    {
        let mut outs: Vec<TxOut> = Vec::new();
        let mut k: usize = 0;
        assert(outs@.map_values(|o: TxOut| o@) =~= Seq::<TxOutModel>::empty());
        while k < self.fields.outputs.len()
            invariant
                k <= self.fields.outputs@.len(),
                outputs_model(*self, k as nat) == Ok::<Seq<TxOutModel>, Error>(
                    outs@.map_values(|o: TxOut| o@),
                ),
            decreases self.fields.outputs@.len() - k,
        {
            let rendered = self.fields.outputs[k].as_txout(self.network);
            match rendered {
                Ok(o) => {
                    outs.push(o);
                    assert(outs@.map_values(|o: TxOut| o@) =~= outputs_model(
                        *self,
                        k as nat,
                    )->Ok_0.push(o@));
                },
                Err(e) => {
                    proof {
                        lemma_outputs_error_persists(
                            *self,
                            (k + 1) as nat,
                            self.fields.outputs@.len(),
                        );
                    }
                    return Err(e);
                },
            }
            k = k + 1;
        }
        Ok(outs)
    }

    /// The transaction that the template hash is taken over: one input for each
    /// sequence, with an empty scriptSig, and the rendered outputs.
    fn as_tx(&self) -> (r: Result<Transaction, Error>)
        ensures
            match r {
                Ok(tx) => txouts_model(*self) is Ok && tx@ == template_tx(
                    *self,
                    txouts_model(*self)->Ok_0,
                ),
                Err(e) => txouts_model(*self) == Err::<Seq<TxOutModel>, Error>(e),
            },
        decreases self, 1int, self.fields.outputs@.len() + 2,
    {
        let output = self.txouts()?;
        let mut input: Vec<TxIn> = Vec::new();
        let mut k: usize = 0;
        while k < self.fields.sequences.len()
            invariant
                k <= self.fields.sequences@.len(),
                input@.len() == k,
                input@.map_values(|i: TxIn| i@) =~= self.fields.sequences@.subrange(
                    0,
                    k as int,
                ).map_values(|s: u32| template_input(s)),
            decreases self.fields.sequences@.len() - k,
        {
            let mut prev_txid: Vec<u8> = Vec::new();
            while prev_txid.len() < 32
                invariant
                    prev_txid@.len() <= 32,
                    forall|j: int| 0 <= j < prev_txid@.len() ==> prev_txid@[j] == 0u8,
                decreases 32 - prev_txid@.len(),
            {
                prev_txid.push(0);
            }
            let txin = TxIn {
                prev_txid,
                prev_vout: 0xffff_ffff,
                script_sig: Vec::new(),
                sequence: self.fields.sequences[k],
                witness: Vec::new(),
            };
            assert(txin@.prev_txid =~= Seq::new(32, |j: int| 0u8));
            assert(txin@.witness =~= Seq::<Seq<u8>>::empty());
            assert(txin@.script_sig =~= Seq::<u8>::empty());
            let ghost made_in = txin;
            let ghost made = txin@;
            assert(made == template_input(self.fields.sequences@[k as int]));
            let ghost before = input@;
            input.push(txin);
            k = k + 1;
            assert(input@.map_values(|i: TxIn| i@) =~= self.fields.sequences@.subrange(
                0,
                k as int,
            ).map_values(|s: u32| template_input(s))) by {
                let a = input@.map_values(|i: TxIn| i@);
                let b = self.fields.sequences@.subrange(0, k as int).map_values(
                    |s: u32| template_input(s),
                );
                let a0 = before.map_values(|i: TxIn| i@);
                let b0 = self.fields.sequences@.subrange(0, k - 1).map_values(
                    |s: u32| template_input(s),
                );
                assert forall|j: int| 0 <= j < a.len() implies a[j] == b[j] by {
                    if j < k - 1 {
                        assert(input@[j] == before[j]);
                        assert(a[j] == a0[j]);
                        assert(b[j] == b0[j]);
                    } else {
                        assert(input@[j] == made_in);
                    }
                }
            }
        }
        assert(self.fields.sequences@.subrange(0, k as int) =~= self.fields.sequences@);
        Ok(Transaction { version: self.fields.version, lock_time: self.fields.locktime, input, output })
    }

    /// The template hash of this template: what its locking script commits to.
    pub fn ctv(&self) -> (r: Result<Vec<u8>, Error>)
        ensures
            bytes_result(r) == context_digest(*self),
            r matches Ok(h) ==> h@.len() == 32,
        decreases self, 2int, 0nat,
    {
        let tx = self.as_tx()?;
        tx.template_hash(self.fields.input_idx)
    }

    /// The locking script: a push of the template hash followed by OP_NOP4.
    pub fn locking_script(&self) -> (r: Result<Vec<u8>, Error>)
        ensures
            bytes_result(r) == context_locking_script(*self),
        decreases self, 3int, 0nat,
    {
        let tmplhash = self.ctv()?;
        Ok(locking_script(tmplhash.as_slice()))
    }

    /// The output script that pays to this template.
    pub fn script_pubkey(&self) -> (r: Result<Vec<u8>, Error>)
        ensures
            bytes_result(r) == context_script_pubkey(*self),
            r matches Ok(spk) ==> crate::script::is_witness_32(spk@),
        decreases self, 4int, 0nat,
    {
        let script = self.locking_script()?;
        match &self.tx_type {
            TxType::Segwit => Ok(p2wsh_script_pubkey(script.as_slice())),
            TxType::Taproot { internal_key } => match taproot_commitment(internal_key, script.as_slice()) {
                Some(t) => Ok(p2tr_script_pubkey(t.0.as_slice())),
                None => Err(Error::TaprootBuilderError),
            },
        }
    }

    /// The address on this template's network that pays to it.
    pub fn address(&self) -> (r: Result<String, Error>)
        ensures
            match r {
                Ok(a) => context_script_pubkey(*self) is Ok && address_text_of(
                    context_script_pubkey(*self)->Ok_0,
                    self.network,
                ) == Some(a@),
                Err(e) => context_script_pubkey(*self) == Err::<Seq<u8>, Error>(e),
            },
    {
        let spk = self.script_pubkey()?;
        match address_from_script(spk.as_slice(), self.network) {
            Some(a) => Ok(a),
            None => {
                proof {
                    assert(false);
                }
                Err(Error::BitcoinAddress)
            },
        }
    }

    /// The witness that spends this template: its locking script, and for taproot the
    /// control block of its leaf.
    fn witness(&self) -> (r: Result<Vec<Vec<u8>>, Error>)
        ensures
            witness_result(r) == witness_model(*self),
    {
        let script = self.locking_script()?;
        let mut witness: Vec<Vec<u8>> = Vec::new();
        match &self.tx_type {
            TxType::Segwit => {
                witness.push(script);
            },
            TxType::Taproot { internal_key } => match taproot_commitment(internal_key, script.as_slice()) {
                Some(t) => {
                    witness.push(script);
                    witness.push(t.1);
                },
                None => {
                    return Err(Error::TaprootBuilderError);
                },
            },
        }
        assert(witness_result(Ok(witness)) == witness_model(*self)) by {
            assert(witness@.map_values(|w: Vec<u8>| w@) =~= witness_model(*self)->Ok_0);
        }
        Ok(witness)
    }

    /// The transactions that spend this template from the outpoint `(txid, vout)`, in
    /// the order in which they must be confirmed. Where the first output is a nested
    /// template, the chain goes on with the transactions that spend it from output 0
    /// of the first; nested templates at other positions are left to their own calls.
    /// Each transaction has a single input, so a template that commits to another input
    /// index cannot be spent by it.
    pub fn spending_tx(&self, txid: &[u8], vout: u32) -> (r: Result<Vec<Transaction>, Error>)
        requires
            txid@.len() == 32,
        ensures
            chain_result(r) == spend_chain(*self, txid@, vout),
        decreases self,
    {
        if self.fields.sequences.len() == 0 {
            return Err(Error::MissingSequence);
        }
        if self.fields.input_idx != 0 {
            return Err(Error::InputIndexOutOfRange);
        }
        let sequence = self.fields.sequences[0];
        let witness = self.witness()?;
        let output = self.txouts()?;
        let mut prev_txid: Vec<u8> = Vec::new();
        crate::encoding::push_bytes(&mut prev_txid, txid);
        let mut input: Vec<TxIn> = Vec::new();
        input.push(TxIn { prev_txid, prev_vout: vout, script_sig: Vec::new(), sequence, witness });
        let tx = Transaction { version: self.fields.version, lock_time: self.fields.locktime, input, output };
        let ghost tx_model = spend_tx_model(
            *self,
            txid@,
            vout,
            witness_model(*self)->Ok_0,
            txouts_model(*self)->Ok_0,
        );
        assert(tx@.input =~= tx_model.input);
        assert(tx.input@[0].prev_txid@ == txid@);
        assert(tx@ =~= tx_model);
        let current_txid = tx.txid();
        let mut transactions: Vec<Transaction> = Vec::new();
        transactions.push(tx);
        if self.fields.outputs.len() > 0 {
            match &self.fields.outputs[0] {
                Output::Tree { tree, amount: _ } => {
                    let mut rest = tree.spending_tx(current_txid.as_slice(), 0)?;
                    let ghost rest_models = rest@.map_values(|t: Transaction| t@);
                    transactions.append(&mut rest);
                    assert(transactions@.map_values(|t: Transaction| t@) =~= seq![tx_model]
                        + rest_models);
                    return Ok(transactions);
                },
                _ => {},
            }
        }
        assert(transactions@.map_values(|t: Transaction| t@) =~= seq![tx_model]);
        Ok(transactions)
    }
}

/// How many templates deep the chain of first outputs of `c` goes: 1 for a template
/// whose first output is no nested template.
pub open spec fn first_tree_depth(c: Context) -> nat
    decreases c,
{
    if c.fields.outputs@.len() > 0 && c.fields.outputs@[0] is Tree {
        1 + first_tree_depth(*c.fields.outputs@[0]->Tree_tree)
    } else {
        1
    }
}

/// A spend chain has one transaction for each level of first outputs; each transaction
/// has a single input, the first spends the given outpoint, and every later one spends
/// output 0 of the transaction before it.
pub proof fn lemma_spend_chain_links(c: Context, txid: Seq<u8>, vout: u32)
    requires
        spend_chain(c, txid, vout) is Ok,
    ensures
        ({
            let txs = spend_chain(c, txid, vout)->Ok_0;
            &&& txs.len() == first_tree_depth(c)
            &&& txs[0].input.len() == 1
            &&& txs[0].input[0].prev_txid == txid
            &&& txs[0].input[0].prev_vout == vout
            &&& forall|k: int|
                0 < k < txs.len() ==> {
                    &&& (#[trigger] txs[k]).input.len() == 1
                    &&& txs[k].input[0].prev_txid == txid_of(txs[k - 1])
                    &&& txs[k].input[0].prev_vout == 0
                }
        }),
    decreases c,
{
    let txs = spend_chain(c, txid, vout)->Ok_0;
    let w = witness_model(c)->Ok_0;
    let outs = txouts_model(c)->Ok_0;
    let tx = spend_tx_model(c, txid, vout, w, outs);
    if c.fields.outputs@.len() > 0 && c.fields.outputs@[0] is Tree {
        let tree = *c.fields.outputs@[0]->Tree_tree;
        let next = txid_of(tx);
        lemma_spend_chain_links(tree, next, 0);
        let rest = spend_chain(tree, next, 0)->Ok_0;
        assert(txs == seq![tx] + rest);
        assert forall|k: int| 0 < k < txs.len() implies {
            &&& (#[trigger] txs[k]).input.len() == 1
            &&& txs[k].input[0].prev_txid == txid_of(txs[k - 1])
            &&& txs[k].input[0].prev_vout == 0
        } by {
            assert(txs[k] == rest[k - 1]);
            if k > 1 {
                assert(txs[k - 1] == rest[k - 2]);
            }
        }
    }
}

/// Rendering is deterministic: two renderings of one output for one network give the
/// same value and byte-identical scripts, or the same error.
pub proof fn lemma_rendering_deterministic(
    o: Output,
    network: Network,
    first: Result<TxOut, Error>,
    second: Result<TxOut, Error>,
)
    requires
        txout_result(first) == output_model(o, network),
        txout_result(second) == output_model(o, network),
    ensures
        first matches Ok(a) ==> second matches Ok(b) && a.value == b.value && a.script_pubkey@
            == b.script_pubkey@,
        first matches Err(e) ==> second == Err::<TxOut, Error>(e),
{
}

proof fn lemma_outputs_model_len(c: Context, n: nat)
    requires
        n <= c.fields.outputs@.len(),
        outputs_model(c, n) is Ok,
    ensures
        outputs_model(c, n)->Ok_0.len() == n,
    decreases n,
{
    if n > 0 {
        lemma_outputs_model_len(c, (n - 1) as nat);
    }
}

/// The counts that a template's hash commits to are its own: the preimage holds the
/// number of its sequences as the input count and the number of its outputs as the
/// output count, each as four little-endian bytes that read back as that number
/// wherever it fits in 32 bits.
pub proof fn lemma_template_counts(c: Context)
    requires
        txouts_model(c) is Ok,
    ensures
        ({
            let tx = template_tx(c, txouts_model(c)->Ok_0);
            let p = template_preimage(tx, c.fields.input_idx);
            let sc = scriptsigs_commitment(tx.input);
            let s = sha256_of(sequences_bytes(tx.input));
            &&& tx.input.len() == c.fields.sequences@.len()
            &&& tx.output.len() == c.fields.outputs@.len()
            &&& p.subrange(8 + sc.len() as int, 12 + sc.len() as int) == u32_le(
                c.fields.sequences@.len() as u32,
            )
            &&& p.subrange(12 + sc.len() + s.len() as int, 16 + sc.len() + s.len() as int)
                == u32_le(c.fields.outputs@.len() as u32)
            &&& c.fields.sequences@.len() <= u32::MAX ==> le_value(
                p.subrange(8 + sc.len() as int, 12 + sc.len() as int),
            ) == c.fields.sequences@.len()
            &&& c.fields.outputs@.len() <= u32::MAX ==> le_value(
                p.subrange(12 + sc.len() + s.len() as int, 16 + sc.len() + s.len() as int),
            ) == c.fields.outputs@.len()
        }),
{
    lemma_outputs_model_len(c, c.fields.outputs@.len());
    let tx = template_tx(c, txouts_model(c)->Ok_0);
    lemma_counts_committed(tx, c.fields.input_idx);
    lemma_u32_le_value(c.fields.sequences@.len() as u32);
    lemma_u32_le_value(c.fields.outputs@.len() as u32);
}

/// Whether every address output of `c` is accepted on both networks.
pub open spec fn addresses_accepted_on(c: Context, a: Network, b: Network) -> bool {
    forall|k: int|
        0 <= k < c.fields.outputs@.len() && (#[trigger] c.fields.outputs@[k]) is Address ==> {
            &&& address_accepted(c.fields.outputs@[k]->Address_address@, a)
            &&& address_accepted(c.fields.outputs@[k]->Address_address@, b)
        }
}

proof fn lemma_outputs_ignore_network(a: Context, b: Context, n: nat)
    requires
        a.fields == b.fields,
        addresses_accepted_on(a, a.network, b.network),
    ensures
        outputs_model(a, n) == outputs_model(b, n),
    decreases n,
{
    if n > 0 && n <= a.fields.outputs@.len() {
        lemma_outputs_ignore_network(a, b, (n - 1) as nat);
        let o = a.fields.outputs@[n - 1];
        assert(o == b.fields.outputs@[n - 1]);
        assert(output_model(o, a.network) == output_model(o, b.network));
    }
}

/// The network is not committed to: a template hashes alike for two networks when each
/// of its address outputs belongs to both.
pub proof fn lemma_digest_ignores_network(a: Context, b: Context)
    requires
        a.fields == b.fields,
        addresses_accepted_on(a, a.network, b.network),
    ensures
        context_digest(a) == context_digest(b),
{
    lemma_outputs_ignore_network(a, b, a.fields.outputs@.len());
    assert(template_tx(a, txouts_model(a)->Ok_0) == template_tx(b, txouts_model(b)->Ok_0));
}

} // verus!

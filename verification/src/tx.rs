//! Transactions: content-addressed id, inputs, outputs, script and
//! witnesses, with the structural well-formedness the pool and executor
//! check.
//!
//! A transaction's id is a pure function of its canonical serialized
//! content — a rotate-and-xor fold over the fields in a fixed order — so
//! it is stable across processes and machines.

use vstd::prelude::*;

use crate::gas::Instruction;
use crate::gas::Opcode;

verus! {

/// Reference to a spendable value consumed by a transaction, optionally
/// guarded by a predicate script that is metered separately from the main
/// script.
#[derive(Debug)]
pub struct Input {
    /// Unspent output this input spends.
    pub utxo_id: u64,
    /// Owner whose authorization the witness carries.
    pub owner: u64,
    /// Value made available by this input.
    pub amount: u64,
    /// Index into the transaction's witness data.
    pub witness_index: u64,
    /// Predicate guarding the input; empty when the input is spendable by
    /// witness alone.
    pub predicate: Vec<Instruction>,
}

/// Value created by a transaction.
#[derive(Clone, Copy, Debug)]
pub struct Output {
    /// Recipient of the value.
    pub to: u64,
    /// Amount transferred.
    pub amount: u64,
    /// Asset the amount is denominated in.
    pub asset_id: u64,
}

/// Authorization data an input points at.
#[derive(Clone, Copy, Debug)]
pub struct Witness {
    /// Signature stand-in.
    pub data: u64,
}

/// Whether a transaction is the producer-built block reward or a user
/// submission. `Mint` transactions exist only at index 0 of a block and
/// are exempt from gas accounting.
#[derive(Clone, Copy, Debug, PartialEq, Eq, Structural)]
pub enum TxKind {
    /// Implicit block-reward transaction, producer-built.
    Mint,
    /// User-submitted script transaction.
    Script,
}

/// Content-addressed transaction: ordered inputs, outputs, gas limit and
/// price, an ordered instruction sequence, and witness data, all immutable
/// once built.
#[derive(Debug)]
pub struct Transaction {
    /// Whether this is the producer-built mint or a user script.
    pub kind: TxKind,
    /// Inputs in order.
    pub inputs: Vec<Input>,
    /// Outputs in order.
    pub outputs: Vec<Output>,
    /// Gas the submitter is willing to spend.
    pub gas_limit: u64,
    /// Price per unit of gas, in the base asset.
    pub gas_price: u64,
    /// The main script, executed when the transaction is included.
    pub script: Vec<Instruction>,
    /// Witness data the inputs reference.
    pub witnesses: Vec<Witness>,
}

/// Stable numeric code of an opcode for canonical serialization.
pub open spec fn opcode_word(op: Opcode) -> u64 {
    match op {
        Opcode::Add => 1,
        Opcode::Mul => 2,
        Opcode::Move => 3,
        Opcode::Jump => 4,
        Opcode::Noop => 5,
        Opcode::Trap => 6,
        Opcode::MemCopy => 7,
        Opcode::Hash => 8,
        Opcode::StateRead => 9,
        Opcode::StateWrite => 10,
    }
}

/// Stable numeric code of the transaction kind.
pub open spec fn kind_word(k: TxKind) -> u64 {
    match k {
        TxKind::Mint => 1,
        TxKind::Script => 2,
    }
}

/// One fold step of the id hash: rotate the accumulator left by one bit
/// and mix in the next canonical word.
pub open spec fn mix(h: u64, w: u64) -> u64 {
    ((h << 1) | (h >> 63)) ^ w
}

/// Fold of one instruction: opcode code, then operand.
pub open spec fn mix_instr(h: u64, i: Instruction) -> u64 {
    mix(mix(h, opcode_word(i.opcode)), i.operand)
}

/// Fold of the instructions of `s` from index `i` to the end.
pub open spec fn fold_instrs(h: u64, s: Seq<Instruction>, i: int) -> u64
    decreases s.len() - i,
{
    if i < 0 || i >= s.len() {
        h
    } else {
        fold_instrs(mix_instr(h, s[i]), s, i + 1)
    }
}

/// Fold of one input: the four scalar fields, then its predicate script.
pub open spec fn mix_input(h: u64, inp: Input) -> u64 {
    fold_instrs(mix(mix(mix(mix(h, inp.utxo_id), inp.owner), inp.amount), inp.witness_index), inp.predicate@, 0)
}

/// Fold of the inputs of `s` from index `i` to the end.
pub open spec fn fold_inputs(h: u64, s: Seq<Input>, i: int) -> u64
    decreases s.len() - i,
{
    if i < 0 || i >= s.len() {
        h
    } else {
        fold_inputs(mix_input(h, s[i]), s, i + 1)
    }
}

/// Fold of one output: recipient, amount, asset.
pub open spec fn mix_output(h: u64, o: Output) -> u64 {
    mix(mix(mix(h, o.to), o.amount), o.asset_id)
}

/// Fold of the outputs of `s` from index `i` to the end.
pub open spec fn fold_outputs(h: u64, s: Seq<Output>, i: int) -> u64
    decreases s.len() - i,
{
    if i < 0 || i >= s.len() {
        h
    } else {
        fold_outputs(mix_output(h, s[i]), s, i + 1)
    }
}

/// Fold of the witnesses of `s` from index `i` to the end.
pub open spec fn fold_witnesses(h: u64, s: Seq<Witness>, i: int) -> u64
    decreases s.len() - i,
{
    if i < 0 || i >= s.len() {
        h
    } else {
        fold_witnesses(mix(h, s[i].data), s, i + 1)
    }
}

/// Seed of the id hash.
pub open spec fn id_seed() -> u64 {
    0x5eed_0f1e_1d00_d1ce
}

/// The content-addressed id: fold of kind, gas limit, gas price, inputs,
/// outputs, script and witnesses, in that canonical order.
pub open spec fn spec_tx_id(tx: Transaction) -> u64 {
    fold_witnesses(
        fold_instrs(
            fold_outputs(
                fold_inputs(mix(mix(mix(id_seed(), kind_word(tx.kind)), tx.gas_limit), tx.gas_price), tx.inputs@, 0),
                tx.outputs@,
                0,
            ),
            tx.script@,
            0,
        ),
        tx.witnesses@,
        0,
    )
}

/// Executable [`mix`].
fn mix_word(h: u64, w: u64) -> (r: u64)
    ensures
        r == mix(h, w),
{
    ((h << 1u64) | (h >> 63u64)) ^ w
}

/// Executable [`opcode_word`].
fn opcode_code(op: Opcode) -> (r: u64)
    ensures
        r == opcode_word(op),
{
    match op {
        Opcode::Add => 1,
        Opcode::Mul => 2,
        Opcode::Move => 3,
        Opcode::Jump => 4,
        Opcode::Noop => 5,
        Opcode::Trap => 6,
        Opcode::MemCopy => 7,
        Opcode::Hash => 8,
        Opcode::StateRead => 9,
        Opcode::StateWrite => 10,
    }
}

/// Folds a whole instruction sequence into the accumulator.
fn hash_instrs(h0: u64, s: &Vec<Instruction>) -> (r: u64)
    ensures
        r == fold_instrs(h0, s@, 0),
{
    let mut h: u64 = h0;
    let mut i: usize = 0;
    while i < s.len()
        invariant
            0 <= i <= s@.len(),
            fold_instrs(h, s@, i as int) == fold_instrs(h0, s@, 0),
        decreases s@.len() - i,
    {
        let ins = s[i];
        h = mix_word(mix_word(h, opcode_code(ins.opcode)), ins.operand);
        i = i + 1;
    }
    h
}

impl Transaction {
    /// Computes the content-addressed id. Deterministic: the result is a
    /// pure function of the canonical serialized content, stable across
    /// processes.
    pub fn id(&self) -> (r: u64)
        ensures
            r == spec_tx_id(*self),
    {
        let mut h: u64 = mix_word(
            mix_word(mix_word(0x5eed_0f1e_1d00_d1ce, kind_code(self.kind)), self.gas_limit),
            self.gas_price,
        );
        let mut i: usize = 0;
        while i < self.inputs.len()
            invariant
                0 <= i <= self.inputs@.len(),
                fold_inputs(h, self.inputs@, i as int) == fold_inputs(
                    mix(mix(mix(id_seed(), kind_word(self.kind)), self.gas_limit), self.gas_price),
                    self.inputs@,
                    0,
                ),
            decreases self.inputs@.len() - i,
        {
            let inp = &self.inputs[i];
            let base = mix_word(
                mix_word(mix_word(mix_word(h, inp.utxo_id), inp.owner), inp.amount),
                inp.witness_index,
            );
            h = hash_instrs(base, &inp.predicate);
            i = i + 1;
        }
        let mut j: usize = 0;
        let ghost h_inputs: u64 = h;
        while j < self.outputs.len()
            invariant
                0 <= j <= self.outputs@.len(),
                fold_outputs(h, self.outputs@, j as int) == fold_outputs(h_inputs, self.outputs@, 0),
            decreases self.outputs@.len() - j,
        {
            let o = self.outputs[j];
            h = mix_word(mix_word(mix_word(h, o.to), o.amount), o.asset_id);
            j = j + 1;
        }
        h = hash_instrs(h, &self.script);
        let ghost h_script: u64 = h;
        let mut k: usize = 0;
        while k < self.witnesses.len()
            invariant
                0 <= k <= self.witnesses@.len(),
                fold_witnesses(h, self.witnesses@, k as int) == fold_witnesses(h_script, self.witnesses@, 0),
            decreases self.witnesses@.len() - k,
        {
            h = mix_word(h, self.witnesses[k].data);
            k = k + 1;
        }
        h
    }

    /// Every input's witness index points inside the witness data; the
    /// structural condition under which a transaction can be applied at
    /// all.
    pub open spec fn spec_witnesses_ok(self) -> bool {
        forall|i: int|
            0 <= i < self.inputs@.len() ==> (#[trigger] self.inputs@[i]).witness_index
                < self.witnesses@.len()
    }

    /// Checks [`Transaction::spec_witnesses_ok`].
    pub fn witnesses_ok(&self) -> (r: bool)
        ensures
            r == self.spec_witnesses_ok(),
    {
        let mut i: usize = 0;
        while i < self.inputs.len()
            invariant
                0 <= i <= self.inputs@.len(),
                forall|k: int|
                    0 <= k < i ==> (#[trigger] self.inputs@[k]).witness_index
                        < self.witnesses@.len(),
            decreases self.inputs@.len() - i,
        {
            if self.inputs[i].witness_index >= self.witnesses.len() as u64 {
                return false;
            }
            i = i + 1;
        }
        true
    }
}

/// Executable [`kind_word`].
fn kind_code(k: TxKind) -> (r: u64)
    ensures
        r == kind_word(k),
{
    match k {
        TxKind::Mint => 1,
        TxKind::Script => 2,
    }
}


/// Copies a vector of plain values.
pub(crate) fn copy_vec<T: Copy>(v: &Vec<T>) -> (r: Vec<T>)
    ensures
        r@ == v@,
{
    let mut r: Vec<T> = Vec::new();
    let mut i: usize = 0;
    while i < v.len()
        invariant
            0 <= i <= v@.len(),
            r@ == v@.take(i as int),
        decreases v@.len() - i,
    {
        r.push(v[i]);
        proof {
            assert(r@ =~= v@.take(i as int + 1));
        }
        i = i + 1;
    }
    proof {
        assert(v@.take(v@.len() as int) =~= v@);
    }
    r
}

/// Field-for-field equality of two inputs, their predicates compared as
/// sequences.
pub open spec fn eq_input(a: Input, b: Input) -> bool {
    &&& a.utxo_id == b.utxo_id
    &&& a.owner == b.owner
    &&& a.amount == b.amount
    &&& a.witness_index == b.witness_index
    &&& a.predicate@ == b.predicate@
}

/// Field-for-field equality of two transactions, vectors compared as
/// sequences. Two transactions equal in this sense serialize to the same
/// canonical content.
pub open spec fn eq_tx(a: Transaction, b: Transaction) -> bool {
    &&& a.kind == b.kind
    &&& a.gas_limit == b.gas_limit
    &&& a.gas_price == b.gas_price
    &&& a.inputs@.len() == b.inputs@.len()
    &&& forall|i: int| 0 <= i < a.inputs@.len() ==> eq_input(#[trigger] a.inputs@[i], b.inputs@[i])
    &&& a.outputs@ == b.outputs@
    &&& a.script@ == b.script@
    &&& a.witnesses@ == b.witnesses@
}

/// Index-wise [`eq_tx`] over two transaction sequences.
pub open spec fn eq_tx_seq(a: Seq<Transaction>, b: Seq<Transaction>) -> bool {
    a.len() == b.len() && forall|i: int| 0 <= i < a.len() ==> eq_tx(#[trigger] a[i], b[i])
}

impl Input {
    /// Copy of this input, equal field for field.
    pub fn duplicate(&self) -> (r: Input)
        ensures
            eq_input(r, *self),
    {
        Input {
            utxo_id: self.utxo_id,
            owner: self.owner,
            amount: self.amount,
            witness_index: self.witness_index,
            predicate: copy_vec(&self.predicate),
        }
    }
}

impl Transaction {
    /// Copy of this transaction, equal field for field.
    pub fn duplicate(&self) -> (r: Transaction)
        ensures
            eq_tx(r, *self),
    {
        let mut inputs: Vec<Input> = Vec::new();
        let mut i: usize = 0;
        while i < self.inputs.len()
            invariant
                0 <= i <= self.inputs@.len(),
                inputs@.len() == i,
                forall|k: int|
                    0 <= k < i ==> eq_input(#[trigger] inputs@[k], self.inputs@[k]),
            decreases self.inputs@.len() - i,
        {
            inputs.push(self.inputs[i].duplicate());
            i = i + 1;
        }
        Transaction {
            kind: self.kind,
            inputs,
            outputs: copy_vec(&self.outputs),
            gas_limit: self.gas_limit,
            gas_price: self.gas_price,
            script: copy_vec(&self.script),
            witnesses: copy_vec(&self.witnesses),
        }
    }
}

} // verus!

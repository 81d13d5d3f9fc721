//! Inputs, outputs, and the transaction they make up.

use crate::chain::Addressing;
use vstd::prelude::*;

verus! {

/// A destination address and the amount sent to it.
#[derive(Clone, Debug, PartialEq, Eq)]
pub struct Output {
    /// The address, in its text encoding.
    pub address: String,
    /// The amount, in the smallest unit. Positive in every output of a
    /// transaction.
    pub value: u64,
}

/// Which output of which earlier transaction is spent.
#[derive(Clone, Debug, PartialEq, Eq)]
pub struct OutputReference {
    /// The identifier of the earlier transaction: 32 bytes.
    pub id: Vec<u8>,
    /// The position of the output in that transaction.
    pub index: u32,
}

/// An output being spent, the reference to it, and where its key lives.
#[derive(Clone, Debug, PartialEq, Eq)]
pub struct Input {
    /// The reference to the output.
    pub spends: OutputReference,
    /// The output itself: the address that owns it, and its amount.
    pub redeems: Output,
    /// The derivation path of the key that signs for it.
    pub addressing: Addressing,
}

/// The sum of the amounts of `outputs`.
pub open spec fn output_total(outputs: Seq<Output>) -> int
    decreases outputs.len(),
{
    if outputs.len() == 0 {
        0
    } else {
        output_total(outputs.drop_last()) + outputs.last().value
    }
}

/// The sum of the amounts that `inputs` redeem.
pub open spec fn input_total(inputs: Seq<Input>) -> int
    decreases inputs.len(),
{
    if inputs.len() == 0 {
        0
    } else {
        input_total(inputs.drop_last()) + inputs.last().redeems.value
    }
}

/// Whether every output carries a positive amount.
pub open spec fn all_positive(outputs: Seq<Output>) -> bool {
    forall|i: int| 0 <= i < outputs.len() ==> (#[trigger] outputs[i]).value > 0
}

/// Whether every input is a well-formed spend of an output at `source`:
/// a 32-byte identifier, a positive amount, the address `source`, and the
/// addressing that all inputs share.
pub open spec fn all_spend_from(inputs: Seq<Input>, source: Seq<char>) -> bool {
    forall|i: int|
        0 <= i < inputs.len() ==> {
            &&& (#[trigger] inputs[i]).spends.id@.len() == 32
            &&& inputs[i].redeems.value > 0
            &&& inputs[i].redeems.address@ == source
            &&& inputs[i].addressing == Addressing::spec_of_inputs()
        }
}

/// A total grows by the amount of an output that is appended.
pub proof fn lemma_output_total_push(outputs: Seq<Output>, last: Output)
    ensures
        output_total(outputs.push(last)) == output_total(outputs) + last.value,
{
    assert(outputs.push(last).drop_last() =~= outputs);
}

/// A total grows by the amount of an input that is appended.
pub proof fn lemma_input_total_push(inputs: Seq<Input>, last: Input)
    ensures
        input_total(inputs.push(last)) == input_total(inputs) + last.redeems.value,
{
    assert(inputs.push(last).drop_last() =~= inputs);
}

/// A total of `n` amounts is at most `n` times the largest amount.
pub proof fn lemma_output_total_bounds(outputs: Seq<Output>)
    ensures
        0 <= output_total(outputs) <= outputs.len() * u64::MAX,
    decreases outputs.len(),
{
    if outputs.len() > 0 {
        lemma_output_total_bounds(outputs.drop_last());
        assert((outputs.len() - 1) * u64::MAX + u64::MAX == outputs.len() * u64::MAX)
            by (nonlinear_arith);
    }
}

/// A total of `n` amounts is at most `n` times the largest amount.
pub proof fn lemma_input_total_bounds(inputs: Seq<Input>)
    ensures
        0 <= input_total(inputs) <= inputs.len() * u64::MAX,
    decreases inputs.len(),
{
    if inputs.len() > 0 {
        lemma_input_total_bounds(inputs.drop_last());
        assert((inputs.len() - 1) * u64::MAX + u64::MAX == inputs.len() * u64::MAX)
            by (nonlinear_arith);
    }
}

/// Adds up the amounts of `outputs`.
pub fn sum_outputs(outputs: &Vec<Output>) -> (total: u128)
    ensures
        total == output_total(outputs@),
{
    let mut total: u128 = 0;
    let mut i: usize = 0;
    while i < outputs.len()
        invariant
            i <= outputs.len(),
            total == output_total(outputs@.take(i as int)),
        decreases outputs.len() - i,
    {
        proof {
            lemma_output_total_bounds(outputs@.take(i as int));
            assert(i * u64::MAX + u64::MAX <= u128::MAX) by (nonlinear_arith)
                requires
                    i <= u64::MAX,
            ;
            lemma_output_total_push(outputs@.take(i as int), outputs@[i as int]);
            assert(outputs@.take(i as int).push(outputs@[i as int]) =~= outputs@.take(i + 1));
        }
        total = total + outputs[i].value as u128;
        i += 1;
    }
    proof {
        assert(outputs@.take(i as int) =~= outputs@);
    }
    total
}

/// Adds up the amounts that `inputs` redeem.
pub fn sum_inputs(inputs: &Vec<Input>) -> (total: u128)
    ensures
        total == input_total(inputs@),
{
    let mut total: u128 = 0;
    let mut i: usize = 0;
    while i < inputs.len()
        invariant
            i <= inputs.len(),
            total == input_total(inputs@.take(i as int)),
        decreases inputs.len() - i,
    {
        proof {
            lemma_input_total_bounds(inputs@.take(i as int));
            assert(i * u64::MAX + u64::MAX <= u128::MAX) by (nonlinear_arith)
                requires
                    i <= u64::MAX,
            ;
            lemma_input_total_push(inputs@.take(i as int), inputs@[i as int]);
            assert(inputs@.take(i as int).push(inputs@[i as int]) =~= inputs@.take(i + 1));
        }
        total = total + inputs[i].redeems.value as u128;
        i += 1;
    }
    proof {
        assert(inputs@.take(i as int) =~= inputs@);
    }
    total
}

/// A finished transaction, as a mathematical value.
pub struct TransactionView {
    /// The inputs, in the order of the spendable outputs they come from.
    pub inputs: Seq<Input>,
    /// The outputs: the payments in their order, then the change if there
    /// is any.
    pub outputs: Seq<Output>,
    /// The fee.
    pub fee: u64,
    /// The identifier, in its text form.
    pub id: Seq<char>,
    /// The amount of the change output, where the transaction has one.
    pub change: Option<u64>,
}

impl TransactionView {
    /// Whether the inputs pay for the outputs and the fee, to the unit.
    pub open spec fn balanced(self) -> bool {
        input_total(self.inputs) == output_total(self.outputs) + self.fee
    }

    /// What holds of every transaction: it has an input and an output, every
    /// output carries a positive amount, the change is the last output, and
    /// the transaction balances.
    pub open spec fn well_formed(self) -> bool {
        &&& self.inputs.len() > 0
        &&& self.outputs.len() > 0
        &&& all_positive(self.outputs)
        &&& self.change matches Some(change) ==> self.outputs.len() >= 2
            && self.outputs.last().value == change
        &&& input_total(self.inputs) <= u64::MAX
        &&& self.balanced()
    }
}

/// A balanced, fee-final, unsigned transaction and its identifier.
///
/// There is no way to make one but to finish a build, so every value of this
/// type balances.
#[derive(Debug)]
pub struct Transaction {
    inputs: Vec<Input>,
    outputs: Vec<Output>,
    fee: u64,
    id: String,
    with_change: bool,
}

impl View for Transaction {
    type V = TransactionView;

    closed spec fn view(&self) -> TransactionView {
        TransactionView {
            inputs: self.inputs@,
            outputs: self.outputs@,
            fee: self.fee,
            id: self.id@,
            change: if self.with_change {
                Some(self.outputs@.last().value)
            } else {
                None
            },
        }
    }
}

impl Transaction {
    #[verifier::type_invariant]
    spec fn holds_together(self) -> bool {
        self@.well_formed()
    }

    /// Puts a transaction together from parts that balance.
    pub(crate) fn from_parts(
        inputs: Vec<Input>,
        outputs: Vec<Output>,
        fee: u64,
        id: String,
        with_change: bool,
    ) -> (transaction: Transaction)
        requires
            (TransactionView {
                inputs: inputs@,
                outputs: outputs@,
                fee,
                id: id@,
                change: if with_change {
                    Some(outputs@.last().value)
                } else {
                    None
                },
            }).well_formed(),
        ensures
            transaction@ == (TransactionView {
                inputs: inputs@,
                outputs: outputs@,
                fee,
                id: id@,
                change: if with_change {
                    Some(outputs@.last().value)
                } else {
                    None
                },
            }),
    {
        Transaction { inputs, outputs, fee, id, with_change }
    }

    /// The inputs.
    pub fn inputs(&self) -> (inputs: &Vec<Input>)
        ensures
            inputs@ == self@.inputs,
            self@.well_formed(),
    {
        proof {
            use_type_invariant(self);
        }
        &self.inputs
    }

    /// The outputs: the payments, then the change if there is any.
    pub fn outputs(&self) -> (outputs: &Vec<Output>)
        ensures
            outputs@ == self@.outputs,
            self@.well_formed(),
    {
        proof {
            use_type_invariant(self);
        }
        &self.outputs
    }

    /// The fee.
    pub fn fee(&self) -> (fee: u64)
        ensures
            fee == self@.fee,
            self@.well_formed(),
    {
        proof {
            use_type_invariant(self);
        }
        self.fee
    }

    /// The identifier, in its text form.
    pub fn id(&self) -> (id: &String)
        ensures
            id@ == self@.id,
            self@.well_formed(),
    {
        proof {
            use_type_invariant(self);
        }
        &self.id
    }

    /// The amount that goes back to the spender, where any does.
    pub fn change(&self) -> (change: Option<u64>)
        ensures
            change == self@.change,
            self@.well_formed(),
    {
        proof {
            use_type_invariant(self);
        }
        if self.with_change {
            Some(self.outputs[self.outputs.len() - 1].value)
        } else {
            None
        }
    }

    /// The sum of the amounts that the inputs redeem. It equals the sum of
    /// the outputs plus the fee.
    pub fn spent(&self) -> (total: u64)
        ensures
            total == input_total(self@.inputs),
            total == output_total(self@.outputs) + self@.fee,
    {
        proof {
            use_type_invariant(self);
        }
        let total = sum_inputs(&self.inputs);
        total as u64
    }

    /// The sum of the amounts of the outputs, the change included.
    pub fn paid(&self) -> (total: u64)
        ensures
            total == output_total(self@.outputs),
            total + self@.fee == input_total(self@.inputs),
    {
        proof {
            use_type_invariant(self);
        }
        let total = sum_outputs(&self.outputs);
        total as u64
    }
}

} // verus!

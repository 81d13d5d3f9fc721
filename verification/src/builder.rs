//! Building a transaction: validate, assemble, settle.
//!
//! A build is a straight line with two questions to the outside. Whether a
//! text is a valid address encoding is decided by the address codec; what the
//! minimum fee of the assembled set is, and what the finished transaction is
//! called, is decided by the fee policy and the encoder. The library states the
//! questions, takes the answers as plain values, and does the rest:
//!
//! 1. [`TransactionRequest::parse`] reads the two lists and refuses what is no
//!    array of objects, then what is empty.
//! 2. [`TransactionRequest::address_texts`] lists the texts to be judged.
//! 3. [`TransactionRequest::assemble`] takes the verdicts, judges every field
//!    in a fixed order and builds the inputs and outputs.
//! 4. [`Assembly::finish`] takes the fee, routes what is left over to the
//!    source address, and hands out a transaction that balances.
//!
//! No step leaves anything behind when it fails.

use crate::chain::Addressing;
use crate::codec::{parse_transaction_id, transaction_id_of};
use crate::error::WalletError;
use crate::json::json_text_shape;
use crate::records::{object_rows, read_payments, read_utxos, RawPayment, RawUtxo};
use crate::transaction::{
    all_positive, all_spend_from, input_total, lemma_input_total_push, lemma_output_total_push,
    output_total, sum_inputs, sum_outputs, Input, Output, OutputReference, Transaction,
};
use vstd::prelude::*;

verus! {

/// The verdict in `slot`: whether the address codec accepted the text of
/// that slot. A slot without a verdict counts as refused.
pub open spec fn verdict(verdicts: Seq<bool>, slot: int) -> bool {
    0 <= slot < verdicts.len() && verdicts[slot]
}

/// The amount of a field: its value, or nothing where it is absent.
pub open spec fn amount(value: Option<u64>) -> int {
    match value {
        Some(v) => v as int,
        None => 0,
    }
}

/// The sum of the amounts of `utxos`.
pub open spec fn utxo_total(utxos: Seq<RawUtxo>) -> int
    decreases utxos.len(),
{
    if utxos.len() == 0 {
        0
    } else {
        utxo_total(utxos.drop_last()) + amount(utxos.last().value)
    }
}

/// The sum of the amounts of `payments`.
pub open spec fn payment_total(payments: Seq<RawPayment>) -> int
    decreases payments.len(),
{
    if payments.len() == 0 {
        0
    } else {
        payment_total(payments.drop_last()) + amount(payments.last().value)
    }
}

/// Whether a spendable output is well formed: its identifier is 64
/// hexadecimal digits, its index fits in 32 bits, and its amount is positive.
pub open spec fn utxo_is_valid(utxo: RawUtxo) -> bool {
    &&& utxo.id is Some
    &&& transaction_id_of(utxo.id.unwrap()@) is Some
    &&& utxo.index is Some
    &&& utxo.index.unwrap() <= u32::MAX
    &&& utxo.value is Some
    &&& utxo.value.unwrap() > 0
}

/// Whether `input` is the spend of `utxo` at the address `source`.
pub open spec fn input_matches(input: Input, utxo: RawUtxo, source: Seq<char>) -> bool {
    &&& Some(input.spends.id@) == transaction_id_of(utxo.id.unwrap()@)
    &&& input.spends.index == utxo.index.unwrap()
    &&& input.redeems.value == utxo.value.unwrap()
    &&& input.redeems.address@ == source
    &&& input.addressing == Addressing::spec_of_inputs()
}

/// What is wrong with a payment, if anything, given the verdict on its
/// address. The address is judged before the amount: it has to be a string,
/// then a valid encoding; after that the amount has to be a positive integer.
pub open spec fn payment_fault(payment: RawPayment, address_valid: bool) -> Option<WalletError> {
    if payment.addr is None {
        Some(WalletError::MalformedInput)
    } else if !address_valid {
        Some(WalletError::InvalidAddress)
    } else if payment.value is None || payment.value.unwrap() == 0 {
        Some(WalletError::MalformedInput)
    } else {
        None
    }
}

/// Whether `output` is the payment `payment`.
pub open spec fn output_matches(output: Output, payment: RawPayment) -> bool {
    &&& output.address@ == payment.addr.unwrap()@
    &&& output.value == payment.value.unwrap()
}

/// The fault of the first faulty payment from position `from` on. The verdict
/// on the address of payment `j` stands in slot `j + 1`.
pub open spec fn first_fault(payments: Seq<RawPayment>, verdicts: Seq<bool>, from: int) -> Option<
    WalletError,
>
    decreases payments.len() - from,
{
    if from < 0 || from >= payments.len() {
        None
    } else {
        match payment_fault(payments[from], verdict(verdicts, from + 1)) {
            Some(fault) => Some(fault),
            None => first_fault(payments, verdicts, from + 1),
        }
    }
}

/// Payments without a fault can be skipped: the first fault from `from` on is
/// the first fault from `to` on.
pub proof fn lemma_first_fault_skips(
    payments: Seq<RawPayment>,
    verdicts: Seq<bool>,
    from: int,
    to: int,
)
    requires
        0 <= from <= to <= payments.len(),
        forall|j: int|
            from <= j < to ==> payment_fault(#[trigger] payments[j], verdict(verdicts, j + 1))
                is None,
    ensures
        first_fault(payments, verdicts, from) == first_fault(payments, verdicts, to),
    decreases to - from,
{
    if from < to {
        lemma_first_fault_skips(payments, verdicts, from + 1, to);
    }
}

/// The payments are judged in order: a fault that is reported is the fault
/// of some payment before which no payment has a fault, and no fault is
/// reported exactly when no payment has one.
pub proof fn lemma_first_fault_is_first(payments: Seq<RawPayment>, verdicts: Seq<bool>)
    ensures
        match first_fault(payments, verdicts, 0) {
            Some(fault) => exists|j: int|
                {
                    &&& 0 <= j < payments.len()
                    &&& payment_fault(#[trigger] payments[j], verdict(verdicts, j + 1)) == Some(
                        fault,
                    )
                    &&& forall|k: int|
                        0 <= k < j ==> payment_fault(
                            #[trigger] payments[k],
                            verdict(verdicts, k + 1),
                        ) is None
                },
            None => forall|j: int|
                0 <= j < payments.len() ==> payment_fault(
                    #[trigger] payments[j],
                    verdict(verdicts, j + 1),
                ) is None,
        },
{
    lemma_first_fault_from(payments, verdicts, 0);
}

/// The statement of [`lemma_first_fault_is_first`] for the payments from
/// `from` on, given that none before `from` has a fault.
proof fn lemma_first_fault_from(payments: Seq<RawPayment>, verdicts: Seq<bool>, from: int)
    requires
        0 <= from <= payments.len(),
        forall|k: int|
            0 <= k < from ==> payment_fault(#[trigger] payments[k], verdict(verdicts, k + 1))
                is None,
    ensures
        match first_fault(payments, verdicts, from) {
            Some(fault) => exists|j: int|
                {
                    &&& 0 <= j < payments.len()
                    &&& payment_fault(#[trigger] payments[j], verdict(verdicts, j + 1)) == Some(
                        fault,
                    )
                    &&& forall|k: int|
                        0 <= k < j ==> payment_fault(
                            #[trigger] payments[k],
                            verdict(verdicts, k + 1),
                        ) is None
                },
            None => forall|j: int|
                0 <= j < payments.len() ==> payment_fault(
                    #[trigger] payments[j],
                    verdict(verdicts, j + 1),
                ) is None,
        },
    decreases payments.len() - from,
{
    if from < payments.len() {
        if payment_fault(payments[from], verdict(verdicts, from + 1)) is None {
            lemma_first_fault_from(payments, verdicts, from + 1);
        }
    }
}

/// A request, as a mathematical value.
pub struct RequestView {
    /// The spendable outputs, as read.
    pub utxos: Seq<RawUtxo>,
    /// The payments, as read.
    pub payments: Seq<RawPayment>,
    /// The address that owns the spendable outputs and receives the change.
    pub source: Seq<char>,
}

impl RequestView {
    /// Why the request is refused, if it is, given the verdicts of the
    /// address codec. The checks come in this order: the source address; the
    /// fields of every spendable output; every payment in turn; whether the
    /// spendable amounts add up within 64 bits; whether they cover the
    /// payments at all.
    pub open spec fn rejection(self, verdicts: Seq<bool>) -> Option<WalletError> {
        if !verdict(verdicts, 0) {
            Some(WalletError::InvalidAddress)
        } else if exists|i: int| 0 <= i < self.utxos.len() && !utxo_is_valid(#[trigger] self.utxos[i]) {
            Some(WalletError::MalformedInput)
        } else if first_fault(self.payments, verdicts, 0) is Some {
            first_fault(self.payments, verdicts, 0)
        } else if utxo_total(self.utxos) > u64::MAX {
            Some(WalletError::MalformedInput)
        } else if payment_total(self.payments) > utxo_total(self.utxos) {
            Some(WalletError::InsufficientFunds)
        } else {
            None
        }
    }
}

/// The two lists of a build and the source address, read and found to be
/// non-empty arrays of objects. No field has been judged yet.
#[derive(Debug)]
pub struct TransactionRequest {
    utxos: Vec<RawUtxo>,
    payments: Vec<RawPayment>,
    source: String,
}

impl View for TransactionRequest {
    type V = RequestView;

    closed spec fn view(&self) -> RequestView {
        RequestView { utxos: self.utxos@, payments: self.payments@, source: self.source@ }
    }
}

/// What becomes of the two lists once they are read: `MalformedInput` where
/// one of them is no array of objects, else `EmptyInput` where one of them is
/// empty, else a request.
pub open spec fn request_accepts(
    request: Result<TransactionRequest, WalletError>,
    utxos: Option<Seq<RawUtxo>>,
    payments: Option<Seq<RawPayment>>,
    source: Seq<char>,
) -> bool {
    if utxos is None || payments is None {
        request == Err::<TransactionRequest, WalletError>(WalletError::MalformedInput)
    } else if utxos.unwrap().len() == 0 || payments.unwrap().len() == 0 {
        request == Err::<TransactionRequest, WalletError>(WalletError::EmptyInput)
    } else {
        &&& request matches Ok(accepted)
        &&& accepted@ == (RequestView {
            utxos: utxos.unwrap(),
            payments: payments.unwrap(),
            source,
        })
    }
}

/// The view of a list that was read, if it was.
pub open spec fn utxos_view(list: Option<Vec<RawUtxo>>) -> Option<Seq<RawUtxo>> {
    match list {
        Some(records) => Some(records@),
        None => None,
    }
}

/// The view of a list that was read, if it was.
pub open spec fn payments_view(list: Option<Vec<RawPayment>>) -> Option<Seq<RawPayment>> {
    match list {
        Some(records) => Some(records@),
        None => None,
    }
}

impl TransactionRequest {
    #[verifier::type_invariant]
    spec fn holds_together(self) -> bool {
        self.utxos@.len() > 0 && self.payments@.len() > 0
    }

    /// Accepts the two lists as they were read, `None` standing for a text
    /// that is no JSON array of objects.
    pub fn from_lists(
        utxos: Option<Vec<RawUtxo>>,
        source_address: &str,
        payments: Option<Vec<RawPayment>>,
    ) -> (request: Result<TransactionRequest, WalletError>)
        ensures
            request_accepts(request, utxos_view(utxos), payments_view(payments), source_address@),
    {
        match (utxos, payments) {
            (Some(utxos), Some(payments)) => {
                if utxos.len() == 0 || payments.len() == 0 {
                    Err(WalletError::EmptyInput)
                } else {
                    Ok(TransactionRequest { utxos, payments, source: source_address.to_owned() })
                }
            },
            _ => Err(WalletError::MalformedInput),
        }
    }

    /// Reads the two lists from their JSON text.
    ///
    /// Fails with `MalformedInput` where a text is no JSON array of objects,
    /// else with `EmptyInput` where an array is empty.
    pub fn parse(utxos_text: &str, source_address: &str, payments_text: &str) -> (request: Result<
        TransactionRequest,
        WalletError,
    >)
        ensures
            match (
                object_rows(json_text_shape(utxos_text@)),
                object_rows(json_text_shape(payments_text@)),
            ) {
                (Some(utxo_rows), Some(payment_rows)) => if utxo_rows.len() == 0
                    || payment_rows.len() == 0 {
                    request == Err::<TransactionRequest, WalletError>(WalletError::EmptyInput)
                } else {
                    &&& request matches Ok(accepted)
                    &&& accepted@.source == source_address@
                    &&& accepted@.utxos.len() == utxo_rows.len()
                    &&& forall|i: int|
                        0 <= i < utxo_rows.len() ==> (#[trigger] accepted@.utxos[i]).reflects(
                            utxo_rows[i],
                        )
                    &&& accepted@.payments.len() == payment_rows.len()
                    &&& forall|i: int|
                        0 <= i < payment_rows.len() ==> (#[trigger] accepted@.payments[i]).reflects(
                            payment_rows[i],
                        )
                },
                _ => request == Err::<TransactionRequest, WalletError>(WalletError::MalformedInput),
            },
    {
        let utxos = read_utxos(utxos_text);
        let payments = read_payments(payments_text);
        Self::from_lists(utxos, source_address, payments)
    }

    /// The spendable outputs, as read.
    pub fn utxos(&self) -> (utxos: &Vec<RawUtxo>)
        ensures
            utxos@ == self@.utxos,
            utxos@.len() > 0,
    {
        proof {
            use_type_invariant(self);
        }
        &self.utxos
    }

    /// The payments, as read.
    pub fn payments(&self) -> (payments: &Vec<RawPayment>)
        ensures
            payments@ == self@.payments,
            payments@.len() > 0,
    {
        proof {
            use_type_invariant(self);
        }
        &self.payments
    }

    /// The address that owns the spendable outputs and receives the change.
    pub fn source_address(&self) -> (address: &String)
        ensures
            address@ == self@.source,
    {
        &self.source
    }

    /// The texts that the address codec is asked to judge: in slot 0 the
    /// source address, in slot `j + 1` the address of payment `j`. A payment
    /// whose address is no string leaves its slot empty.
    pub fn address_texts(&self) -> (texts: Vec<String>)
        ensures
            texts@.len() == 1 + self@.payments.len(),
            texts@[0]@ == self@.source,
            forall|j: int|
                0 <= j < self@.payments.len() ==> (#[trigger] texts@[j + 1])@ == (
                match self@.payments[j].addr {
                    Some(address) => address@,
                    None => Seq::<char>::empty(),
                }),
    {
        let mut texts: Vec<String> = Vec::new();
        texts.push(self.source.clone());
        let mut j: usize = 0;
        while j < self.payments.len()
            invariant
                j <= self.payments@.len(),
                texts@.len() == 1 + j,
                texts@[0]@ == self.source@,
                forall|k: int|
                    0 <= k < j ==> (#[trigger] texts@[k + 1])@ == (match self.payments@[k].addr {
                        Some(address) => address@,
                        None => Seq::<char>::empty(),
                    }),
            decreases self.payments@.len() - j,
        {
            let text = match &self.payments[j].addr {
                Some(address) => address.clone(),
                None => String::new(),
            };
            texts.push(text);
            j += 1;
        }
        texts
    }
}

/// The inputs and outputs of a build, as a mathematical value.
pub struct AssemblyView {
    /// One input for each spendable output, in order.
    pub inputs: Seq<Input>,
    /// One output for each payment, in order.
    pub outputs: Seq<Output>,
    /// The address that owns the inputs and receives the change.
    pub source: Seq<char>,
}

impl AssemblyView {
    /// What holds of every assembly: it has an input and an output, every
    /// input is a well-formed spend from the source address, every output
    /// carries a positive amount, and the inputs cover the outputs.
    pub open spec fn well_formed(self) -> bool {
        &&& self.inputs.len() > 0
        &&& self.outputs.len() > 0
        &&& all_spend_from(self.inputs, self.source)
        &&& all_positive(self.outputs)
        &&& output_total(self.outputs) <= input_total(self.inputs) <= u64::MAX
    }

    /// What the inputs leave once the outputs and a fee of `fee` are paid.
    /// Negative where they do not cover both.
    pub open spec fn leftover(self, fee: u64) -> int {
        input_total(self.inputs) - output_total(self.outputs) - fee
    }
}

/// A request whose every field was found valid, turned into inputs and
/// outputs. What is missing for a transaction is the fee.
#[derive(Debug)]
pub struct Assembly {
    inputs: Vec<Input>,
    outputs: Vec<Output>,
    source: String,
    total_in: u64,
    total_out: u64,
}

impl View for Assembly {
    type V = AssemblyView;

    closed spec fn view(&self) -> AssemblyView {
        AssemblyView { inputs: self.inputs@, outputs: self.outputs@, source: self.source@ }
    }
}

/// The answer of the fee policy for an assembly.
#[derive(Debug)]
pub enum FeeSelection {
    /// The minimum fee of the assembled set, and the identifier of the
    /// transaction that this fee settles.
    Found {
        /// The fee.
        fee: u64,
        /// The identifier, in its text form.
        id: String,
    },
    /// The policy found no fee that the inputs can bear.
    NotFound,
}

impl TransactionRequest {
    /// Judges every field of the request and builds the inputs and outputs.
    ///
    /// `verdicts` holds the answers of the address codec to
    /// [`TransactionRequest::address_texts`], slot by slot. The request is
    /// refused with the first fault in the order of
    /// [`RequestView::rejection`]. Where it is accepted, input `i` spends
    /// spendable output `i` at the source address, under the addressing that
    /// all inputs share, and output `j` is payment `j`.
    pub fn assemble(self, verdicts: &Vec<bool>) -> (assembly: Result<Assembly, WalletError>)
        ensures
            match self@.rejection(verdicts@) {
                Some(fault) => assembly == Err::<Assembly, WalletError>(fault),
                None => {
                    &&& assembly matches Ok(built)
                    &&& built@.well_formed()
                    &&& built@.source == self@.source
                    &&& built@.inputs.len() == self@.utxos.len()
                    &&& forall|i: int|
                        0 <= i < self@.utxos.len() ==> input_matches(
                            #[trigger] built@.inputs[i],
                            self@.utxos[i],
                            self@.source,
                        )
                    &&& built@.outputs.len() == self@.payments.len()
                    &&& forall|j: int|
                        0 <= j < self@.payments.len() ==> output_matches(
                            #[trigger] built@.outputs[j],
                            self@.payments[j],
                        )
                    &&& input_total(built@.inputs) == utxo_total(self@.utxos)
                    &&& output_total(built@.outputs) == payment_total(self@.payments)
                },
            },
    {
        proof {
            use_type_invariant(&self);
        }
        if verdicts.len() == 0 || !verdicts[0] {
            return Err(WalletError::InvalidAddress);
        }
        let mut inputs: Vec<Input> = Vec::new();
        let mut i: usize = 0;
        while i < self.utxos.len()
            invariant
                verdict(verdicts@, 0),
                i <= self.utxos@.len(),
                inputs@.len() == i,
                forall|k: int| 0 <= k < i ==> utxo_is_valid(#[trigger] self.utxos@[k]),
                forall|k: int|
                    0 <= k < i ==> input_matches(
                        #[trigger] inputs@[k],
                        self.utxos@[k],
                        self.source@,
                    ),
                input_total(inputs@) == utxo_total(self.utxos@.take(i as int)),
            decreases self.utxos@.len() - i,
        {
            let utxo = &self.utxos[i];
            let id = match &utxo.id {
                Some(text) => match parse_transaction_id(text.as_str()) {
                    Some(id) => id,
                    None => {
                        assert(!utxo_is_valid(self.utxos@[i as int]));
                        return Err(WalletError::MalformedInput);
                    },
                },
                None => {
                    assert(!utxo_is_valid(self.utxos@[i as int]));
                    return Err(WalletError::MalformedInput);
                },
            };
            let index: u32 = match utxo.index {
                Some(index) => if index <= 0xFFFF_FFFF {
                    index as u32
                } else {
                    assert(!utxo_is_valid(self.utxos@[i as int]));
                    return Err(WalletError::MalformedInput);
                },
                None => {
                    assert(!utxo_is_valid(self.utxos@[i as int]));
                    return Err(WalletError::MalformedInput);
                },
            };
            let value: u64 = match utxo.value {
                Some(value) => if value > 0 {
                    value
                } else {
                    assert(!utxo_is_valid(self.utxos@[i as int]));
                    return Err(WalletError::MalformedInput);
                },
                None => {
                    assert(!utxo_is_valid(self.utxos@[i as int]));
                    return Err(WalletError::MalformedInput);
                },
            };
            let input = Input {
                spends: OutputReference { id, index },
                redeems: Output { address: self.source.clone(), value },
                addressing: Addressing::of_inputs(),
            };
            proof {
                lemma_input_total_push(inputs@, input);
                assert(self.utxos@.take(i + 1).drop_last() =~= self.utxos@.take(i as int));
            }
            inputs.push(input);
            i += 1;
        }
        let mut outputs: Vec<Output> = Vec::new();
        let mut j: usize = 0;
        while j < self.payments.len()
            invariant
                verdict(verdicts@, 0),
                forall|k: int|
                    0 <= k < self.utxos@.len() ==> utxo_is_valid(#[trigger] self.utxos@[k]),
                j <= self.payments@.len(),
                outputs@.len() == j,
                forall|k: int|
                    0 <= k < j ==> payment_fault(
                        #[trigger] self.payments@[k],
                        verdict(verdicts@, k + 1),
                    ) is None,
                forall|k: int|
                    0 <= k < j ==> output_matches(#[trigger] outputs@[k], self.payments@[k]),
                output_total(outputs@) == payment_total(self.payments@.take(j as int)),
            decreases self.payments@.len() - j,
        {
            proof {
                lemma_first_fault_skips(self.payments@, verdicts@, 0, j as int);
            }
            let payment = &self.payments[j];
            let address = match &payment.addr {
                Some(address) => address.clone(),
                None => {
                    return Err(WalletError::MalformedInput);
                },
            };
            if !(j + 1 < verdicts.len() && verdicts[j + 1]) {
                return Err(WalletError::InvalidAddress);
            }
            let value: u64 = match payment.value {
                Some(value) => if value > 0 {
                    value
                } else {
                    return Err(WalletError::MalformedInput);
                },
                None => {
                    return Err(WalletError::MalformedInput);
                },
            };
            let output = Output { address, value };
            proof {
                lemma_output_total_push(outputs@, output);
                assert(self.payments@.take(j + 1).drop_last() =~= self.payments@.take(j as int));
            }
            outputs.push(output);
            j += 1;
        }
        proof {
            lemma_first_fault_skips(self.payments@, verdicts@, 0, j as int);
            assert(self.utxos@.take(i as int) =~= self.utxos@);
            assert(self.payments@.take(j as int) =~= self.payments@);
        }
        let total_in = sum_inputs(&inputs);
        if total_in > 0xFFFF_FFFF_FFFF_FFFF {
            return Err(WalletError::MalformedInput);
        }
        let total_out = sum_outputs(&outputs);
        if total_out > total_in {
            return Err(WalletError::InsufficientFunds);
        }
        Ok(
            Assembly {
                inputs,
                outputs,
                source: self.source,
                total_in: total_in as u64,
                total_out: total_out as u64,
            },
        )
    }
}

impl Assembly {
    #[verifier::type_invariant]
    spec fn holds_together(self) -> bool {
        &&& self@.well_formed()
        &&& self.total_in == input_total(self.inputs@)
        &&& self.total_out == output_total(self.outputs@)
    }

    /// The inputs: one for each spendable output of the request.
    pub fn inputs(&self) -> (inputs: &Vec<Input>)
        ensures
            inputs@ == self@.inputs,
            self@.well_formed(),
    {
        proof {
            use_type_invariant(self);
        }
        &self.inputs
    }

    /// The outputs: one for each payment of the request.
    pub fn outputs(&self) -> (outputs: &Vec<Output>)
        ensures
            outputs@ == self@.outputs,
            self@.well_formed(),
    {
        proof {
            use_type_invariant(self);
        }
        &self.outputs
    }

    /// The address that receives the change.
    pub fn change_address(&self) -> (address: &String)
        ensures
            address@ == self@.source,
            self@.well_formed(),
    {
        proof {
            use_type_invariant(self);
        }
        &self.source
    }

    /// Settles the build with the answer of the fee policy.
    ///
    /// With a fee that the inputs cover next to the payments, the result is a
    /// transaction over all inputs and all payments; what is left over goes to
    /// the source address as one more output, the last, and where nothing is
    /// left over there is no such output. The wallet is consumed by a
    /// successful build. Where the policy found no fee, or the inputs do not
    /// cover it, the build fails with `InsufficientFunds` and the wallet comes
    /// back untouched.
    pub fn finish<W>(self, wallet: W, selection: FeeSelection) -> (outcome: Result<
        Transaction,
        (WalletError, W),
    >)
        ensures
            match selection {
                FeeSelection::Found { fee, id } => if self@.leftover(fee) >= 0 {
                    &&& outcome matches Ok(transaction)
                    &&& transaction@.well_formed()
                    &&& transaction@.inputs == self@.inputs
                    &&& transaction@.fee == fee
                    &&& transaction@.id == id@
                    &&& if self@.leftover(fee) == 0 {
                        &&& transaction@.outputs == self@.outputs
                        &&& transaction@.change is None
                    } else {
                        &&& transaction@.outputs.drop_last() == self@.outputs
                        &&& transaction@.outputs.last().address@ == self@.source
                        &&& transaction@.outputs.last().value == self@.leftover(fee)
                        &&& transaction@.change == Some(self@.leftover(fee) as u64)
                    }
                } else {
                    outcome == Err::<Transaction, (WalletError, W)>(
                        (WalletError::InsufficientFunds, wallet),
                    )
                },
                FeeSelection::NotFound => outcome == Err::<Transaction, (WalletError, W)>(
                    (WalletError::InsufficientFunds, wallet),
                ),
            },
    {
        proof {
            use_type_invariant(&self);
        }
        match selection {
            FeeSelection::Found { fee, id } => {
                let spare = self.total_in - self.total_out;
                if fee > spare {
                    return Err((WalletError::InsufficientFunds, wallet));
                }
                let leftover = spare - fee;
                let inputs = self.inputs;
                let mut outputs = self.outputs;
                if leftover > 0 {
                    let change = Output { address: self.source, value: leftover };
                    proof {
                        lemma_output_total_push(outputs@, change);
                        assert(outputs@.push(change).drop_last() =~= outputs@);
                    }
                    outputs.push(change);
                    Ok(Transaction::from_parts(inputs, outputs, fee, id, true))
                } else {
                    Ok(Transaction::from_parts(inputs, outputs, fee, id, false))
                }
            },
            FeeSelection::NotFound => Err((WalletError::InsufficientFunds, wallet)),
        }
    }
}

} // verus!

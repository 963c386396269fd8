use vstd::prelude::*;
use crate::amount::Amount;
use crate::ids::AccountId;
use crate::ids::OperationId;
use crate::ids::TransactionId;
use crate::keys::KeyPair;
use crate::states::DummyStateMachine;

verus! {

/// Input for a transaction: money that leaves an account.
#[derive(Clone, Copy, Debug, PartialEq, Eq)]
pub struct DummyInput {
    pub amount: Amount,
    /// The account that pays.
    pub account: AccountId,
}

/// Output for a transaction: money that reaches an account.
#[derive(Clone, Copy, Debug, PartialEq, Eq)]
pub struct DummyOutput {
    pub amount: Amount,
    /// The account that is paid.
    pub account: AccountId,
}

/// What the federation reports of an output: the new balance of the
/// account that was paid, and that account.
#[derive(Clone, Copy, Debug, PartialEq, Eq)]
pub struct DummyOutputOutcome(pub Amount, pub AccountId);

/// An input leg: the input and the key pair that signs for it.
#[derive(Clone, Copy, Debug, PartialEq, Eq)]
pub struct ClientInput {
    pub input: DummyInput,
    pub keys: KeyPair,
    pub amount: Amount,
}

/// An output leg.
#[derive(Clone, Copy, Debug, PartialEq, Eq)]
pub struct ClientOutput {
    pub output: DummyOutput,
    pub amount: Amount,
}

/// The seed of the state machine that tracks an input leg: all of its first
/// state but the id of the transaction, which is known only once the
/// transaction is built.
#[derive(Clone, Copy, Debug, PartialEq, Eq)]
pub struct ClientInputSM {
    pub amount: Amount,
    pub operation_id: OperationId,
}

/// The seed of the state machine that tracks an output leg.
#[derive(Clone, Copy, Debug, PartialEq, Eq)]
pub struct ClientOutputSM {
    pub amount: Amount,
    pub operation_id: OperationId,
}

impl ClientInputSM {
    /// The states that the seed grows into in the transaction `txid`.
    pub open spec fn spec_state_machines(self, txid: TransactionId) -> Seq<DummyStateMachine> {
        seq![DummyStateMachine::Input(self.amount, txid, self.operation_id)]
    }

    /// The states that the seed grows into in the transaction `txid`: one
    /// pending input.
    pub fn state_machines(&self, txid: TransactionId) -> (states: Vec<DummyStateMachine>)
        ensures
            states@ == self.spec_state_machines(txid),
    {
        let mut states: Vec<DummyStateMachine> = Vec::new();
        states.push(DummyStateMachine::Input(self.amount, txid, self.operation_id));
        states
    }
}

impl ClientOutputSM {
    /// The states that the seed grows into in the transaction `txid`.
    pub open spec fn spec_state_machines(self, txid: TransactionId) -> Seq<DummyStateMachine> {
        seq![DummyStateMachine::Output(self.amount, txid, self.operation_id)]
    }

    /// The states that the seed grows into in the transaction `txid`: one
    /// pending output.
    pub fn state_machines(&self, txid: TransactionId) -> (states: Vec<DummyStateMachine>)
        ensures
            states@ == self.spec_state_machines(txid),
    {
        let mut states: Vec<DummyStateMachine> = Vec::new();
        states.push(DummyStateMachine::Output(self.amount, txid, self.operation_id));
        states
    }
}

/// Input legs with the seeds of the state machines that track them.
#[derive(Clone, Debug, PartialEq, Eq)]
pub struct ClientInputBundle {
    pub inputs: Vec<ClientInput>,
    pub sms: Vec<ClientInputSM>,
}

/// Output legs with the seeds of the state machines that track them.
#[derive(Clone, Debug, PartialEq, Eq)]
pub struct ClientOutputBundle {
    pub outputs: Vec<ClientOutput>,
    pub sms: Vec<ClientOutputSM>,
}

impl View for ClientInputBundle {
    type V = (Seq<ClientInput>, Seq<ClientInputSM>);

    open spec fn view(&self) -> Self::V {
        (self.inputs@, self.sms@)
    }
}

impl View for ClientOutputBundle {
    type V = (Seq<ClientOutput>, Seq<ClientOutputSM>);

    open spec fn view(&self) -> Self::V {
        (self.outputs@, self.sms@)
    }
}

impl ClientInputBundle {
    /// The bundle of these legs and seeds.
    pub fn new(inputs: Vec<ClientInput>, sms: Vec<ClientInputSM>) -> (bundle: ClientInputBundle)
        ensures
            bundle@ == (inputs@, sms@),
    {
        ClientInputBundle { inputs, sms }
    }

    /// The bundle of these legs, which no state machine tracks.
    pub fn new_no_sm(inputs: Vec<ClientInput>) -> (bundle: ClientInputBundle)
        ensures
            bundle@ == (inputs@, Seq::<ClientInputSM>::empty()),
    {
        ClientInputBundle { inputs, sms: Vec::new() }
    }
}

impl ClientOutputBundle {
    /// The bundle of these legs and seeds.
    pub fn new(outputs: Vec<ClientOutput>, sms: Vec<ClientOutputSM>) -> (bundle: ClientOutputBundle)
        ensures
            bundle@ == (outputs@, sms@),
    {
        ClientOutputBundle { outputs, sms }
    }

    /// The bundle of these legs, which no state machine tracks.
    pub fn new_no_sm(outputs: Vec<ClientOutput>) -> (bundle: ClientOutputBundle)
        ensures
            bundle@ == (outputs@, Seq::<ClientOutputSM>::empty()),
    {
        ClientOutputBundle { outputs, sms: Vec::new() }
    }
}

/// What a transaction still needs to be balanced.
#[derive(Clone, Copy, Debug, PartialEq, Eq, Structural)]
pub enum Rebalance {
    /// Its outputs exceed its inputs by this much: an input has to cover it.
    Shortfall(Amount),
    /// Inputs and outputs are equal: nothing is needed.
    Balanced,
    /// Its inputs exceed its outputs by this much: an output has to take it.
    Surplus(Amount),
}

impl Rebalance {
    /// What a transaction with these two sums needs.
    pub open spec fn spec_decide(input_amount: Amount, output_amount: Amount) -> Rebalance {
        if input_amount.msats < output_amount.msats {
            Rebalance::Shortfall(
                Amount { msats: (output_amount.msats - input_amount.msats) as u64 },
            )
        } else if input_amount.msats == output_amount.msats {
            Rebalance::Balanced
        } else {
            Rebalance::Surplus(Amount { msats: (input_amount.msats - output_amount.msats) as u64 })
        }
    }

    /// What a transaction needs whose inputs sum up to `input_amount` and
    /// whose outputs sum up to `output_amount`.
    pub fn decide(input_amount: Amount, output_amount: Amount) -> (need: Rebalance)
        ensures
            need == Self::spec_decide(input_amount, output_amount),
    {
        if input_amount.msats < output_amount.msats {
            Rebalance::Shortfall(Amount { msats: output_amount.msats - input_amount.msats })
        } else if input_amount.msats == output_amount.msats {
            Rebalance::Balanced
        } else {
            Rebalance::Surplus(Amount { msats: input_amount.msats - output_amount.msats })
        }
    }
}

/// Every pair of sums falls under exactly one of the three needs, and the
/// amount of a shortfall or a surplus is the difference, which is not zero.
pub proof fn lemma_rebalance_is_total(input_amount: Amount, output_amount: Amount)
    ensures
        Rebalance::spec_decide(input_amount, output_amount) matches Rebalance::Shortfall(missing)
            <==> input_amount.msats < output_amount.msats,
        Rebalance::spec_decide(input_amount, output_amount) is Balanced <==> input_amount.msats
            == output_amount.msats,
        Rebalance::spec_decide(input_amount, output_amount) matches Rebalance::Surplus(excess)
            <==> input_amount.msats > output_amount.msats,
        Rebalance::spec_decide(input_amount, output_amount) matches Rebalance::Shortfall(missing)
            ==> missing.msats > 0 && input_amount.msats + missing.msats == output_amount.msats,
        Rebalance::spec_decide(input_amount, output_amount) matches Rebalance::Surplus(excess)
            ==> excess.msats > 0 && output_amount.msats + excess.msats == input_amount.msats,
{
}

} // verus!

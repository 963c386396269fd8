use vstd::prelude::*;
use crate::amount::Amount;
use crate::error::Error;
use crate::ids::AccountId;
use crate::ids::OperationId;
use crate::ids::OutPoint;
use crate::ids::TransactionId;
use crate::store::BalanceStore;

verus! {

/// Data needed by the state machine: the account whose legs it tracks.
#[derive(Clone, Copy, Debug, PartialEq, Eq)]
pub struct DummyClientContext {
    /// The module's own account.
    pub account: AccountId,
}

/// The state of one leg of a submitted transaction.
///
/// A leg starts as `Input` or `Output` once its transaction has an id, and
/// ends as `OutputDone` or `Refund`; nothing leads out of those two.
#[derive(Clone, Copy, Debug, PartialEq, Eq)]
pub enum DummyStateMachine {
    /// An input that pays a reserved amount into the transaction.
    Input(Amount, TransactionId, OperationId),
    /// An output to the module's own account, not yet confirmed.
    Output(Amount, TransactionId, OperationId),
    /// An output that the federation confirmed.
    OutputDone(Amount, TransactionId, OperationId),
    /// The leg failed; what it had reserved went back to the balance.
    Refund(OperationId),
}

/// What the federation reports of a transaction.
#[derive(Clone, Copy, Debug, PartialEq, Eq)]
pub enum FederationEvent {
    /// The transaction was accepted.
    TxAccepted(TransactionId),
    /// The transaction was rejected.
    TxRejected(TransactionId),
    /// The first output of the transaction was confirmed, and belongs to
    /// this account.
    OutputConfirmed(TransactionId, AccountId),
}

impl DummyStateMachine {
    /// The operation that the leg belongs to.
    pub open spec fn spec_operation_id(self) -> OperationId {
        match self {
            DummyStateMachine::Input(_, _, operation_id) => operation_id,
            DummyStateMachine::Output(_, _, operation_id) => operation_id,
            DummyStateMachine::OutputDone(_, _, operation_id) => operation_id,
            DummyStateMachine::Refund(operation_id) => operation_id,
        }
    }

    /// The operation that the leg belongs to.
    pub fn operation_id(&self) -> (operation_id: OperationId)
        ensures
            operation_id == self.spec_operation_id(),
    {
        match self {
            DummyStateMachine::Input(_, _, operation_id) => *operation_id,
            DummyStateMachine::Output(_, _, operation_id) => *operation_id,
            DummyStateMachine::OutputDone(_, _, operation_id) => *operation_id,
            DummyStateMachine::Refund(operation_id) => *operation_id,
        }
    }

    /// Whether nothing leads out of the state any more.
    pub open spec fn spec_is_terminal(self) -> bool {
        self is OutputDone || self is Refund
    }

    /// Whether nothing leads out of the state any more.
    pub fn is_terminal(&self) -> (terminal: bool)
        ensures
            terminal == self.spec_is_terminal(),
    {
        match self {
            DummyStateMachine::OutputDone(_, _, _) => true,
            DummyStateMachine::Refund(_) => true,
            _ => false,
        }
    }

    /// The state that follows `self` on `event`.
    ///
    /// An input goes to `Refund` when its transaction is rejected, and
    /// stays otherwise. An output goes to `OutputDone` when it is
    /// confirmed for the module's own account, and to `Refund` when its
    /// transaction is rejected or the output belongs to someone else. An
    /// event about another transaction changes nothing.
    pub open spec fn spec_transition(
        self,
        context: DummyClientContext,
        event: FederationEvent,
    ) -> DummyStateMachine {
        match self {
            DummyStateMachine::Input(amount, txid, operation_id) => match event {
                FederationEvent::TxRejected(t) if t == txid => DummyStateMachine::Refund(
                    operation_id,
                ),
                _ => self,
            },
            DummyStateMachine::Output(amount, txid, operation_id) => match event {
                FederationEvent::OutputConfirmed(t, account) if t == txid => if account
                    == context.account {
                    DummyStateMachine::OutputDone(amount, txid, operation_id)
                } else {
                    DummyStateMachine::Refund(operation_id)
                },
                FederationEvent::TxRejected(t) if t == txid => DummyStateMachine::Refund(
                    operation_id,
                ),
                _ => self,
            },
            DummyStateMachine::OutputDone(_, _, _) => self,
            DummyStateMachine::Refund(_) => self,
        }
    }

    /// What the step from `self` on `event` pays into the balance, if it
    /// pays at all: the reserved amount of an input that is refunded, or
    /// the amount of an output that is confirmed for the module's account.
    pub open spec fn spec_payment(self, context: DummyClientContext, event: FederationEvent) -> Option<
        Amount,
    > {
        match self {
            DummyStateMachine::Input(amount, txid, _) => match event {
                FederationEvent::TxRejected(t) if t == txid => Some(amount),
                _ => None,
            },
            DummyStateMachine::Output(amount, txid, _) => match event {
                FederationEvent::OutputConfirmed(t, account) if t == txid && account
                    == context.account => Some(amount),
                _ => None,
            },
            DummyStateMachine::OutputDone(_, _, _) => None,
            DummyStateMachine::Refund(_) => None,
        }
    }

    /// What the step from `self` on `event` pays into the balance, if it
    /// pays at all.
    pub fn payment(&self, context: &DummyClientContext, event: &FederationEvent) -> (paid: Option<
        Amount,
    >)
        ensures
            paid == self.spec_payment(*context, *event),
    {
        match self {
            DummyStateMachine::Input(amount, txid, _) => match event {
                FederationEvent::TxRejected(t) => {
                    if *t == *txid {
                        Some(*amount)
                    } else {
                        None
                    }
                },
                _ => None,
            },
            DummyStateMachine::Output(amount, txid, _) => match event {
                FederationEvent::OutputConfirmed(t, account) => {
                    if *t == *txid && *account == context.account {
                        Some(*amount)
                    } else {
                        None
                    }
                },
                _ => None,
            },
            DummyStateMachine::OutputDone(_, _, _) => None,
            DummyStateMachine::Refund(_) => None,
        }
    }

    /// How much the step from `self` on `event` adds to the balance.
    pub open spec fn spec_credit(self, context: DummyClientContext, event: FederationEvent) -> int {
        match self.spec_payment(context, event) {
            Some(amount) => amount.msats as int,
            None => 0,
        }
    }

    /// Takes the step from `self` on `event`: returns the state that
    /// follows, and pays into `store` what the step pays. A step that pays
    /// nothing leaves `store` as it is.
    pub fn transition(
        self,
        context: &DummyClientContext,
        event: &FederationEvent,
        store: &mut BalanceStore,
    ) -> (next: DummyStateMachine)
        requires
            old(store).balance() + self.spec_credit(*context, *event) <= u64::MAX,
        ensures
            next == self.spec_transition(*context, *event),
            final(store).isolated == old(store).isolated,
            match self.spec_payment(*context, *event) {
                Some(amount) => final(store).funds == Some(
                    Amount { msats: (old(store).balance() + amount.msats) as u64 },
                ),
                None => *final(store) == *old(store),
            },
            final(store).balance() == old(store).balance() + self.spec_credit(*context, *event),
    {
        match self {
            DummyStateMachine::Input(amount, txid, operation_id) => match event {
                FederationEvent::TxRejected(t) => {
                    if *t == txid {
                        store.add_funds(amount);
                        DummyStateMachine::Refund(operation_id)
                    } else {
                        self
                    }
                },
                _ => self,
            },
            DummyStateMachine::Output(amount, txid, operation_id) => match event {
                FederationEvent::OutputConfirmed(t, account) => {
                    if *t == txid {
                        if *account == context.account {
                            store.add_funds(amount);
                            DummyStateMachine::OutputDone(amount, txid, operation_id)
                        } else {
                            DummyStateMachine::Refund(operation_id)
                        }
                    } else {
                        self
                    }
                },
                FederationEvent::TxRejected(t) => {
                    if *t == txid {
                        DummyStateMachine::Refund(operation_id)
                    } else {
                        self
                    }
                },
                _ => self,
            },
            DummyStateMachine::OutputDone(_, _, _) => self,
            DummyStateMachine::Refund(_) => self,
        }
    }

    /// What the state tells someone who waits for the output `out_point`
    /// of the primary module: the amount once that output is done, a
    /// failure once the leg is refunded, and nothing yet in every other
    /// state, a finished output of another transaction among them.
    pub open spec fn spec_primary_module_output(self, out_point: OutPoint) -> Option<
        Result<Amount, Error>,
    > {
        match self {
            DummyStateMachine::OutputDone(amount, txid, _) => if txid == out_point.txid {
                Some(Ok(amount))
            } else {
                None
            },
            DummyStateMachine::Refund(_) => Some(Err(Error::FederationRejected)),
            _ => None,
        }
    }

    /// What the state tells someone who waits for the output `out_point`.
    pub fn primary_module_output(&self, out_point: &OutPoint) -> (answer: Option<
        Result<Amount, Error>,
    >)
        ensures
            answer == self.spec_primary_module_output(*out_point),
    {
        match self {
            DummyStateMachine::OutputDone(amount, txid, _) => {
                if *txid != out_point.txid {
                    return None;
                }
                Some(Ok(*amount))
            },
            DummyStateMachine::Refund(_) => Some(Err(Error::FederationRejected)),
            _ => None,
        }
    }

    /// Whether a leg that enters this state may have changed the balance.
    pub open spec fn spec_signals_balance_change(self) -> bool {
        self is OutputDone || self is Input || self is Refund
    }

    /// Whether a leg that enters this state may have changed the balance.
    pub fn signals_balance_change(&self) -> (signal: bool)
        ensures
            signal == self.spec_signals_balance_change(),
    {
        match self {
            DummyStateMachine::OutputDone(_, _, _) => true,
            DummyStateMachine::Input(_, _, _) => true,
            DummyStateMachine::Refund(_) => true,
            _ => false,
        }
    }
}

/// A state out of which nothing leads stays as it is on every event, and
/// pays nothing into the balance.
pub proof fn lemma_terminal_states_absorb(
    state: DummyStateMachine,
    context: DummyClientContext,
    event: FederationEvent,
)
    requires
        state.spec_is_terminal(),
    ensures
        state.spec_transition(context, event) == state,
        state.spec_payment(context, event) is None,
{
}

/// An event that is delivered a second time changes neither the leg nor
/// the balance: after the first delivery the same event leads from the
/// new state to itself and pays nothing, so that both deliveries together
/// add to the balance what the first one did.
pub proof fn lemma_redelivery_changes_nothing(
    state: DummyStateMachine,
    context: DummyClientContext,
    event: FederationEvent,
    balance: int,
)
    ensures
        ({
            let once = state.spec_transition(context, event);
            let paid_once = balance + state.spec_credit(context, event);
            &&& once.spec_transition(context, event) == once
            &&& once.spec_payment(context, event) is None
            &&& paid_once + once.spec_credit(context, event) == paid_once
        }),
{
}

/// The steps that pay into the balance are the two that end a leg: the
/// refund of an input and the confirmation of an output. Each leads into
/// a state out of which nothing leads, and no step moves a leg to another
/// operation.
pub proof fn lemma_payment_only_on_terminal_entry(
    state: DummyStateMachine,
    context: DummyClientContext,
    event: FederationEvent,
)
    ensures
        state.spec_payment(context, event) is Some ==> !state.spec_is_terminal()
            && state.spec_transition(context, event).spec_is_terminal(),
        state.spec_transition(context, event).spec_operation_id() == state.spec_operation_id(),
{
}

} // verus!

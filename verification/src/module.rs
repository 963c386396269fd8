use vstd::prelude::*;
use crate::amount::Amount;
use crate::error::Error;
use crate::ids::AccountId;
use crate::ids::OperationId;
use crate::ids::OutPoint;
use crate::ids::TransactionId;
use crate::keys::KeyPair;
use crate::operations::Submission;
use crate::states::DummyClientContext;
use crate::states::DummyStateMachine;
use crate::states::FederationEvent;
use crate::store::spec_reserve;
use crate::store::BalanceStore;
use crate::transaction::ClientInput;
use crate::transaction::ClientInputBundle;
use crate::transaction::ClientInputSM;
use crate::transaction::ClientOutput;
use crate::transaction::ClientOutputBundle;
use crate::transaction::ClientOutputSM;
use crate::transaction::DummyInput;
use crate::transaction::DummyOutput;
use crate::transaction::DummyOutputOutcome;
use crate::transaction::Rebalance;

verus! {

/// How many seconds `receive_money` lets the federation take to report the
/// outcome of an output.
pub const OUTCOME_TIMEOUT_SECS: u64 = 10;

/// What the federation tells its clients about this module.
#[derive(Clone, Copy, Debug, PartialEq, Eq, Structural)]
pub struct DummyClientConfig {
    /// The fee for each input and each output.
    pub tx_fee: Amount,
}

/// The client side of the module: one account, and the keys of the two
/// issuers that it can ask to print.
#[derive(Clone, Copy, Debug, PartialEq, Eq)]
pub struct DummyClientModule {
    pub cfg: DummyClientConfig,
    /// The key pair of the module's own account.
    pub key: KeyPair,
    /// The federation's issuance key.
    pub fed_key: KeyPair,
    /// An issuance key that the federation does not honour.
    pub broken_fed_key: KeyPair,
}

/// The legs that balance a transaction, as values: the input bundle and
/// the output bundle.
pub type FinalLegs = (
    (Seq<ClientInput>, Seq<ClientInputSM>),
    (Seq<ClientOutput>, Seq<ClientOutputSM>),
);

impl DummyClientModule {
    /// The module's own account.
    pub open spec fn spec_account(self) -> AccountId {
        self.key.account()
    }

    /// The legs that answer `need` in the operation `operation_id`: for a
    /// shortfall one input of the missing amount out of the module's own
    /// account, signed with its key and tracked as `Input`; nothing where
    /// the transaction is balanced; for a surplus one output of the excess
    /// to the module's own account, tracked as `Output`.
    pub open spec fn spec_final_legs(self, operation_id: OperationId, need: Rebalance) -> FinalLegs {
        match need {
            Rebalance::Shortfall(missing) => (
                (
                    seq![
                        ClientInput {
                            input: DummyInput { amount: missing, account: self.spec_account() },
                            keys: self.key,
                            amount: missing,
                        },
                    ],
                    seq![ClientInputSM { amount: missing, operation_id }],
                ),
                (Seq::empty(), Seq::empty()),
            ),
            Rebalance::Balanced => ((Seq::empty(), Seq::empty()), (Seq::empty(), Seq::empty())),
            Rebalance::Surplus(excess) => (
                (Seq::empty(), Seq::empty()),
                (
                    seq![
                        ClientOutput {
                            output: DummyOutput { amount: excess, account: self.spec_account() },
                            amount: excess,
                        },
                    ],
                    seq![ClientOutputSM { amount: excess, operation_id }],
                ),
            ),
        }
    }

    /// What the state `state` tells someone who waits, in the operation
    /// `operation_id`, for the output `out_point`: what the state says of
    /// that output where it belongs to the operation, nothing where it
    /// belongs to another.
    pub open spec fn spec_heard(
        operation_id: OperationId,
        out_point: OutPoint,
        state: DummyStateMachine,
    ) -> Option<Result<Amount, Error>> {
        if state.spec_operation_id() == operation_id {
            state.spec_primary_module_output(out_point)
        } else {
            None
        }
    }

    /// The data that the state machine works with.
    pub fn context(&self) -> (context: DummyClientContext)
        ensures
            context.account == self.spec_account(),
    {
        DummyClientContext { account: self.key.public_key() }
    }

    /// The fee for an input: the configured fee, whatever the input.
    pub fn input_fee(&self, amount: Amount, input: &DummyInput) -> (fee: Option<Amount>)
        ensures
            fee == Some(self.cfg.tx_fee),
    {
        Some(self.cfg.tx_fee)
    }

    /// The fee for an output: the configured fee, whatever the output.
    pub fn output_fee(&self, amount: Amount, output: &DummyOutput) -> (fee: Option<Amount>)
        ensures
            fee == Some(self.cfg.tx_fee),
    {
        Some(self.cfg.tx_fee)
    }

    /// The module can balance transactions: it can be the primary module.
    pub fn supports_being_primary(&self) -> (primary: bool)
        ensures
            primary,
    {
        true
    }

    /// Balances a transaction of the operation `operation_id` whose inputs
    /// sum up to `input_amount` and whose outputs sum up to
    /// `output_amount`.
    ///
    /// A shortfall is reserved from `store` and covered by one input; it
    /// fails with `InsufficientFunds` where the balance does not cover it.
    /// A surplus goes into one output to the module's own account; the
    /// balance is credited only when the federation confirms it. A store
    /// that is not isolated is refused with `IsolationViolation`. Every
    /// failure leaves `store` as it was.
    pub fn create_final_inputs_and_outputs(
        &self,
        store: &mut BalanceStore,
        operation_id: OperationId,
        input_amount: Amount,
        output_amount: Amount,
    ) -> (res: Result<(ClientInputBundle, ClientOutputBundle), Error>)
        ensures
            final(store).isolated == old(store).isolated,
            !old(store).isolated ==> (res matches Err(e) && e == Error::IsolationViolation),
            old(store).isolated ==> match Rebalance::spec_decide(input_amount, output_amount) {
                Rebalance::Shortfall(missing) => match spec_reserve(
                    old(store).balance(),
                    missing.msats as int,
                ) {
                    Some(rest) => res matches Ok(legs) && (legs.0@, legs.1@)
                        == self.spec_final_legs(operation_id, Rebalance::Shortfall(missing))
                        && final(store).funds == Some(Amount { msats: rest as u64 }),
                    None => res matches Err(e) && e == Error::InsufficientFunds,
                },
                need => res matches Ok(legs) && (legs.0@, legs.1@) == self.spec_final_legs(
                    operation_id,
                    need,
                ) && *final(store) == *old(store),
            },
            res is Err ==> *final(store) == *old(store),
            res matches Ok(legs) ==> legs.0.inputs@.len() + legs.1.outputs@.len() <= 1,
    {
        match store.ensure_isolated() {
            Err(e) => {
                return Err(e);
            },
            Ok(_) => {},
        }
        let account = self.key.public_key();
        match Rebalance::decide(input_amount, output_amount) {
            Rebalance::Shortfall(missing_input_amount) => {
                match store.reserve(missing_input_amount) {
                    Err(e) => {
                        return Err(e);
                    },
                    Ok(_) => {},
                }
                let input = ClientInput {
                    input: DummyInput { amount: missing_input_amount, account },
                    keys: self.key,
                    amount: missing_input_amount,
                };
                let input_sm = ClientInputSM { amount: missing_input_amount, operation_id };
                let mut inputs: Vec<ClientInput> = Vec::new();
                inputs.push(input);
                let mut input_sms: Vec<ClientInputSM> = Vec::new();
                input_sms.push(input_sm);
                let legs = (
                    ClientInputBundle::new(inputs, input_sms),
                    ClientOutputBundle::new(Vec::new(), Vec::new()),
                );
                proof {
                    let want = self.spec_final_legs(
                        operation_id,
                        Rebalance::Shortfall(missing_input_amount),
                    );
                    assert(legs.0@.0 =~= want.0.0);
                    assert(legs.0@.1 =~= want.0.1);
                }
                Ok(legs)
            },
            Rebalance::Balanced => Ok(
                (
                    ClientInputBundle::new(Vec::new(), Vec::new()),
                    ClientOutputBundle::new(Vec::new(), Vec::new()),
                ),
            ),
            Rebalance::Surplus(missing_output_amount) => {
                let output = ClientOutput {
                    output: DummyOutput { amount: missing_output_amount, account },
                    amount: missing_output_amount,
                };
                let output_sm = ClientOutputSM { amount: missing_output_amount, operation_id };
                let mut outputs: Vec<ClientOutput> = Vec::new();
                outputs.push(output);
                let mut output_sms: Vec<ClientOutputSM> = Vec::new();
                output_sms.push(output_sm);
                let legs = (
                    ClientInputBundle::new(Vec::new(), Vec::new()),
                    ClientOutputBundle::new(outputs, output_sms),
                );
                proof {
                    let want = self.spec_final_legs(
                        operation_id,
                        Rebalance::Surplus(missing_output_amount),
                    );
                    assert(legs.1@.0 =~= want.1.0);
                    assert(legs.1@.1 =~= want.1.1);
                }
                Ok(legs)
            },
        }
    }

    /// What the state `state` tells someone who waits, in the operation
    /// `operation_id`, for the output `out_point` of the primary module:
    /// the amount once that output is done, a failure once a leg of the
    /// operation is refunded, and `None`, which says that the wait goes
    /// on, in every other case. States of other operations and finished
    /// outputs of other transactions are passed over.
    pub fn await_primary_module_output(
        &self,
        operation_id: OperationId,
        out_point: OutPoint,
        state: &DummyStateMachine,
    ) -> (res: Option<Result<Amount, Error>>)
        ensures
            res == Self::spec_heard(operation_id, out_point, *state),
    {
        if state.operation_id() == operation_id {
            state.primary_module_output(&out_point)
        } else {
            None
        }
    }

    /// What someone learns who waits, in the operation `operation_id`, for
    /// the output `out_point` and sees the states `states` go by in this
    /// order: the answer of the first state that has one, or `None` where
    /// none of them has.
    pub fn first_primary_module_output(
        &self,
        operation_id: OperationId,
        out_point: OutPoint,
        states: &Vec<DummyStateMachine>,
    ) -> (res: Option<Result<Amount, Error>>)
        ensures
            match res {
                Some(answer) => exists|i: int|
                    0 <= i < states@.len() && Self::spec_heard(
                        operation_id,
                        out_point,
                        #[trigger] states@[i],
                    ) == Some(answer) && forall|j: int|
                        0 <= j < i ==> Self::spec_heard(
                            operation_id,
                            out_point,
                            #[trigger] states@[j],
                        ) is None,
                None => forall|i: int|
                    0 <= i < states@.len() ==> Self::spec_heard(
                        operation_id,
                        out_point,
                        #[trigger] states@[i],
                    ) is None,
            },
    {
        let mut i: usize = 0;
        while i < states.len()
            invariant
                i <= states@.len(),
                forall|j: int|
                    0 <= j < i ==> Self::spec_heard(
                        operation_id,
                        out_point,
                        #[trigger] states@[j],
                    ) is None,
            decreases states@.len() - i,
        {
            match self.await_primary_module_output(operation_id, out_point, &states[i]) {
                Some(answer) => {
                    return Some(answer);
                },
                None => {},
            }
            i = i + 1;
        }
        None
    }

    /// The balance of the module's account as `store` holds it.
    pub fn get_balance(&self, store: &BalanceStore) -> (balance: Amount)
        ensures
            balance.msats == store.balance(),
    {
        store.get_balance()
    }

    /// The signal, without content, that the balance may have changed: it
    /// is given for a state that is `OutputDone`, `Input` or `Refund`, and
    /// for no other. Who gets it reads the balance anew.
    pub fn subscribe_balance_changes(&self, state: &DummyStateMachine) -> (signal: Option<()>)
        ensures
            signal is Some <==> state.spec_signals_balance_change(),
    {
        if state.signals_balance_change() {
            Some(())
        } else {
            None
        }
    }

    /// Starts a print of `amount` out of the account of `account_kp`: draws
    /// a fresh operation identifier and returns what goes to the
    /// federation under it.
    pub fn print_using_account(&self, amount: Amount, account_kp: KeyPair) -> (submission:
        Submission)
        ensures
            submission@ == Submission::spec_print(submission.operation_id, amount, account_kp),
    {
        let op_id = OperationId::new_random();
        Submission::print(op_id, amount, account_kp)
    }

    /// Request the federation prints money for us.
    pub fn print_money(&self, amount: Amount) -> (submission: Submission)
        ensures
            submission@ == Submission::spec_print(submission.operation_id, amount, self.fed_key),
    {
        self.print_using_account(amount, self.fed_key)
    }

    /// Use a broken printer to print a liability instead of money. An
    /// honest federation rejects the transaction when it settles it.
    pub fn print_liability(&self, amount: Amount) -> (submission: Submission)
        ensures
            submission@ == Submission::spec_print(
                submission.operation_id,
                amount,
                self.broken_fed_key,
            ),
    {
        self.print_using_account(amount, self.broken_fed_key)
    }

    /// Starts a transfer of `amount` to `account`: draws a fresh operation
    /// identifier and returns what goes to the federation under it. A
    /// store that is not isolated is refused.
    pub fn send_money(&self, store: &BalanceStore, account: AccountId, amount: Amount) -> (res:
        Result<Submission, Error>)
        ensures
            !store.isolated ==> (res matches Err(e) && e == Error::IsolationViolation),
            store.isolated ==> (res matches Ok(submission) && submission@ == Submission::spec_send(
                submission.operation_id,
                account,
                amount,
            )),
    {
        match store.ensure_isolated() {
            Err(e) => {
                return Err(e);
            },
            Ok(_) => {},
        }
        let op_id = OperationId::new_random();
        Ok(Submission::send(op_id, account, amount))
    }

    /// Takes in what the federation reported of an output that was sent to
    /// this account, where `outcome` is `None` if it reported nothing
    /// within `OUTCOME_TIMEOUT_SECS`.
    ///
    /// An outcome of the module's own account overwrites the balance with
    /// the balance that it reports. One of another account fails with
    /// `WrongAccount`, none at all with `Timeout`; both leave `store` as it
    /// was.
    pub fn receive_money(&self, store: &mut BalanceStore, outcome: Option<DummyOutputOutcome>) -> (res:
        Result<(), Error>)
        ensures
            final(store).isolated == old(store).isolated,
            match outcome {
                None => res == Err::<(), Error>(Error::Timeout) && *final(store) == *old(store),
                Some(DummyOutputOutcome(new_balance, account)) => if account
                    == self.spec_account() {
                    res == Ok::<(), Error>(()) && final(store).funds == Some(new_balance)
                } else {
                    res == Err::<(), Error>(Error::WrongAccount) && *final(store) == *old(store)
                },
            },
    {
        match outcome {
            None => Err(Error::Timeout),
            Some(DummyOutputOutcome(new_balance, account)) => {
                if account != self.key.public_key() {
                    return Err(Error::WrongAccount);
                }
                store.credit(new_balance);
                Ok(())
            },
        }
    }

    /// Return our account.
    pub fn account(&self) -> (account: AccountId)
        ensures
            account == self.spec_account(),
    {
        self.key.public_key()
    }
}

/// Balancing a transaction makes one input and no output, or nothing, or
/// one output and no input, and which of the three depends on the two
/// sums alone: an input where the inputs fall short, nothing where the
/// sums are equal, an output where the inputs exceed the outputs. Never
/// more than one leg comes out, and each leg has exactly one state machine
/// seed.
pub proof fn lemma_final_legs_branch(
    module: DummyClientModule,
    operation_id: OperationId,
    input_amount: Amount,
    output_amount: Amount,
)
    ensures
        ({
            let legs = module.spec_final_legs(
                operation_id,
                Rebalance::spec_decide(input_amount, output_amount),
            );
            let inputs = legs.0.0.len();
            let outputs = legs.1.0.len();
            &&& inputs + outputs <= 1
            &&& (inputs == 1 && outputs == 0) <==> input_amount.msats < output_amount.msats
            &&& (inputs == 0 && outputs == 0) <==> input_amount.msats == output_amount.msats
            &&& (inputs == 0 && outputs == 1) <==> input_amount.msats > output_amount.msats
            &&& legs.0.1.len() == inputs
            &&& legs.1.1.len() == outputs
        }),
{
}

/// The legs that balance a transaction settle what they moved. The input
/// that covers a shortfall is tracked as a pending input of the amount
/// that was reserved, and a rejection of its transaction pays exactly that
/// amount back: the balance is again what it was before the reservation.
/// The output that takes a surplus is tracked as a pending output, and its
/// confirmation for the module's account adds exactly the surplus.
pub proof fn lemma_final_legs_settle(
    module: DummyClientModule,
    operation_id: OperationId,
    txid: TransactionId,
    amount: Amount,
    balance: int,
)
    ensures
        ({
            let context = DummyClientContext { account: module.spec_account() };
            let legs = module.spec_final_legs(operation_id, Rebalance::Shortfall(amount));
            let leg = legs.0.1[0].spec_state_machines(txid)[0];
            let rejected = FederationEvent::TxRejected(txid);
            &&& leg == DummyStateMachine::Input(amount, txid, operation_id)
            &&& leg.spec_transition(context, rejected) == DummyStateMachine::Refund(operation_id)
            &&& spec_reserve(balance, amount.msats as int) matches Some(rest) ==> rest
                + leg.spec_credit(context, rejected) == balance
        }),
        ({
            let context = DummyClientContext { account: module.spec_account() };
            let legs = module.spec_final_legs(operation_id, Rebalance::Surplus(amount));
            let leg = legs.1.1[0].spec_state_machines(txid)[0];
            let confirmed = FederationEvent::OutputConfirmed(txid, module.spec_account());
            &&& leg == DummyStateMachine::Output(amount, txid, operation_id)
            &&& leg.spec_transition(context, confirmed) == DummyStateMachine::OutputDone(
                amount,
                txid,
                operation_id,
            )
            &&& balance + leg.spec_credit(context, confirmed) == balance + amount.msats
        }),
{
}

} // verus!

use vstd::prelude::*;
use crate::amount::Amount;
use crate::error::Error;
use crate::ids::AccountId;
use crate::ids::OperationId;
use crate::ids::OutPoint;
use crate::ids::TransactionId;
use crate::keys::KeyPair;
use crate::transaction::ClientInput;
use crate::transaction::ClientInputBundle;
use crate::transaction::ClientInputSM;
use crate::transaction::ClientOutput;
use crate::transaction::ClientOutputBundle;
use crate::transaction::ClientOutputSM;
use crate::transaction::DummyInput;
use crate::transaction::DummyOutput;

verus! {

/// What one operation hands to the federation: its legs, filed under its
/// identifier. The transaction builder balances them before it submits.
#[derive(Clone, Debug, PartialEq, Eq)]
pub struct Submission {
    pub operation_id: OperationId,
    pub inputs: ClientInputBundle,
    pub outputs: ClientOutputBundle,
}

/// A submission as a value: the identifier and the two bundles.
pub struct SubmissionView {
    pub operation_id: OperationId,
    pub inputs: (Seq<ClientInput>, Seq<ClientInputSM>),
    pub outputs: (Seq<ClientOutput>, Seq<ClientOutputSM>),
}

impl View for Submission {
    type V = SubmissionView;

    open spec fn view(&self) -> SubmissionView {
        SubmissionView {
            operation_id: self.operation_id,
            inputs: self.inputs@,
            outputs: self.outputs@,
        }
    }
}

impl Submission {
    /// What a print of `amount` hands over: one input of that amount, paid
    /// by the account of `account_kp` and signed with that pair. No state
    /// machine tracks it, and there is no output: the surplus goes to the
    /// primary module.
    pub open spec fn spec_print(
        operation_id: OperationId,
        amount: Amount,
        account_kp: KeyPair,
    ) -> SubmissionView {
        SubmissionView {
            operation_id,
            inputs: (
                seq![
                    ClientInput {
                        input: DummyInput { amount, account: account_kp.account() },
                        keys: account_kp,
                        amount,
                    },
                ],
                Seq::empty(),
            ),
            outputs: (Seq::empty(), Seq::empty()),
        }
    }

    /// What a transfer of `amount` to `account` hands over: one output of
    /// that amount to that account, which no state machine tracks, and no
    /// input: the primary module covers the shortfall.
    pub open spec fn spec_send(
        operation_id: OperationId,
        account: AccountId,
        amount: Amount,
    ) -> SubmissionView {
        SubmissionView {
            operation_id,
            inputs: (Seq::empty(), Seq::empty()),
            outputs: (
                seq![ClientOutput { output: DummyOutput { amount, account }, amount }],
                Seq::empty(),
            ),
        }
    }

    /// The submission of a print of `amount` out of the account of
    /// `account_kp`, filed under `operation_id`.
    pub fn print(operation_id: OperationId, amount: Amount, account_kp: KeyPair) -> (submission:
        Submission)
        ensures
            submission@ == Self::spec_print(operation_id, amount, account_kp),
    {
        let input = ClientInput {
            input: DummyInput { amount, account: account_kp.public_key() },
            keys: account_kp,
            amount,
        };
        let mut inputs: Vec<ClientInput> = Vec::new();
        inputs.push(input);
        let submission = Submission {
            operation_id,
            inputs: ClientInputBundle::new_no_sm(inputs),
            outputs: ClientOutputBundle::new_no_sm(Vec::new()),
        };
        assert(submission@.inputs.0 =~= Self::spec_print(operation_id, amount, account_kp).inputs.0);
        submission
    }

    /// The submission of a transfer of `amount` to `account`, filed under
    /// `operation_id`.
    pub fn send(operation_id: OperationId, account: AccountId, amount: Amount) -> (submission:
        Submission)
        ensures
            submission@ == Self::spec_send(operation_id, account, amount),
    {
        let output = ClientOutput { output: DummyOutput { amount, account }, amount };
        let mut outputs: Vec<ClientOutput> = Vec::new();
        outputs.push(output);
        let submission = Submission {
            operation_id,
            inputs: ClientInputBundle::new_no_sm(Vec::new()),
            outputs: ClientOutputBundle::new_no_sm(outputs),
        };
        assert(submission@.outputs.0 =~= Self::spec_send(operation_id, account, amount).outputs.0);
        submission
    }

    /// How a print ends, once its transaction went out with the change
    /// outputs `change` and the wait for them is over: with the operation
    /// and the first of them where they settled, as a rejection where they
    /// did not.
    pub fn print_outcome(&self, change: &Vec<OutPoint>, settled: bool) -> (res: Result<
        (OperationId, OutPoint),
        Error,
    >)
        requires
            settled ==> change@.len() > 0,
        ensures
            res == (if settled {
                Ok::<(OperationId, OutPoint), Error>((self.operation_id, change@[0]))
            } else {
                Err::<(OperationId, OutPoint), Error>(Error::FederationRejected)
            }),
    {
        if !settled {
            return Err(Error::FederationRejected);
        }
        Ok((self.operation_id, change[0]))
    }

    /// How a transfer ends, once its transaction `txid` went out and the
    /// federation decided on it: with the first output of the transaction
    /// where it was accepted, as a rejection where it was not.
    pub fn send_outcome(&self, txid: TransactionId, accepted: bool) -> (res: Result<
        OutPoint,
        Error,
    >)
        ensures
            res == (if accepted {
                Ok::<OutPoint, Error>(OutPoint::spec_first_of(txid))
            } else {
                Err::<OutPoint, Error>(Error::FederationRejected)
            }),
    {
        if !accepted {
            return Err(Error::FederationRejected);
        }
        Ok(OutPoint::first_of(txid))
    }
}

} // verus!

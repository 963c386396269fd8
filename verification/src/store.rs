use vstd::prelude::*;
use crate::amount::Amount;
use crate::error::Error;

verus! {

/// What is left of `balance` once `delta` has been set aside, or `None`
/// where `balance` does not cover `delta`.
pub open spec fn spec_reserve(balance: int, delta: int) -> Option<int> {
    if balance >= delta {
        Some(balance - delta)
    } else {
        None
    }
}

/// One change that can be asked of the balance.
#[derive(Clone, Copy, Debug, PartialEq, Eq, Structural)]
pub enum BalanceOp {
    /// Set this much aside, if the balance covers it.
    Reserve(Amount),
    /// Overwrite the balance with this value, which the federation confirmed.
    Credit(Amount),
    /// Pay this much in.
    AddFunds(Amount),
}

/// The balance after `op` was asked of `balance`. A reservation that the
/// balance does not cover changes nothing.
pub open spec fn apply_op(balance: int, op: BalanceOp) -> int {
    match op {
        BalanceOp::Reserve(delta) => match spec_reserve(balance, delta.msats as int) {
            Some(rest) => rest,
            None => balance,
        },
        BalanceOp::Credit(new_balance) => new_balance.msats as int,
        BalanceOp::AddFunds(amount) => balance + amount.msats,
    }
}

/// The balance after all of `ops` were asked of `balance`, first to last.
pub open spec fn apply_ops(balance: int, ops: Seq<BalanceOp>) -> int
    decreases ops.len(),
{
    if ops.len() == 0 {
        balance
    } else {
        apply_op(apply_ops(balance, ops.drop_last()), ops.last())
    }
}

/// The module's one balance record as one storage transaction sees it.
///
/// The caller reads the record when the transaction starts, lets the
/// module work on this value, and writes `funds` back before it commits.
/// Nothing else changes the balance, so two flows that touch it line up
/// one after the other.
#[derive(Clone, Copy, Debug, PartialEq, Eq, Structural)]
pub struct BalanceStore {
    /// The record, or `None` where none was written yet.
    pub funds: Option<Amount>,
    /// Whether the storage transaction is isolated from the other modules.
    pub isolated: bool,
}

impl BalanceStore {
    /// The balance that the record stands for: nothing where it is unset.
    pub open spec fn balance(self) -> int {
        match self.funds {
            Some(amount) => amount.msats as int,
            None => 0,
        }
    }

    /// The store over the record `funds`.
    pub fn new(funds: Option<Amount>, isolated: bool) -> (store: BalanceStore)
        ensures
            store == (BalanceStore { funds, isolated }),
    {
        BalanceStore { funds, isolated }
    }

    /// The balance, which is zero while the record is unset.
    pub fn get_balance(&self) -> (balance: Amount)
        ensures
            balance.msats == self.balance(),
    {
        match self.funds {
            Some(amount) => amount,
            None => Amount::zero(),
        }
    }

    /// `Ok` where the storage transaction is isolated.
    pub fn ensure_isolated(&self) -> (res: Result<(), Error>)
        ensures
            res == (if self.isolated {
                Ok::<(), Error>(())
            } else {
                Err::<(), Error>(Error::IsolationViolation)
            }),
    {
        if self.isolated {
            Ok(())
        } else {
            Err(Error::IsolationViolation)
        }
    }

    /// Sets `delta` aside: takes it off the balance, writes the rest and
    /// returns it. A balance that does not cover `delta` is left as it is.
    pub fn reserve(&mut self, delta: Amount) -> (res: Result<Amount, Error>)
        ensures
            final(self).isolated == old(self).isolated,
            match spec_reserve(old(self).balance(), delta.msats as int) {
                Some(rest) => res == Ok::<Amount, Error>(Amount { msats: rest as u64 })
                    && final(self).funds == Some(Amount { msats: rest as u64 }),
                None => res == Err::<Amount, Error>(Error::InsufficientFunds) && *final(self)
                    == *old(self),
            },
            final(self).balance() == apply_op(old(self).balance(), BalanceOp::Reserve(delta)),
    {
        let our_funds = self.get_balance();
        if our_funds.msats < delta.msats {
            return Err(Error::InsufficientFunds);
        }
        let updated = Amount { msats: our_funds.msats - delta.msats };
        self.funds = Some(updated);
        Ok(updated)
    }

    /// Overwrites the balance with `new_balance`, a value that the
    /// federation confirmed.
    pub fn credit(&mut self, new_balance: Amount)
        ensures
            final(self).funds == Some(new_balance),
            final(self).isolated == old(self).isolated,
            final(self).balance() == apply_op(old(self).balance(), BalanceOp::Credit(new_balance)),
    {
        self.funds = Some(new_balance);
    }

    /// Pays `amount` into the balance.
    pub fn add_funds(&mut self, amount: Amount)
        requires
            old(self).balance() + amount.msats <= u64::MAX,
        ensures
            final(self).funds == Some(
                Amount { msats: (old(self).balance() + amount.msats) as u64 },
            ),
            final(self).isolated == old(self).isolated,
            final(self).balance() == apply_op(old(self).balance(), BalanceOp::AddFunds(amount)),
    {
        let our_funds = self.get_balance();
        self.funds = Some(Amount { msats: our_funds.msats + amount.msats });
    }
}

/// The balance never goes below zero, whatever is asked of it and in
/// whatever order.
pub proof fn lemma_balance_never_negative(balance: int, ops: Seq<BalanceOp>)
    requires
        balance >= 0,
    ensures
        apply_ops(balance, ops) >= 0,
    decreases ops.len(),
{
    if ops.len() > 0 {
        lemma_balance_never_negative(balance, ops.drop_last());
    }
}

/// Two reservations that together ask for more than the balance holds do
/// not both go through, whichever of them the store serves first.
pub proof fn lemma_reservations_exclude(balance: int, first: int, second: int)
    requires
        first >= 0,
        second >= 0,
        first + second > balance,
    ensures
        spec_reserve(balance, first) matches Some(rest) ==> spec_reserve(rest, second) is None,
        spec_reserve(balance, second) matches Some(rest) ==> spec_reserve(rest, first) is None,
{
}

/// A reservation that goes through takes exactly what was asked; one that
/// does not leaves the balance as it was.
pub proof fn lemma_reserve_all_or_nothing(balance: int, delta: Amount)
    ensures
        balance >= delta.msats ==> apply_op(balance, BalanceOp::Reserve(delta)) == balance
            - delta.msats,
        balance < delta.msats ==> apply_op(balance, BalanceOp::Reserve(delta)) == balance,
{
}

/// Writing the same confirmed balance a second time changes nothing.
pub proof fn lemma_credit_idempotent(balance: int, new_balance: Amount)
    ensures
        apply_op(apply_op(balance, BalanceOp::Credit(new_balance)), BalanceOp::Credit(new_balance))
            == apply_op(balance, BalanceOp::Credit(new_balance)),
{
}

} // verus!

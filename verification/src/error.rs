use vstd::prelude::*;

verus! {

/// Why an operation of the module did not go through. None of these is
/// retried by the module itself.
#[derive(Clone, Copy, Debug, PartialEq, Eq, Structural)]
pub enum Error {
    /// The balance does not cover what the transaction still lacks.
    InsufficientFunds,
    /// The federation's outcome belongs to another account.
    WrongAccount,
    /// The federation declined the transaction.
    FederationRejected,
    /// The federation did not answer within the time allowed.
    Timeout,
    /// The storage transaction is not isolated from the other modules.
    IsolationViolation,
}

impl Error {
    /// The text of each failure.
    pub open spec fn spec_message(self) -> Seq<char> {
        match self {
            Error::InsufficientFunds => "Insufficient funds"@,
            Error::WrongAccount => "Wrong account id"@,
            Error::FederationRejected => "Error occurred processing the dummy transaction"@,
            Error::Timeout => "Timed out waiting for the federation"@,
            Error::IsolationViolation => "must be isolated"@,
        }
    }

    /// The failure as a line of text.
    pub fn message(&self) -> (text: String)
        ensures
            text@ == self.spec_message(),
    {
        match self {
            Error::InsufficientFunds => "Insufficient funds".to_owned(),
            Error::WrongAccount => "Wrong account id".to_owned(),
            Error::FederationRejected => "Error occurred processing the dummy transaction".to_owned(),
            Error::Timeout => "Timed out waiting for the federation".to_owned(),
            Error::IsolationViolation => "must be isolated".to_owned(),
        }
    }
}

} // verus!

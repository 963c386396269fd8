use vstd::prelude::*;

verus! {

/// Whether two byte arrays of one length hold the same bytes.
pub fn bytes_equal<const N: usize>(a: &[u8; N], b: &[u8; N]) -> (same: bool)
    ensures
        same == (a@ == b@),
        same == (*a == *b),
{
    let mut i: usize = 0;
    while i < N
        invariant
            i <= N,
            forall|j: int| 0 <= j < i ==> a[j] == b[j],
        decreases N - i,
    {
        if a[i] != b[i] {
            return false;
        }
        i = i + 1;
    }
    assert(a@ =~= b@);
    assert(*a =~= *b);
    true
}

/// The identifier of a transaction: its 32-byte hash.
#[derive(Clone, Copy, Debug, Eq)]
pub struct TransactionId {
    pub bytes: [u8; 32],
}

impl PartialEq for TransactionId {
    fn eq(&self, other: &TransactionId) -> (same: bool) {
        bytes_equal(&self.bytes, &other.bytes)
    }
}

impl vstd::std_specs::cmp::PartialEqSpecImpl for TransactionId {
    open spec fn obeys_eq_spec() -> bool {
        true
    }

    open spec fn eq_spec(&self, other: &TransactionId) -> bool {
        *self == *other
    }
}

/// The identifier under which one user-facing call and everything it
/// spawns are filed: 32 bytes, drawn at random when the call starts.
#[derive(Clone, Copy, Debug, Eq)]
pub struct OperationId {
    pub bytes: [u8; 32],
}

impl PartialEq for OperationId {
    fn eq(&self, other: &OperationId) -> (same: bool) {
        bytes_equal(&self.bytes, &other.bytes)
    }
}

impl vstd::std_specs::cmp::PartialEqSpecImpl for OperationId {
    open spec fn obeys_eq_spec() -> bool {
        true
    }

    open spec fn eq_spec(&self, other: &OperationId) -> bool {
        *self == *other
    }
}

/// Calls `rand::random` for 32 bytes. Nothing is claimed of what comes back:
/// two calls may differ.
#[verifier::external_body]
fn random_bytes() -> (bytes: [u8; 32]) {
    rand::random()
}

impl OperationId {
    /// A fresh identifier, drawn at random.
    pub fn new_random() -> (operation_id: OperationId) {
        OperationId { bytes: random_bytes() }
    }
}

/// An account as the federation knows it: the compressed encoding of the
/// public key of the pair that owns it.
#[derive(Clone, Copy, Debug, Eq)]
pub struct AccountId {
    pub bytes: [u8; 33],
}

impl PartialEq for AccountId {
    fn eq(&self, other: &AccountId) -> (same: bool) {
        bytes_equal(&self.bytes, &other.bytes)
    }
}

impl vstd::std_specs::cmp::PartialEqSpecImpl for AccountId {
    open spec fn obeys_eq_spec() -> bool {
        true
    }

    open spec fn eq_spec(&self, other: &AccountId) -> bool {
        *self == *other
    }
}

/// One output of one transaction.
#[derive(Clone, Copy, Debug, Eq)]
pub struct OutPoint {
    /// The transaction that holds the output.
    pub txid: TransactionId,
    /// The place of the output among the outputs of that transaction.
    pub out_idx: u64,
}

impl PartialEq for OutPoint {
    fn eq(&self, other: &OutPoint) -> (same: bool) {
        self.txid == other.txid && self.out_idx == other.out_idx
    }
}

impl vstd::std_specs::cmp::PartialEqSpecImpl for OutPoint {
    open spec fn obeys_eq_spec() -> bool {
        true
    }

    open spec fn eq_spec(&self, other: &OutPoint) -> bool {
        *self == *other
    }
}

impl OutPoint {
    /// The only output this module ever makes in a transaction: the first.
    pub open spec fn spec_first_of(txid: TransactionId) -> OutPoint {
        OutPoint { txid, out_idx: 0 }
    }

    /// The first output of the transaction `txid`.
    pub fn first_of(txid: TransactionId) -> (out_point: OutPoint)
        ensures
            out_point == Self::spec_first_of(txid),
    {
        OutPoint { txid, out_idx: 0 }
    }
}

} // verus!

use vstd::prelude::*;
use crate::ids::AccountId;
use crate::ids::bytes_equal;

verus! {

/// The compressed public key that secp256k1 derives from the 32 secret
/// bytes `secret`, or `None` where those bytes are no secret key of the
/// curve.
pub uninterp spec fn secp_public_key(secret: Seq<u8>) -> Option<Seq<u8>>;

/// The secret from which the federation's own issuance key is made.
pub open spec fn fed_secret_phrase() -> Seq<u8> {
    "Money printer go brrr..........."@.map_values(|c: char| c as u8)
}

/// The secret of the issuance key whose accounting is broken on purpose.
pub open spec fn broken_fed_secret_phrase() -> Seq<u8> {
    "Money printer go <boom>........!"@.map_values(|c: char| c as u8)
}

/// A secp256k1 key pair, held as its bytes: the secret key and the
/// compressed public key that belongs to it.
#[derive(Clone, Copy, Debug, Eq)]
pub struct KeyPair {
    secret: [u8; 32],
    public: AccountId,
}

impl PartialEq for KeyPair {
    fn eq(&self, other: &KeyPair) -> (same: bool) {
        bytes_equal(&self.secret, &other.secret) && self.public == other.public
    }
}

impl vstd::std_specs::cmp::PartialEqSpecImpl for KeyPair {
    open spec fn obeys_eq_spec() -> bool {
        true
    }

    open spec fn eq_spec(&self, other: &KeyPair) -> bool {
        *self == *other
    }
}

impl KeyPair {
    /// The secret bytes of the pair.
    pub closed spec fn secret(self) -> Seq<u8> {
        self.secret@
    }

    /// The account that the pair owns.
    pub closed spec fn account(self) -> AccountId {
        self.public
    }

    /// The public half is the one that secp256k1 derives from the secret
    /// half.
    #[verifier::type_invariant]
    pub closed spec fn wf(self) -> bool {
        secp_public_key(self.secret@) == Some(self.public.bytes@)
    }

    /// Calls `Keypair::from_seckey_slice` of secp256k1 on the 32 bytes, then
    /// `public_key` and `serialize` on the pair. Claims that the outcome is
    /// a function of the bytes alone: the pair of those bytes and the
    /// compressed public key where secp256k1 takes them for a secret key,
    /// nothing where it refuses them.
    #[verifier::external_body]
    fn derive(secret: &[u8; 32]) -> (pair: Option<KeyPair>)
        ensures
            match pair {
                Some(p) => p.secret() == secret@ && secp_public_key(secret@) == Some(
                    p.account().bytes@,
                ),
                None => secp_public_key(secret@) is None,
            },
    {
        let secp = fedimint_core::secp256k1::Secp256k1::new();
        match fedimint_core::secp256k1::Keypair::from_seckey_slice(&secp, secret) {
            Ok(kp) => Some(
                KeyPair { secret: kp.secret_bytes(), public: AccountId { bytes: kp.public_key().serialize() } },
            ),
            Err(_) => None,
        }
    }

    /// Calls `fed_key_pair` of fedimint-dummy-common, then `secret_bytes`,
    /// `public_key` and `serialize` on what it returns. Claims that the
    /// pair is made from the federation's secret phrase, which secp256k1
    /// takes for a secret key, and holds the public key that belongs to it.
    #[verifier::external_body]
    pub(crate) fn fed_key_pair() -> (pair: KeyPair)
        ensures
            pair.secret() == fed_secret_phrase(),
            Some(pair.account().bytes@) == secp_public_key(fed_secret_phrase()),
    {
        let kp = fedimint_dummy_common::fed_key_pair();
        KeyPair { secret: kp.secret_bytes(), public: AccountId { bytes: kp.public_key().serialize() } }
    }

    /// Calls `broken_fed_key_pair` of fedimint-dummy-common, then
    /// `secret_bytes`, `public_key` and `serialize` on what it returns.
    /// Claims that the pair is made from the broken issuer's secret phrase,
    /// which secp256k1 takes for a secret key, and holds the public key
    /// that belongs to it.
    #[verifier::external_body]
    pub(crate) fn broken_fed_key_pair() -> (pair: KeyPair)
        ensures
            pair.secret() == broken_fed_secret_phrase(),
            Some(pair.account().bytes@) == secp_public_key(broken_fed_secret_phrase()),
    {
        let kp = fedimint_dummy_common::broken_fed_key_pair();
        KeyPair { secret: kp.secret_bytes(), public: AccountId { bytes: kp.public_key().serialize() } }
    }

    /// The pair whose secret key is `secret`, where there is one.
    pub fn from_secret_bytes(secret: &[u8; 32]) -> (pair: Option<KeyPair>)
        ensures
            pair is Some <==> secp_public_key(secret@) is Some,
            pair matches Some(p) ==> p.secret() == secret@ && Some(p.account().bytes@)
                == secp_public_key(secret@),
    {
        Self::derive(secret)
    }

    /// The account that the pair owns: its public key.
    pub fn public_key(&self) -> (account: AccountId)
        ensures
            account == self.account(),
            Some(account.bytes@) == secp_public_key(self.secret()),
    {
        proof {
            use_type_invariant(self);
        }
        self.public
    }

    /// The secret key of the pair.
    pub fn secret_bytes(&self) -> (secret: [u8; 32])
        ensures
            secret@ == self.secret(),
    {
        self.secret
    }
}

} // verus!

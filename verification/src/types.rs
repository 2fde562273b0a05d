//! The values that pass through the relay: identities, signing requests, the
//! signing service's answers and what the host reports of a finished call.

use vstd::prelude::*;

verus! {

/// The longest payload, in bytes, that the signing service signs.
pub const MAX_PAYLOAD_LENGTH: usize = 32;

/// The name of an account.
#[derive(Debug, PartialEq, Eq)]
pub struct AccountId {
    name: String,
}

impl View for AccountId {
    type V = Seq<char>;

    closed spec fn view(&self) -> Seq<char> {
        self.name@
    }
}

impl Clone for AccountId {
    fn clone(&self) -> (copy: Self)
        ensures
            copy@ == self@,
    {
        AccountId { name: self.name.clone() }
    }
}

impl AccountId {
    /// The account of that name.
    pub fn new(name: String) -> (id: Self)
        ensures
            id@ == name@,
    {
        AccountId { name }
    }

    /// The account's name.
    pub fn as_str(&self) -> (name: &str)
        ensures
            name@ == self@,
    {
        self.name.as_str()
    }

    /// Whether both are the same account.
    pub fn same_as(&self, other: &AccountId) -> (same: bool)
        ensures
            same == (self@ == other@),
    {
        self.name == other.name
    }
}

/// One request to the signing service.
#[derive(Debug, PartialEq, Eq)]
pub struct SignRequest {
    /// The bytes to sign.
    pub payload: Vec<u8>,
    /// The derivation path of the signing key.
    pub path: String,
    /// The version of the signing key.
    pub key_version: u32,
}

/// What a `SignRequest` holds.
pub struct SignRequestView {
    pub payload: Seq<u8>,
    pub path: Seq<char>,
    pub key_version: u32,
}

impl SignRequestView {
    /// Whether the payload is short enough to be signed.
    pub open spec fn payload_fits(self) -> bool {
        self.payload.len() <= MAX_PAYLOAD_LENGTH
    }
}

impl View for SignRequest {
    type V = SignRequestView;

    open spec fn view(&self) -> SignRequestView {
        SignRequestView { payload: self.payload@, path: self.path@, key_version: self.key_version }
    }
}

impl Clone for SignRequest {
    fn clone(&self) -> (copy: Self)
        ensures
            copy@ == self@,
    {
        SignRequest {
            payload: self.payload.clone(),
            path: self.path.clone(),
            key_version: self.key_version,
        }
    }
}

/// A payload that is too long to be signed.
#[derive(Debug, Clone, Copy, PartialEq, Eq, Structural)]
pub struct InvalidPayload {
    /// The payload's length in bytes.
    pub length: usize,
}

impl SignRequest {
    /// Accepts the request if its payload is at most `MAX_PAYLOAD_LENGTH`
    /// bytes long, and reports the length otherwise.
    pub fn validate_payload_length(&self) -> (checked: Result<(), InvalidPayload>)
        ensures
            self@.payload_fits() ==> checked == Ok::<(), InvalidPayload>(()),
            !self@.payload_fits() ==> checked == Err::<(), InvalidPayload>(
                InvalidPayload { length: self.payload.len() },
            ),
    {
        let length = self.payload.len();
        if length <= MAX_PAYLOAD_LENGTH {
            Ok(())
        } else {
            Err(InvalidPayload { length })
        }
    }
}

/// The views of a sequence of requests, in order.
pub open spec fn request_views(requests: Seq<SignRequest>) -> Seq<SignRequestView> {
    requests.map_values(|request: SignRequest| request@)
}

/// A signature as the signing service answers it.
#[derive(Debug, PartialEq, Eq)]
pub struct SignatureResponse {
    /// The point `R` of the signature, hex encoded.
    pub big_r: String,
    /// The scalar `s` of the signature, hex encoded.
    pub s: String,
    /// Which of the candidate keys the signature recovers.
    pub recovery_id: u8,
}

/// What a `SignatureResponse` holds.
pub struct SignatureResponseView {
    pub big_r: Seq<char>,
    pub s: Seq<char>,
    pub recovery_id: u8,
}

impl View for SignatureResponse {
    type V = SignatureResponseView;

    open spec fn view(&self) -> SignatureResponseView {
        SignatureResponseView { big_r: self.big_r@, s: self.s@, recovery_id: self.recovery_id }
    }
}

/// How one scheduled call ended, as the host reports it.
#[derive(Debug, PartialEq, Eq)]
pub enum PromiseResult {
    /// The call returned these bytes.
    Successful(Vec<u8>),
    /// The call failed, for whatever reason.
    Failed,
}

/// What the host knows of the call in progress.
#[derive(Debug, PartialEq, Eq)]
pub struct Context {
    /// The account the relay runs as.
    pub current_account_id: AccountId,
    /// The account that made the call.
    pub predecessor_account_id: AccountId,
    /// The gas the caller attached to the call.
    pub prepaid_gas: u64,
}

} // verus!

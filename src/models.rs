//! The records that the store keeps and the values exchanged with clients.
//!
//! Instants are whole seconds since the Unix epoch; amounts of money are
//! whole cents.

use vstd::prelude::*;

verus! {

/// A user of the service. The id doubles as the bearer token.
#[derive(Debug)]
pub struct User {
    pub id: String,
    pub credits: u32,
    pub created_at: i64,
    pub last_credit_update_at: i64,
}

/// Relies on uuid's `Uuid::new_v4` and its `Display`: a random identifier,
/// written as 36 characters (hyphenated lower-case hex).
#[verifier::external_body]
fn fresh_identifier() -> (r: String)
    ensures
        r@.len() == 36,
{
    uuid::Uuid::new_v4().to_string()
}

/// Relies on chrono's `Utc::now` and `DateTime::timestamp`: the current
/// time in whole seconds since the Unix epoch.
#[verifier::external_body]
fn unix_now() -> (r: i64) {
    chrono::Utc::now().timestamp()
}

impl User {
    /// A user with a fresh random id, created now.
    pub fn new(initial_credits: u32) -> (r: User)
        ensures
            r.credits == initial_credits,
            r.id@.len() == 36,
            r.created_at == r.last_credit_update_at,
    {
        let id = fresh_identifier();
        let now = unix_now();
        User::with_id(id, initial_credits, now)
    }

    /// A user with the given id, created at `now`.
    pub fn with_id(id: String, initial_credits: u32, now: i64) -> (r: User)
        ensures
            r.id == id,
            r.credits == initial_credits,
            r.created_at == now,
            r.last_credit_update_at == now,
    {
        User { id, credits: initial_credits, created_at: now, last_credit_update_at: now }
    }

    /// A field-by-field copy.
    pub fn duplicate(&self) -> (r: User)
        ensures
            r == *self,
    {
        User {
            id: self.id.clone(),
            credits: self.credits,
            created_at: self.created_at,
            last_credit_update_at: self.last_credit_update_at,
        }
    }
}

/// The settlement backends.
#[derive(Clone, Copy, Debug, PartialEq, Eq, Structural)]
pub enum PaymentMethod {
    Lightning,
    Coinbase,
}

/// Where a payment request stands.
#[derive(Clone, Copy, Debug, PartialEq, Eq, Structural)]
pub enum PaymentStatus {
    Pending,
    Paid,
    Expired,
}

/// A purchase of credits, from its creation until it is paid or expires.
#[derive(Debug)]
pub struct PaymentRequest {
    pub id: String,
    pub user_id: String,
    pub offer_id: String,
    pub credits: u32,
    pub status: PaymentStatus,
    pub method: PaymentMethod,
    pub expires_at: i64,
    /// The provider's reference (invoice payment hash, charge id), set once
    /// the provider has created the charge.
    pub external_id: Option<String>,
}

/// A copy of an optional string.
pub(crate) fn copy_opt_string(s: &Option<String>) -> (r: Option<String>)
    ensures
        r == *s,
{
    match s {
        Some(v) => Some(v.clone()),
        None => None,
    }
}

impl PaymentRequest {
    /// A pending request with a fresh random id and no external reference.
    pub fn new(
        user_id: String,
        offer_id: String,
        credits: u32,
        method: PaymentMethod,
        expires_at: i64,
    ) -> (r: PaymentRequest)
        ensures
            r.id@.len() == 36,
            r.user_id == user_id,
            r.offer_id == offer_id,
            r.credits == credits,
            r.status == PaymentStatus::Pending,
            r.method == method,
            r.expires_at == expires_at,
            r.external_id.is_none(),
    {
        PaymentRequest {
            id: fresh_identifier(),
            user_id,
            offer_id,
            credits,
            status: PaymentStatus::Pending,
            method,
            expires_at,
            external_id: None,
        }
    }

    /// A field-by-field copy.
    pub fn duplicate(&self) -> (r: PaymentRequest)
        ensures
            r == *self,
    {
        PaymentRequest {
            id: self.id.clone(),
            user_id: self.user_id.clone(),
            offer_id: self.offer_id.clone(),
            credits: self.credits,
            status: self.status,
            method: self.method,
            expires_at: self.expires_at,
            external_id: copy_opt_string(&self.external_id),
        }
    }
}

/// A client's request to buy an offer.
#[derive(Debug)]
pub struct PaymentRequestInput {
    pub offer_id: String,
    pub payment_method: PaymentMethod,
    /// The buyer's user id.
    pub payment_context_token: String,
    /// Optional chain hint for crypto checkout, echoed back to the client.
    pub chain: Option<String>,
    /// Optional asset hint for crypto checkout, echoed back to the client.
    pub asset: Option<String>,
}

/// What a Lightning buyer needs in order to pay.
#[derive(Debug)]
pub struct LightningPaymentDetails {
    pub lightning_invoice: String,
}

/// What a checkout buyer needs in order to pay.
#[derive(Debug)]
pub struct CoinbasePaymentDetails {
    pub checkout_url: String,
    pub address: Option<String>,
    pub asset: Option<String>,
    pub chain: Option<String>,
}

/// The holder-facing payment descriptor, per method.
#[derive(Debug)]
pub enum PaymentRequestDetails {
    Lightning { lightning_invoice: String },
    Coinbase {
        checkout_url: String,
        address: Option<String>,
        asset: Option<String>,
        chain: Option<String>,
    },
}

/// The user id carried by a bearer token.
#[derive(Debug)]
pub struct UserId(pub String);

} // verus!

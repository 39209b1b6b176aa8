//! The crypto-checkout provider: charge parameters, webhook authentication
//! and the settlement predicate on its events.

use vstd::prelude::*;
use vstd::utf8::encode_utf8;
use hmac::Mac;
use crate::config::Config;
use crate::models::PaymentRequestDetails;
use crate::text::{amount_text, format_amount};

verus! {

/// Why a checkout operation failed.
#[derive(Debug)]
pub enum CoinbaseError {
    NetworkError(String),
    ApiError(String),
    ConfigError(String),
    SerializationError(String),
    HmacError(String),
    InvalidWebhook(String),
}

/// The checkout provider, as configured.
#[derive(Debug)]
pub struct CoinbaseProvider {
    pub api_key: String,
    pub webhook_secret: Option<String>,
}

/// The charge-specific part of a checkout webhook.
#[derive(Debug)]
pub struct WebhookData {
    pub id: String,
    pub status: String,
}

/// A checkout webhook event.
#[derive(Debug)]
pub struct CoinbaseWebhookEvent {
    pub event_type: String,
    pub data: WebhookData,
}

/// The parameters of a new checkout charge.
#[derive(Debug)]
pub struct CreateChargeRequest {
    pub name: String,
    pub description: String,
    /// Opaque reference to the payment request, for support and audit only.
    pub reference: String,
    /// The price with two fraction digits.
    pub amount: String,
    pub currency: String,
    pub pricing_type: String,
}

/// The HMAC-SHA256 tag of `msg` under `key`.
pub uninterp spec fn hmac_sha256_of(key: Seq<u8>, msg: Seq<u8>) -> Seq<u8>;

/// The lower-case hex digit for `n < 16`, as an ASCII byte.
pub open spec fn hex_digit(n: u8) -> u8 {
    if n < 10 { (48 + n) as u8 } else { (87 + n) as u8 }
}

/// `bytes` in lower-case hex, two digits per byte, high nibble first.
pub open spec fn hex_bytes(bytes: Seq<u8>) -> Seq<u8>
    decreases bytes.len(),
{
    if bytes.len() == 0 {
        Seq::empty()
    } else {
        let b = bytes.last();
        hex_bytes(bytes.drop_last()) + seq![hex_digit(b / 16), hex_digit(b % 16)]
    }
}

/// Relies on hmac's `Hmac::<Sha256>` (with sha2's `Sha256`): the tag of
/// `msg` under `key`. `new_from_slice` accepts keys of every length.
#[verifier::external_body]
fn hmac_sha256(key: &[u8], msg: &[u8]) -> (r: Option<Vec<u8>>)
    ensures
        r is Some,
        r matches Some(tag) ==> tag@ == hmac_sha256_of(key@, msg@),
{
    match hmac::Hmac::<sha2::Sha256>::new_from_slice(key) {
        Ok(mut mac) => {
            mac.update(msg);
            Some(mac.finalize().into_bytes().to_vec())
        },
        Err(_) => None,
    }
}

/// Relies on `hex::encode`: two lower-case digits per byte, high nibble
/// first; the result is taken as its bytes.
#[verifier::external_body]
fn hex_encode(bytes: &[u8]) -> (r: Vec<u8>)
    ensures
        r@ == hex_bytes(bytes@),
{
    hex::encode(bytes).into_bytes()
}

/// Compares two byte strings in time that depends on their length only.
pub fn constant_time_eq(a: &[u8], b: &[u8]) -> (r: bool)
    ensures
        r == (a@ == b@),
{
    if a.len() != b.len() {
        return false;
    }
    let mut result: u8 = 0;
    let mut i: usize = 0;
    while i < a.len()
        invariant
            a@.len() == b@.len(),
            i <= a.len(),
            (result == 0) == (forall|j: int| 0 <= j < i ==> a@[j] == b@[j]),
        decreases a.len() - i,
    {
        let x = a[i];
        let y = b[i];
        let old_result = result;
        result = result | (x ^ y);
        assert((result == 0) == (old_result == 0 && x == y)) by (bit_vector)
            requires
                result == old_result | (x ^ y),
        ;
        i = i + 1;
    }
    if result == 0 {
        assert(a@ =~= b@);
    }
    result == 0
}

/// Whether `signature` is the hex rendering of the tag `digest`.
pub fn signature_matches(digest: &[u8], signature: &str) -> (r: bool)
    ensures
        r == (hex_bytes(digest@) == encode_utf8(signature@)),
{
    let calculated = hex_encode(digest);
    constant_time_eq(calculated.as_slice(), signature.as_bytes())
}

/// Whether `signature` authenticates `body` under `secret`.
pub open spec fn webhook_authentic(secret: Seq<char>, body: Seq<u8>, signature: Seq<char>) -> bool {
    hex_bytes(hmac_sha256_of(encode_utf8(secret), body)) == encode_utf8(signature)
}

/// Whether a checkout event reports a confirmed charge.
pub open spec fn event_settles(event: CoinbaseWebhookEvent) -> bool {
    event.event_type@ == "charge:confirmed"@ && event.data.status@ == "CONFIRMED"@
}

fn copy_option(s: Option<&str>) -> (r: Option<String>)
    ensures
        match s {
            Some(v) => r matches Some(w) && w@ == v@,
            None => r is None,
        },
{
    match s {
        Some(v) => Some(v.to_owned()),
        None => None,
    }
}

impl CoinbaseProvider {
    /// The provider, when checkout payments are enabled and an API key is set.
    pub fn new(config: &Config) -> (r: Result<CoinbaseProvider, CoinbaseError>)
        ensures
            match r {
                Ok(p) => config.coinbase_enabled && config.coinbase_api_key == Some(p.api_key)
                    && p.webhook_secret == config.coinbase_webhook_secret,
                Err(e) => e is ConfigError && !(config.coinbase_enabled && config.coinbase_api_key is Some),
            },
    {
        if !config.coinbase_enabled {
            return Err(CoinbaseError::ConfigError(String::from_str("Coinbase payments are not enabled")));
        }
        match &config.coinbase_api_key {
            Some(k) => Ok(CoinbaseProvider {
                api_key: k.clone(),
                webhook_secret: crate::models::copy_opt_string(&config.coinbase_webhook_secret),
            }),
            None => Err(CoinbaseError::ConfigError(String::from_str("Coinbase API key not configured"))),
        }
    }

    /// The parameters of a fixed-price charge of `amount_cents`.
    pub fn charge_request(&self, amount_cents: u64, currency: &String, description: &String, reference: &String) -> (r: CreateChargeRequest)
        ensures
            r.name@ == "API Credits"@,
            r.description@ == description@,
            r.reference@ == reference@,
            r.amount@ == amount_text(amount_cents as nat),
            r.currency@ == currency@,
            r.pricing_type@ == "fixed_price"@,
    {
        CreateChargeRequest {
            name: String::from_str("API Credits"),
            description: description.clone(),
            reference: reference.clone(),
            amount: format_amount(amount_cents),
            currency: currency.clone(),
            pricing_type: String::from_str("fixed_price"),
        }
    }

    /// Authenticates a webhook body by its HMAC-SHA256 signature, then hands
    /// back the event decoded from it (`parsed`, `None` when it did not decode).
    pub fn verify_webhook(&self, body: &[u8], signature: &str, parsed: Option<CoinbaseWebhookEvent>) -> (r: Result<CoinbaseWebhookEvent, CoinbaseError>)
        ensures
            match self.webhook_secret {
                None => r matches Err(e) && e is ConfigError,
                Some(secret) => if !webhook_authentic(secret@, body@, signature@) {
                    r matches Err(e) && e is InvalidWebhook
                } else {
                    match parsed {
                        Some(ev) => r == Ok::<CoinbaseWebhookEvent, CoinbaseError>(ev),
                        None => r matches Err(e) && e is SerializationError,
                    }
                },
            },
    {
        let secret = match &self.webhook_secret {
            Some(s) => s,
            None => {
                return Err(CoinbaseError::ConfigError(String::from_str("Coinbase webhook secret not configured")));
            },
        };
        let digest = match hmac_sha256(secret.as_str().as_bytes(), body) {
            Some(d) => d,
            None => {
                return Err(CoinbaseError::HmacError(String::from_str("invalid key")));
            },
        };
        if !signature_matches(digest.as_slice(), signature) {
            return Err(CoinbaseError::InvalidWebhook(String::from_str("Invalid signature")));
        }
        match parsed {
            Some(ev) => Ok(ev),
            None => Err(CoinbaseError::SerializationError(String::from_str("malformed webhook body"))),
        }
    }

    /// Whether the event reports a confirmed charge.
    pub fn is_payment_completed(&self, event: &CoinbaseWebhookEvent) -> (r: bool)
        ensures
            r == event_settles(*event),
    {
        let confirmed_type = String::from_str("charge:confirmed");
        let confirmed_status = String::from_str("CONFIRMED");
        event.event_type == confirmed_type && event.data.status == confirmed_status
    }

    /// The charge id that the event is about.
    pub fn get_charge_id<'a>(&self, event: &'a CoinbaseWebhookEvent) -> (r: &'a String)
        ensures
            *r == event.data.id,
    {
        &event.data.id
    }

    /// The descriptor handed to a checkout buyer.
    pub fn generate_payment_details(&self, checkout_url: &str, address: Option<&str>, chain: Option<&str>, asset: Option<&str>) -> (r: PaymentRequestDetails)
        ensures
            r matches PaymentRequestDetails::Coinbase { checkout_url: u, address: a, chain: c, asset: s }
                && u@ == checkout_url@
                && (a is Some <==> address is Some) && (a matches Some(x) ==> x@ == address.unwrap()@)
                && (c is Some <==> chain is Some) && (c matches Some(x) ==> x@ == chain.unwrap()@)
                && (s is Some <==> asset is Some) && (s matches Some(x) ==> x@ == asset.unwrap()@),
    {
        PaymentRequestDetails::Coinbase {
            checkout_url: checkout_url.to_owned(),
            address: copy_option(address),
            chain: copy_option(chain),
            asset: copy_option(asset),
        }
    }
}

} // verus!

//! The Lightning provider: invoice parameters and webhook intake.

use vstd::prelude::*;
use crate::config::Config;
use crate::models::PaymentRequestDetails;
use crate::quote::ConversionError;

verus! {

/// Why a Lightning operation failed.
#[derive(Debug)]
pub enum LightningError {
    NetworkError(String),
    ApiError(String),
    ConfigError(String),
    SerializationError(String),
    LNBitsError(String),
    ConversionError(ConversionError),
}

/// Where and how to reach the invoice service.
#[derive(Debug)]
pub struct LnbitsAccess {
    pub url: String,
    pub admin_key: String,
    pub invoice_read_key: String,
}

/// The Lightning provider, as configured.
#[derive(Debug)]
pub struct LightningProvider {
    /// Present when the invoice service is fully configured.
    pub lnbits: Option<LnbitsAccess>,
}

/// A Lightning webhook event.
#[derive(Debug)]
pub struct WebhookEvent {
    pub payment_hash: String,
    /// Whether the sender reports the invoice as paid.
    pub payment_status: bool,
}

/// The parameters of a new invoice.
#[derive(Debug)]
pub struct CreateInvoiceRequest {
    pub amount: u64,
    pub memo: Option<String>,
    pub unit: String,
    pub expiry: Option<u32>,
    pub webhook: Option<String>,
    pub internal: bool,
    pub out: bool,
}

/// Seconds for which an invoice can be paid.
pub const INVOICE_EXPIRY_SECONDS: u32 = 1800;

impl LightningProvider {
    /// The provider, when Lightning payments are enabled. It can create
    /// invoices only when URL, admin key and invoice key are all set.
    pub fn new(config: &Config) -> (r: Result<LightningProvider, LightningError>)
        ensures
            match r {
                Ok(p) => config.lightning_enabled
                    && (p.lnbits is Some <==> (config.lnbits_url is Some && config.lnbits_admin_key is Some
                        && config.lnbits_invoice_read_key is Some))
                    && (p.lnbits matches Some(a) ==> config.lnbits_url == Some(a.url)
                        && config.lnbits_admin_key == Some(a.admin_key)
                        && config.lnbits_invoice_read_key == Some(a.invoice_read_key)),
                Err(e) => !config.lightning_enabled && e is ConfigError,
            },
    {
        if !config.lightning_enabled {
            return Err(LightningError::ConfigError(String::from_str("Lightning payments are not enabled")));
        }
        let lnbits = match (&config.lnbits_url, &config.lnbits_admin_key, &config.lnbits_invoice_read_key) {
            (Some(url), Some(admin_key), Some(invoice_read_key)) => Some(LnbitsAccess {
                url: url.clone(),
                admin_key: admin_key.clone(),
                invoice_read_key: invoice_read_key.clone(),
            }),
            _ => None,
        };
        Ok(LightningProvider { lnbits })
    }

    /// The parameters of an invoice for `amount_sats`, payable for thirty
    /// minutes.
    pub fn invoice_request(&self, amount_sats: u64, description: &String) -> (r: Result<CreateInvoiceRequest, LightningError>)
        ensures
            match r {
                Ok(q) => self.lnbits is Some && q.amount == amount_sats && q.memo == Some(*description)
                    && q.unit@ == "sat"@ && q.expiry == Some(INVOICE_EXPIRY_SECONDS)
                    && q.webhook is None && !q.internal && !q.out,
                Err(e) => self.lnbits is None && e is ConfigError,
            },
    {
        if self.lnbits.is_none() {
            return Err(LightningError::ConfigError(String::from_str("LNBits client not configured")));
        }
        Ok(CreateInvoiceRequest {
            amount: amount_sats,
            memo: Some(description.clone()),
            unit: String::from_str("sat"),
            expiry: Some(INVOICE_EXPIRY_SECONDS),
            webhook: None,
            internal: false,
            out: false,
        })
    }

    /// Hands back the event decoded from a webhook body (`parsed`, `None`
    /// when it did not decode). This backend has no signature scheme: the
    /// event is confirmed by a status check before anything is credited.
    pub fn verify_webhook(&self, body: &[u8], signature: &str, parsed: Option<WebhookEvent>) -> (r: Result<WebhookEvent, LightningError>)
        ensures
            match parsed {
                Some(ev) => r == Ok::<WebhookEvent, LightningError>(ev),
                None => r matches Err(e) && e is SerializationError,
            },
    {
        match parsed {
            Some(ev) => Ok(ev),
            None => Err(LightningError::SerializationError(String::from_str("malformed webhook body"))),
        }
    }

    /// The descriptor handed to a Lightning buyer.
    pub fn generate_payment_details(&self, invoice: &String) -> (r: PaymentRequestDetails)
        ensures
            r == (PaymentRequestDetails::Lightning { lightning_invoice: *invoice }),
    {
        PaymentRequestDetails::Lightning { lightning_invoice: invoice.clone() }
    }
}

} // verus!

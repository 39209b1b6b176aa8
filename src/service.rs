//! The payment lifecycle: creating payment requests, recording the
//! provider's charge, and settling a paid request exactly once, whether the
//! news comes by webhook or by polling.
//!
//! Provider calls are made by the caller between the steps here; their
//! outcomes come back in as arguments.

use vstd::prelude::*;
use crate::coinbase::{event_settles, webhook_authentic, CoinbaseError, CoinbaseProvider, CoinbaseWebhookEvent, CreateChargeRequest};
use crate::config::{offer_position, Config, Offer};
use crate::lightning::{CreateInvoiceRequest, LightningError, LightningProvider, WebhookEvent};
use crate::models::{copy_opt_string, PaymentMethod, PaymentRequest, PaymentRequestDetails, PaymentRequestInput, PaymentStatus};
use crate::quote::ConversionError;
use crate::storage::{PaymentStore, StorageError, StoreModel};
use crate::text::{decimal, decimal_digits};

verus! {

/// Why a payment operation failed.
#[derive(Debug)]
pub enum PaymentError {
    StorageError(StorageError),
    LightningError(LightningError),
    CoinbaseError(CoinbaseError),
    InvalidPaymentMethod(PaymentMethod),
    OfferNotFound(String),
    UserNotFound(String),
    InvalidInput(String),
    AlreadyProcessed(String),
    PaymentExpired(String),
    PaymentNotFound(String),
    ConversionError(ConversionError),
    InvalidOffer(String),
}

/// Seconds for which a new payment request can be paid.
pub const PAYMENT_WINDOW_SECONDS: i64 = 1800;

/// What a poll loop does after one status check.
#[derive(Clone, Copy, Debug, PartialEq, Eq, Structural)]
pub enum PollStep {
    /// Check again after the poll interval.
    Continue,
    /// The purchase is settled or will never be: stop polling.
    Stop,
}

/// The pending request that a purchase `input` creates, with id `id`, at `now`.
pub open spec fn new_request(input: PaymentRequestInput, credits: u32, id: String, now: i64) -> PaymentRequest {
    PaymentRequest {
        id,
        user_id: input.payment_context_token,
        offer_id: input.offer_id,
        credits,
        status: PaymentStatus::Pending,
        method: input.payment_method,
        expires_at: (now + PAYMENT_WINDOW_SECONDS) as i64,
        external_id: None,
    }
}

/// `r` with the provider reference `e`.
pub open spec fn with_external(r: PaymentRequest, e: String) -> PaymentRequest {
    PaymentRequest { external_id: Some(e), ..r }
}

/// `r` marked as paid.
pub open spec fn paid(r: PaymentRequest) -> PaymentRequest {
    PaymentRequest { status: PaymentStatus::Paid, ..r }
}

/// Whether settling `r` against the store `s` grants credits: the request
/// is pending, and the stored record, if any, is pending too.
pub open spec fn settles(s: StoreModel, r: PaymentRequest) -> bool {
    r.status == PaymentStatus::Pending
        && !(s.payments.contains_key(r.id@) && s.payments[r.id@].status != PaymentStatus::Pending)
}

/// The store after settling `r` at `now`: the request is written as paid,
/// then its credits go to its user. Unchanged when `r` does not settle.
pub open spec fn settled(s: StoreModel, r: PaymentRequest, now: i64) -> StoreModel {
    if settles(s, r) {
        s.with_payment(paid(r), now).with_credit_delta(r.user_id@, r.credits as int, now)
    } else {
        s
    }
}

/// The memo of a Lightning invoice for `credits`.
pub open spec fn invoice_memo(credits: u32) -> Seq<char> {
    "Purchase "@ + decimal_digits(credits as nat) + " credits"@
}

/// The description of a checkout charge for `offer`.
pub open spec fn charge_description(offer: Offer) -> Seq<char> {
    "Purchase "@ + decimal_digits(offer.credits as nat) + " credits for API access - "@ + offer.title@
}

/// Whether a payment notification for request `r` is too late at `now`.
pub open spec fn expired_at(r: PaymentRequest, now: i64) -> bool {
    now > r.expires_at
}

/// The request that a payment notification about reference `e` would settle
/// at `now`: one that exists, is not paid yet, and has not expired.
pub open spec fn notification_target(s: StoreModel, e: Seq<char>, now: i64) -> Option<PaymentRequest> {
    match s.by_external(e) {
        Some(r) => if r.status != PaymentStatus::Paid && !expired_at(r, now) { Some(r) } else { None },
        None => None,
    }
}

/// Whether settling `r` against `s` fails: it would grant credits to a user
/// that the store does not hold.
pub open spec fn settle_fails(s: StoreModel, r: PaymentRequest) -> bool {
    settles(s, r) && !s.users.contains_key(r.user_id@)
}

/// Whether a poll loop started at `started_at` has run out of time at `now`;
/// the budget is `timeout_minutes`, thirty when not given.
pub open spec fn poll_expired(started_at: i64, now: i64, timeout_minutes: Option<u64>) -> bool {
    now - started_at > 60 * match timeout_minutes { Some(m) => m as int, None => 30 }
}

/// Whether a poll loop has run out of time (see `poll_expired`).
pub fn poll_timed_out(started_at: i64, now: i64, timeout_minutes: Option<u64>) -> (r: bool)
    ensures
        r == poll_expired(started_at, now, timeout_minutes),
{
    let minutes: u64 = match timeout_minutes {
        Some(m) => m,
        None => 30,
    };
    (now as i128 - started_at as i128) > 60 * (minutes as i128)
}

/// The payment service: the store, the catalog, and the providers that are
/// configured.
pub struct PaymentService {
    pub storage: PaymentStore,
    pub config: Config,
    pub lightning_provider: Option<LightningProvider>,
    pub coinbase_provider: Option<CoinbaseProvider>,
}

impl PaymentService {
    pub open spec fn wf(&self) -> bool {
        self.storage.wf()
    }

    /// Whether the provider for `method` is configured.
    pub open spec fn has_provider(&self, method: PaymentMethod) -> bool {
        match method {
            PaymentMethod::Lightning => self.lightning_provider is Some,
            PaymentMethod::Coinbase => self.coinbase_provider is Some,
        }
    }

    /// A service with no provider configured yet.
    pub fn new_without_providers(config: Config, storage: PaymentStore) -> (r: PaymentService)
        ensures
            r.config == config,
            r.storage == storage,
            r.lightning_provider is None,
            r.coinbase_provider is None,
    {
        PaymentService { storage, config, lightning_provider: None, coinbase_provider: None }
    }

    /// Sets up each provider that the configuration enables and that can be
    /// set up; the others stay absent.
    pub fn init_providers(&mut self)
        ensures
            final(self).storage == old(self).storage,
            final(self).config == old(self).config,
            final(self).lightning_provider is Some <==> old(self).config.lightning_enabled,
            final(self).coinbase_provider is Some <==> (old(self).config.coinbase_enabled
                && old(self).config.coinbase_api_key is Some),
    {
        match LightningProvider::new(&self.config) {
            Ok(p) => { self.lightning_provider = Some(p); },
            Err(_) => { self.lightning_provider = None; },
        }
        match CoinbaseProvider::new(&self.config) {
            Ok(p) => { self.coinbase_provider = Some(p); },
            Err(_) => { self.coinbase_provider = None; },
        }
    }

    /// A service over `storage` with every provider that `config` enables.
    pub fn new(config: Config, storage: PaymentStore) -> (r: PaymentService)
        ensures
            r.config == config,
            r.storage == storage,
            r.lightning_provider is Some <==> config.lightning_enabled,
            r.coinbase_provider is Some <==> (config.coinbase_enabled && config.coinbase_api_key is Some),
    {
        let mut s = PaymentService::new_without_providers(config, storage);
        s.init_providers();
        s
    }

    /// Starts a purchase: checks the offer and the provider, then stores a
    /// new pending request that expires after the payment window.
    pub fn process_payment_request(&mut self, input: &PaymentRequestInput, now: i64) -> (r: Result<PaymentRequest, PaymentError>)
        requires
            old(self).wf(),
            now <= i64::MAX - PAYMENT_WINDOW_SECONDS,
        ensures
            final(self).wf(),
            final(self).config == old(self).config,
            final(self).lightning_provider == old(self).lightning_provider,
            final(self).coinbase_provider == old(self).coinbase_provider,
            match offer_position(old(self).config.offers@, input.offer_id@) {
                None => r matches Err(e) && e is InvalidOffer && final(self).storage@ == old(self).storage@,
                Some(i) => if !old(self).has_provider(input.payment_method) {
                    r matches Err(e) && e == PaymentError::InvalidPaymentMethod(input.payment_method)
                        && final(self).storage@ == old(self).storage@
                } else {
                    r matches Ok(req)
                        && req == new_request(*input, old(self).config.offers@[i].credits, req.id, now)
                        && final(self).storage@ == old(self).storage@.with_payment(req, now)
                },
            },
    {
        let i = match self.config.find_offer(&input.offer_id) {
            Some(i) => i,
            None => {
                return Err(PaymentError::InvalidOffer(input.offer_id.clone()));
            },
        };
        let configured = match input.payment_method {
            PaymentMethod::Lightning => self.lightning_provider.is_some(),
            PaymentMethod::Coinbase => self.coinbase_provider.is_some(),
        };
        if !configured {
            return Err(PaymentError::InvalidPaymentMethod(input.payment_method));
        }
        let request = PaymentRequest::new(
            input.payment_context_token.clone(),
            input.offer_id.clone(),
            self.config.offers[i].credits,
            input.payment_method,
            now + PAYMENT_WINDOW_SECONDS,
        );
        self.storage.store_payment_request(&request, now);
        Ok(request)
    }

    /// The invoice to ask the Lightning provider for, for `request` at
    /// `amount_sats`.
    pub fn lightning_invoice_request(&self, request: &PaymentRequest, amount_sats: u64) -> (r: Result<CreateInvoiceRequest, PaymentError>)
        ensures
            match self.lightning_provider {
                None => r matches Err(e) && e == PaymentError::InvalidPaymentMethod(PaymentMethod::Lightning),
                Some(p) => match r {
                    Ok(q) => p.lnbits is Some && q.amount == amount_sats
                        && (q.memo matches Some(m) && m@ == invoice_memo(request.credits)),
                    Err(e) => p.lnbits is None && (e matches PaymentError::LightningError(le) && le is ConfigError),
                },
            },
    {
        let provider = match &self.lightning_provider {
            Some(p) => p,
            None => {
                return Err(PaymentError::InvalidPaymentMethod(PaymentMethod::Lightning));
            },
        };
        let mut memo = String::from_str("Purchase ");
        let n = decimal(request.credits as u64);
        memo.append(n.as_str());
        memo.append(" credits");
        match provider.invoice_request(amount_sats, &memo) {
            Ok(q) => Ok(q),
            Err(e) => Err(PaymentError::LightningError(e)),
        }
    }

    /// The charge to ask the checkout provider for, for `request` and the
    /// offer it buys. The request id goes along as the charge's reference.
    pub fn coinbase_charge_request(&self, request: &PaymentRequest) -> (r: Result<CreateChargeRequest, PaymentError>)
        ensures
            match offer_position(self.config.offers@, request.offer_id@) {
                None => r matches Err(e) && e is InvalidOffer,
                Some(i) => if self.coinbase_provider is None {
                    r matches Err(e) && e == PaymentError::InvalidPaymentMethod(PaymentMethod::Coinbase)
                } else {
                    r matches Ok(q) && q.reference@ == request.id@
                        && q.description@ == charge_description(self.config.offers@[i])
                        && q.amount@ == crate::text::amount_text(self.config.offers@[i].amount_cents as nat)
                        && q.currency@ == self.config.offers@[i].currency@
                },
            },
    {
        let i = match self.config.find_offer(&request.offer_id) {
            Some(i) => i,
            None => {
                return Err(PaymentError::InvalidOffer(request.offer_id.clone()));
            },
        };
        let provider = match &self.coinbase_provider {
            Some(p) => p,
            None => {
                return Err(PaymentError::InvalidPaymentMethod(PaymentMethod::Coinbase));
            },
        };
        let offer = &self.config.offers[i];
        let mut description = String::from_str("Purchase ");
        let n = decimal(offer.credits as u64);
        description.append(n.as_str());
        description.append(" credits for API access - ");
        description.append(offer.title.as_str());
        Ok(provider.charge_request(offer.amount_cents, &offer.currency, &description, &request.id))
    }

    /// Records the provider reference of a charge on its request and stores
    /// it again, with its index entry.
    fn record_external_id(&mut self, payment_request: &PaymentRequest, external_id: String, now: i64) -> (r: PaymentRequest)
        requires
            old(self).wf(),
        ensures
            final(self).wf(),
            final(self).config == old(self).config,
            final(self).lightning_provider == old(self).lightning_provider,
            final(self).coinbase_provider == old(self).coinbase_provider,
            r == with_external(*payment_request, external_id),
            final(self).storage@ == old(self).storage@.with_payment(r, now),
    {
        let mut updated = payment_request.duplicate();
        updated.external_id = Some(external_id);
        self.storage.store_payment_request(&updated, now);
        updated
    }

    /// Finishes a Lightning purchase once the invoice exists: the invoice's
    /// payment hash becomes the request's reference, and the invoice is what
    /// the buyer gets.
    pub fn create_lightning_payment(&mut self, payment_request: &PaymentRequest, invoice: &String, payment_hash: String, now: i64)
        -> (r: Result<(PaymentRequest, PaymentRequestDetails), PaymentError>)
        requires
            old(self).wf(),
        ensures
            final(self).wf(),
            final(self).config == old(self).config,
            final(self).lightning_provider == old(self).lightning_provider,
            final(self).coinbase_provider == old(self).coinbase_provider,
            match r {
                Ok((req, details)) => old(self).lightning_provider is Some
                    && req == with_external(*payment_request, payment_hash)
                    && details == (PaymentRequestDetails::Lightning { lightning_invoice: *invoice })
                    && final(self).storage@ == old(self).storage@.with_payment(req, now),
                Err(e) => old(self).lightning_provider is None
                    && e == PaymentError::InvalidPaymentMethod(PaymentMethod::Lightning)
                    && final(self).storage@ == old(self).storage@,
            },
    {
        let details = match &self.lightning_provider {
            Some(p) => p.generate_payment_details(invoice),
            None => {
                return Err(PaymentError::InvalidPaymentMethod(PaymentMethod::Lightning));
            },
        };
        let updated = self.record_external_id(payment_request, payment_hash, now);
        Ok((updated, details))
    }

    /// Finishes a checkout purchase once the charge exists: the charge id
    /// becomes the request's reference, and the buyer gets the checkout URL,
    /// the direct-payment address if there is one, and the chain and asset
    /// hints echoed back.
    pub fn create_coinbase_payment(
        &mut self,
        payment_request: &PaymentRequest,
        charge_id: String,
        checkout_url: &String,
        address: &Option<String>,
        chain: &Option<String>,
        asset: &Option<String>,
        now: i64,
    ) -> (r: Result<(PaymentRequest, PaymentRequestDetails), PaymentError>)
        requires
            old(self).wf(),
        ensures
            final(self).wf(),
            final(self).config == old(self).config,
            final(self).lightning_provider == old(self).lightning_provider,
            final(self).coinbase_provider == old(self).coinbase_provider,
            match r {
                Ok((req, details)) => old(self).coinbase_provider is Some
                    && req == with_external(*payment_request, charge_id)
                    && (details matches PaymentRequestDetails::Coinbase { checkout_url: u, address: a, chain: c, asset: s }
                        && u@ == checkout_url@
                        && (a is Some <==> address is Some) && (a matches Some(x) ==> x@ == address.unwrap()@)
                        && (c is Some <==> chain is Some) && (c matches Some(x) ==> x@ == chain.unwrap()@)
                        && (s is Some <==> asset is Some) && (s matches Some(x) ==> x@ == asset.unwrap()@))
                    && final(self).storage@ == old(self).storage@.with_payment(req, now),
                Err(e) => old(self).coinbase_provider is None
                    && e == PaymentError::InvalidPaymentMethod(PaymentMethod::Coinbase)
                    && final(self).storage@ == old(self).storage@,
            },
    {
        let details = match &self.coinbase_provider {
            Some(p) => p.generate_payment_details(
                checkout_url.as_str(),
                match address { Some(a) => Some(a.as_str()), None => None },
                match chain { Some(c) => Some(c.as_str()), None => None },
                match asset { Some(a) => Some(a.as_str()), None => None },
            ),
            None => {
                return Err(PaymentError::InvalidPaymentMethod(PaymentMethod::Coinbase));
            },
        };
        let updated = self.record_external_id(payment_request, charge_id, now);
        Ok((updated, details))
    }

    /// Settles a paid request: if it is still pending (both the given copy and
    /// the stored record), it is stored as paid and its credits go to its
    /// user. Otherwise nothing changes, so settling twice credits once.
    pub fn process_successful_payment(&mut self, payment_request: &mut PaymentRequest, now: i64) -> (r: Result<(), PaymentError>)
        requires
            old(self).wf(),
        ensures
            final(self).wf(),
            final(self).config == old(self).config,
            final(self).lightning_provider == old(self).lightning_provider,
            final(self).coinbase_provider == old(self).coinbase_provider,
            final(self).storage@ == settled(old(self).storage@, *old(payment_request), now),
            *final(payment_request) == if settles(old(self).storage@, *old(payment_request)) {
                paid(*old(payment_request))
            } else {
                *old(payment_request)
            },
            r is Err <==> (settles(old(self).storage@, *old(payment_request))
                && !old(self).storage@.users.contains_key(old(payment_request).user_id@)),
            r matches Err(e) ==> (e matches PaymentError::StorageError(se) && se is UserNotFound),
    {
        if payment_request.status != PaymentStatus::Pending {
            return Ok(());
        }
        match self.storage.get_payment_request(&payment_request.id) {
            Ok(stored) => {
                if stored.status != PaymentStatus::Pending {
                    return Ok(());
                }
            },
            Err(_) => {},
        }
        payment_request.status = PaymentStatus::Paid;
        self.storage.store_payment_request(payment_request, now);
        match self.storage.apply_delta(&payment_request.user_id, payment_request.credits as i64, now) {
            Ok(_) => Ok(()),
            Err(e) => Err(PaymentError::StorageError(e)),
        }
    }

    /// Looks up the request that a notification about `external_id` is for
    /// and settles it when `confirmed`; the rest of the reconciliation
    /// shared by both webhooks.
    fn settle_notified(&mut self, external_id: &String, confirmed: bool, now: i64) -> (r: Result<Option<String>, PaymentError>)
        requires
            old(self).wf(),
        ensures
            final(self).wf(),
            final(self).config == old(self).config,
            final(self).lightning_provider == old(self).lightning_provider,
            final(self).coinbase_provider == old(self).coinbase_provider,
            match notification_target(old(self).storage@, external_id@, now) {
                None => r == Ok::<Option<String>, PaymentError>(None) && final(self).storage@ == old(self).storage@,
                Some(req) => if !confirmed {
                    r == Ok::<Option<String>, PaymentError>(None) && final(self).storage@ == old(self).storage@
                } else {
                    final(self).storage@ == settled(old(self).storage@, req, now)
                        && (r is Err <==> settle_fails(old(self).storage@, req))
                        && (r matches Ok(x) ==> x == Some(req.user_id))
                        && (r matches Err(e) ==> (e matches PaymentError::StorageError(se) && se is UserNotFound))
                },
            },
    {
        let mut request = match self.storage.get_payment_request_by_external_id(external_id) {
            Ok(req) => req,
            Err(_) => {
                return Ok(None);
            },
        };
        if request.status == PaymentStatus::Paid {
            return Ok(None);
        }
        if now > request.expires_at {
            return Ok(None);
        }
        if !confirmed {
            return Ok(None);
        }
        let user_id = request.user_id.clone();
        match self.process_successful_payment(&mut request, now) {
            Ok(()) => Ok(Some(user_id)),
            Err(e) => Err(e),
        }
    }

    /// Whether a Lightning notification calls for a status check with the
    /// provider: the provider is configured and the notification is about a
    /// request that is known, unpaid and unexpired.
    pub fn needs_status_check(&self, event: &WebhookEvent, now: i64) -> (r: bool)
        requires
            self.wf(),
        ensures
            r == (self.lightning_provider is Some
                && notification_target(self.storage@, event.payment_hash@, now) is Some),
    {
        if self.lightning_provider.is_none() {
            return false;
        }
        match self.storage.get_payment_request_by_external_id(&event.payment_hash) {
            Ok(req) => req.status != PaymentStatus::Paid && !(now > req.expires_at),
            Err(_) => false,
        }
    }

    /// Reconciles a Lightning webhook. `parsed` is the event decoded from
    /// `body` (`None` when it did not decode); `status_check` is the
    /// provider's answer on whether the invoice is paid (`None` when the
    /// check failed, in which case the event's own flag is taken). Unknown,
    /// paid or expired requests are ignored with `Ok(None)`.
    pub fn process_lightning_webhook(
        &mut self,
        body: &[u8],
        signature: &str,
        parsed: Option<WebhookEvent>,
        status_check: Option<bool>,
        now: i64,
    ) -> (r: Result<Option<String>, PaymentError>)
        requires
            old(self).wf(),
        ensures
            final(self).wf(),
            final(self).config == old(self).config,
            final(self).lightning_provider == old(self).lightning_provider,
            final(self).coinbase_provider == old(self).coinbase_provider,
            old(self).lightning_provider is None ==> (r matches Err(e)
                && e == PaymentError::InvalidPaymentMethod(PaymentMethod::Lightning)
                && final(self).storage@ == old(self).storage@),
            old(self).lightning_provider is Some && parsed is None ==> (r matches Err(e)
                && (e matches PaymentError::LightningError(le) && le is SerializationError)
                && final(self).storage@ == old(self).storage@),
            old(self).lightning_provider is Some ==> (parsed matches Some(ev) ==>
                match notification_target(old(self).storage@, ev.payment_hash@, now) {
                    None => r == Ok::<Option<String>, PaymentError>(None) && final(self).storage@ == old(self).storage@,
                    Some(req) => if !(match status_check { Some(b) => b, None => ev.payment_status }) {
                        r == Ok::<Option<String>, PaymentError>(None) && final(self).storage@ == old(self).storage@
                    } else {
                        final(self).storage@ == settled(old(self).storage@, req, now)
                            && (r is Err <==> settle_fails(old(self).storage@, req))
                            && (r matches Ok(x) ==> x == Some(req.user_id))
                    },
                }),
    {
        let event = match &self.lightning_provider {
            Some(p) => match p.verify_webhook(body, signature, parsed) {
                Ok(ev) => ev,
                Err(e) => {
                    return Err(PaymentError::LightningError(e));
                },
            },
            None => {
                return Err(PaymentError::InvalidPaymentMethod(PaymentMethod::Lightning));
            },
        };
        let confirmed = match status_check {
            Some(b) => b,
            None => event.payment_status,
        };
        self.settle_notified(&event.payment_hash, confirmed, now)
    }

    /// Reconciles a checkout webhook: authenticates `body` by `signature`,
    /// then settles the charge's request if the event confirms the charge.
    /// `parsed` is the event decoded from `body` (`None` when it did not
    /// decode). Unknown, paid or expired requests are ignored with `Ok(None)`.
    pub fn process_coinbase_webhook(
        &mut self,
        body: &[u8],
        signature: &str,
        parsed: Option<CoinbaseWebhookEvent>,
        now: i64,
    ) -> (r: Result<Option<String>, PaymentError>)
        requires
            old(self).wf(),
        ensures
            final(self).wf(),
            final(self).config == old(self).config,
            final(self).lightning_provider == old(self).lightning_provider,
            final(self).coinbase_provider == old(self).coinbase_provider,
            match old(self).coinbase_provider {
                None => r matches Err(e) && e == PaymentError::InvalidPaymentMethod(PaymentMethod::Coinbase)
                    && final(self).storage@ == old(self).storage@,
                Some(p) => match p.webhook_secret {
                    None => r matches Err(e) && (e matches PaymentError::CoinbaseError(ce) && ce is ConfigError)
                        && final(self).storage@ == old(self).storage@,
                    Some(secret) => if !webhook_authentic(secret@, body@, signature@) {
                        r matches Err(e) && (e matches PaymentError::CoinbaseError(ce) && ce is InvalidWebhook)
                            && final(self).storage@ == old(self).storage@
                    } else {
                        match parsed {
                            None => r matches Err(e) && (e matches PaymentError::CoinbaseError(ce) && ce is SerializationError)
                                && final(self).storage@ == old(self).storage@,
                            Some(ev) => match notification_target(old(self).storage@, ev.data.id@, now) {
                                None => r == Ok::<Option<String>, PaymentError>(None) && final(self).storage@ == old(self).storage@,
                                Some(req) => if !event_settles(ev) {
                                    r == Ok::<Option<String>, PaymentError>(None) && final(self).storage@ == old(self).storage@
                                } else {
                                    final(self).storage@ == settled(old(self).storage@, req, now)
                                        && (r is Err <==> settle_fails(old(self).storage@, req))
                                        && (r matches Ok(x) ==> x == Some(req.user_id))
                                },
                            },
                        }
                    },
                },
            },
    {
        let (event, completed) = match &self.coinbase_provider {
            Some(p) => match p.verify_webhook(body, signature, parsed) {
                Ok(ev) => {
                    let c = p.is_payment_completed(&ev);
                    (ev, c)
                },
                Err(e) => {
                    return Err(PaymentError::CoinbaseError(e));
                },
            },
            None => {
                return Err(PaymentError::InvalidPaymentMethod(PaymentMethod::Coinbase));
            },
        };
        self.settle_notified(&event.data.id, completed, now)
    }

    /// Applies one status check of a poll loop for the invoice `payment_hash`.
    /// `paid` is the provider's answer, `None` when the check failed. A paid
    /// invoice settles its request and stops the loop; a transient failure
    /// to settle keeps it going, as do unpaid invoices and failed checks. An
    /// invoice that leads to no request stops the loop.
    pub fn process_poll_result(&mut self, payment_hash: &String, paid: Option<bool>, now: i64) -> (r: PollStep)
        requires
            old(self).wf(),
        ensures
            final(self).wf(),
            final(self).config == old(self).config,
            final(self).lightning_provider == old(self).lightning_provider,
            final(self).coinbase_provider == old(self).coinbase_provider,
            paid != Some(true) ==> r == PollStep::Continue && final(self).storage@ == old(self).storage@,
            paid == Some(true) ==> match old(self).storage@.by_external(payment_hash@) {
                None => r == PollStep::Stop && final(self).storage@ == old(self).storage@,
                Some(req) => final(self).storage@ == settled(old(self).storage@, req, now)
                    && (r == PollStep::Continue <==> settle_fails(old(self).storage@, req)),
            },
    {
        if paid != Some(true) {
            return PollStep::Continue;
        }
        match self.storage.get_payment_request_by_external_id(payment_hash) {
            Ok(mut req) => match self.process_successful_payment(&mut req, now) {
                Ok(()) => PollStep::Stop,
                Err(_) => PollStep::Continue,
            },
            Err(_) => PollStep::Stop,
        }
    }
}

/// Right after a purchase is created and its charge recorded, looking up the
/// charge's reference finds a pending request for the offer bought, with the
/// offer's credits.
pub proof fn law_created_charge_found(
    s: StoreModel,
    input: PaymentRequestInput,
    offer: Offer,
    id: String,
    external_id: String,
    t0: i64,
    t1: i64,
)
    requires
        input.offer_id@ == offer.id@,
    ensures
        ({
            let created = new_request(input, offer.credits, id, t0);
            let charged = with_external(created, external_id);
            let s2 = s.with_payment(created, t0).with_payment(charged, t1);
            &&& s2.by_external(external_id@) == Some(charged)
            &&& charged.status == PaymentStatus::Pending
            &&& charged.offer_id@ == offer.id@
            &&& charged.credits == offer.credits
        }),
{
}

/// Settling a pending request twice, with the same copy or with the updated
/// one, grants its credits once.
pub proof fn law_settle_once(s: StoreModel, r: PaymentRequest, t1: i64, t2: i64)
    requires
        s.payments.contains_key(r.id@),
        s.payments[r.id@] == r,
        r.status == PaymentStatus::Pending,
        s.users.contains_key(r.user_id@),
        s.users[r.user_id@].credits + r.credits <= u32::MAX,
    ensures
        settled(settled(s, r, t1), r, t2) == settled(s, r, t1),
        settled(settled(s, r, t1), paid(r), t2) == settled(s, r, t1),
        settled(s, r, t1).users[r.user_id@].credits == s.users[r.user_id@].credits + r.credits,
        settled(s, r, t1).payments[r.id@].status == PaymentStatus::Paid,
{
    let s1 = settled(s, r, t1);
    assert(s1.payments[r.id@] == paid(r));
}

/// A notification whose reference leads to no request settles nothing, so
/// both webhooks answer it with `Ok(None)` and leave the store as it was.
pub proof fn law_unknown_reference_ignored(s: StoreModel, external_id: Seq<char>, now: i64)
    requires
        s.by_external(external_id) is None,
    ensures
        notification_target(s, external_id, now) is None,
{
}

/// A notification that arrives after its request expired settles nothing,
/// so both webhooks answer it with `Ok(None)` and leave the store as it was.
pub proof fn law_late_notification_ignored(s: StoreModel, external_id: Seq<char>, now: i64)
    requires
        s.by_external(external_id) matches Some(r) && now > r.expires_at,
    ensures
        notification_target(s, external_id, now) is None,
{
}

} // verus!

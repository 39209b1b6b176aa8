use l402_paywall::config::{Config, Offer};
use l402_paywall::lightning::WebhookEvent;
use l402_paywall::models::{PaymentMethod, PaymentRequestDetails, PaymentRequestInput, PaymentStatus, User};
use l402_paywall::service::{poll_timed_out, PaymentError, PaymentService, PollStep};
use l402_paywall::storage::{payment_ttl, PaymentStore, StorageError};

fn offer(id: &str, title: &str, credits: u32, amount_cents: u64) -> Offer {
    Offer {
        id: id.to_string(),
        title: title.to_string(),
        description: format!("Purchase {} credits for API access", credits),
        credits,
        amount_cents,
        currency: "USD".to_string(),
    }
}

fn config(lightning: bool, coinbase: bool) -> Config {
    Config {
        host: "127.0.0.1".to_string(),
        port: 8080,
        redis_url: "redis://localhost:6379".to_string(),
        payment_request_url: None,
        lightning_enabled: lightning,
        lnbits_url: Some("https://lnbits.example".to_string()),
        lnbits_admin_key: Some("admin".to_string()),
        lnbits_invoice_read_key: Some("read".to_string()),
        lnbits_webhook_url: None,
        coinbase_enabled: coinbase,
        coinbase_api_key: Some("api-key".to_string()),
        coinbase_webhook_secret: Some("Jefe".to_string()),
        offers: vec![offer("offer1", "1 Credit Package", 1, 1), offer("offer2", "5 Credits Package", 5, 5)],
    }
}

const NOW: i64 = 1_700_000_000;

fn service_with_user(credits: u32) -> (PaymentService, String) {
    let mut store = PaymentStore::new();
    let user = User::with_id("user-1".to_string(), credits, NOW);
    store.create_user(&user);
    (PaymentService::new(config(true, true), store), "user-1".to_string())
}

fn input(offer_id: &str, method: PaymentMethod, user: &str) -> PaymentRequestInput {
    PaymentRequestInput {
        offer_id: offer_id.to_string(),
        payment_method: method,
        payment_context_token: user.to_string(),
        chain: Some("base".to_string()),
        asset: None,
    }
}

fn paid_event(hash: &str) -> WebhookEvent {
    WebhookEvent { payment_hash: hash.to_string(), payment_status: true }
}

fn credits_of(service: &PaymentService, user: &str) -> u32 {
    service.storage.get_user(&user.to_string()).unwrap().credits
}

#[test]
fn charge_is_found_by_reference_for_both_methods() {
    for method in [PaymentMethod::Lightning, PaymentMethod::Coinbase] {
        for (offer_id, credits) in [("offer1", 1u32), ("offer2", 5u32)] {
            let (mut service, user) = service_with_user(0);
            let request = service.process_payment_request(&input(offer_id, method, &user), NOW).unwrap();
            let (recorded, _) = match method {
                PaymentMethod::Lightning => service
                    .create_lightning_payment(&request, &"lnbc1invoice".to_string(), "hash-1".to_string(), NOW)
                    .unwrap(),
                PaymentMethod::Coinbase => service
                    .create_coinbase_payment(&request, "hash-1".to_string(), &"https://pay".to_string(), &None, &None, &None, NOW)
                    .unwrap(),
            };
            let found = service.storage.get_payment_request_by_external_id(&"hash-1".to_string()).unwrap();
            assert_eq!(found.status, PaymentStatus::Pending);
            assert_eq!(found.offer_id, offer_id);
            assert_eq!(found.credits, credits);
            assert_eq!(found.id, recorded.id);
            assert_eq!(found.method, method);
            assert_eq!(found.expires_at, NOW + 1800);
        }
    }
}

#[test]
fn unknown_offer_is_rejected() {
    let (mut service, user) = service_with_user(0);
    let r = service.process_payment_request(&input("offer9", PaymentMethod::Lightning, &user), NOW);
    assert!(matches!(r, Err(PaymentError::InvalidOffer(ref id)) if id == "offer9"));
}

#[test]
fn unconfigured_method_is_rejected() {
    let mut service = PaymentService::new(config(false, true), PaymentStore::new());
    let r = service.process_payment_request(&input("offer1", PaymentMethod::Lightning, "u"), NOW);
    assert!(matches!(r, Err(PaymentError::InvalidPaymentMethod(PaymentMethod::Lightning))));
    let r = service.create_lightning_payment(
        &l402_paywall::models::PaymentRequest::new("u".to_string(), "offer1".to_string(), 1, PaymentMethod::Lightning, NOW),
        &"inv".to_string(),
        "h".to_string(),
        NOW,
    );
    assert!(matches!(r, Err(PaymentError::InvalidPaymentMethod(PaymentMethod::Lightning))));
}

#[test]
fn settling_twice_credits_once() {
    let (mut service, user) = service_with_user(3);
    let request = service.process_payment_request(&input("offer2", PaymentMethod::Lightning, &user), NOW).unwrap();
    let (recorded, _) = service
        .create_lightning_payment(&request, &"lnbc".to_string(), "hash-2".to_string(), NOW)
        .unwrap();
    let mut webhook_copy = recorded.duplicate();
    let mut poll_copy = recorded.duplicate();
    service.process_successful_payment(&mut webhook_copy, NOW + 1).unwrap();
    service.process_successful_payment(&mut poll_copy, NOW + 2).unwrap();
    assert_eq!(credits_of(&service, &user), 8);
    assert_eq!(webhook_copy.status, PaymentStatus::Paid);
    assert_eq!(poll_copy.status, PaymentStatus::Pending);
    let stored = service.storage.get_payment_request(&recorded.id).unwrap();
    assert_eq!(stored.status, PaymentStatus::Paid);
}

#[test]
fn settling_for_a_missing_user_fails_after_marking_paid() {
    let mut service = PaymentService::new(config(true, false), PaymentStore::new());
    let request = service.process_payment_request(&input("offer1", PaymentMethod::Lightning, "ghost"), NOW).unwrap();
    let mut copy = request.duplicate();
    let r = service.process_successful_payment(&mut copy, NOW);
    assert!(matches!(r, Err(PaymentError::StorageError(StorageError::UserNotFound))));
    assert_eq!(service.storage.get_payment_request(&request.id).unwrap().status, PaymentStatus::Paid);
}

#[test]
fn webhook_for_unknown_reference_is_ignored() {
    let (mut service, user) = service_with_user(2);
    let r = service.process_lightning_webhook(b"{}", "", Some(paid_event("nobody")), Some(true), NOW);
    assert!(matches!(r, Ok(None)));
    assert_eq!(credits_of(&service, &user), 2);
    assert!(!service.needs_status_check(&paid_event("nobody"), NOW));
}

#[test]
fn late_webhook_is_ignored() {
    let (mut service, user) = service_with_user(2);
    let request = service.process_payment_request(&input("offer1", PaymentMethod::Lightning, &user), NOW).unwrap();
    service.create_lightning_payment(&request, &"lnbc".to_string(), "hash-3".to_string(), NOW).unwrap();
    let late = NOW + 1801;
    assert!(!service.needs_status_check(&paid_event("hash-3"), late));
    let r = service.process_lightning_webhook(b"{}", "", Some(paid_event("hash-3")), Some(true), late);
    assert!(matches!(r, Ok(None)));
    assert_eq!(credits_of(&service, &user), 2);
    let at_deadline = NOW + 1800;
    assert!(service.needs_status_check(&paid_event("hash-3"), at_deadline));
}

#[test]
fn webhook_needs_confirmation() {
    let (mut service, user) = service_with_user(0);
    let request = service.process_payment_request(&input("offer1", PaymentMethod::Lightning, &user), NOW).unwrap();
    service.create_lightning_payment(&request, &"lnbc".to_string(), "hash-4".to_string(), NOW).unwrap();
    let r = service.process_lightning_webhook(b"{}", "", Some(paid_event("hash-4")), Some(false), NOW);
    assert!(matches!(r, Ok(None)));
    assert_eq!(credits_of(&service, &user), 0);
    let unpaid = WebhookEvent { payment_hash: "hash-4".to_string(), payment_status: false };
    let r = service.process_lightning_webhook(b"{}", "", Some(unpaid), None, NOW);
    assert!(matches!(r, Ok(None)));
    assert_eq!(credits_of(&service, &user), 0);
    let r = service.process_lightning_webhook(b"{}", "", Some(paid_event("hash-4")), None, NOW);
    assert_eq!(r.unwrap(), Some(user.clone()));
    assert_eq!(credits_of(&service, &user), 1);
}

#[test]
fn undecodable_lightning_webhook_is_an_error() {
    let (mut service, _) = service_with_user(0);
    let r = service.process_lightning_webhook(b"not json", "", None, None, NOW);
    assert!(matches!(r, Err(PaymentError::LightningError(l402_paywall::lightning::LightningError::SerializationError(_)))));
    let mut bare = PaymentService::new(config(false, false), PaymentStore::new());
    let r = bare.process_lightning_webhook(b"{}", "", Some(paid_event("h")), None, NOW);
    assert!(matches!(r, Err(PaymentError::InvalidPaymentMethod(PaymentMethod::Lightning))));
}

#[test]
fn debit_below_zero_clamps() {
    let mut store = PaymentStore::new();
    store.create_user(&User::with_id("u".to_string(), 3, NOW));
    let updated = store.update_user_credits(&"u".to_string(), -5, NOW + 10).unwrap();
    assert_eq!(updated.credits, 0);
    assert_eq!(updated.last_credit_update_at, NOW + 10);
    assert_eq!(store.get_user(&"u".to_string()).unwrap().credits, 0);
    let updated = store.update_user_credits(&"u".to_string(), 4, NOW + 11).unwrap();
    assert_eq!(updated.credits, 4);
    let updated = store.update_user_credits(&"u".to_string(), -4, NOW + 12).unwrap();
    assert_eq!(updated.credits, 0);
    assert!(matches!(store.update_user_credits(&"v".to_string(), 1, NOW), Err(StorageError::UserNotFound)));
}

#[test]
fn credits_saturate_at_the_top() {
    let mut store = PaymentStore::new();
    store.create_user(&User::with_id("u".to_string(), u32::MAX - 1, NOW));
    assert_eq!(store.update_user_credits(&"u".to_string(), 5, NOW).unwrap().credits, u32::MAX);
}

#[test]
fn missing_records_are_reported() {
    let store = PaymentStore::new();
    assert!(matches!(store.get_user(&"x".to_string()), Err(StorageError::UserNotFound)));
    assert!(matches!(store.get_payment_request(&"x".to_string()), Err(StorageError::PaymentRequestNotFound)));
    assert!(matches!(store.get_payment_request_by_external_id(&"x".to_string()), Err(StorageError::PaymentRequestNotFound)));
}

#[test]
fn status_update_keeps_the_rest() {
    let mut store = PaymentStore::new();
    let mut request = l402_paywall::models::PaymentRequest::new("u".to_string(), "offer1".to_string(), 1, PaymentMethod::Coinbase, NOW);
    request.external_id = Some("charge".to_string());
    store.store_payment_request(&request, NOW - 10);
    let updated = store.update_payment_request_status(&request.id, PaymentStatus::Expired).unwrap();
    assert_eq!(updated.status, PaymentStatus::Expired);
    assert_eq!(updated.offer_id, "offer1");
    let by_ref = store.get_payment_request_by_external_id(&"charge".to_string()).unwrap();
    assert_eq!(by_ref.status, PaymentStatus::Expired);
    assert!(matches!(store.update_payment_request_status(&"nope".to_string(), PaymentStatus::Paid), Err(StorageError::PaymentRequestNotFound)));
}

#[test]
fn payment_ttl_values() {
    assert_eq!(payment_ttl(NOW + 1800, NOW), 1800);
    assert_eq!(payment_ttl(NOW + 1, NOW), 1);
    assert_eq!(payment_ttl(NOW, NOW), 60);
    assert_eq!(payment_ttl(NOW - 500, NOW), 60);
    assert_eq!(payment_ttl(i64::MAX, i64::MIN), u64::MAX);
}

#[test]
fn poll_steps() {
    let (mut service, user) = service_with_user(0);
    let request = service.process_payment_request(&input("offer2", PaymentMethod::Lightning, &user), NOW).unwrap();
    service.create_lightning_payment(&request, &"lnbc".to_string(), "hash-5".to_string(), NOW).unwrap();
    let hash = "hash-5".to_string();
    assert_eq!(service.process_poll_result(&hash, Some(false), NOW), PollStep::Continue);
    assert_eq!(service.process_poll_result(&hash, None, NOW), PollStep::Continue);
    assert_eq!(credits_of(&service, &user), 0);
    assert_eq!(service.process_poll_result(&hash, Some(true), NOW), PollStep::Stop);
    assert_eq!(credits_of(&service, &user), 5);
    assert_eq!(service.process_poll_result(&hash, Some(true), NOW), PollStep::Stop);
    assert_eq!(credits_of(&service, &user), 5);
    assert_eq!(service.process_poll_result(&"other".to_string(), Some(true), NOW), PollStep::Stop);
}

#[test]
fn poll_timeout() {
    assert!(!poll_timed_out(NOW, NOW + 1800, None));
    assert!(poll_timed_out(NOW, NOW + 1801, None));
    assert!(!poll_timed_out(NOW, NOW + 60, Some(1)));
    assert!(poll_timed_out(NOW, NOW + 61, Some(1)));
    assert!(!poll_timed_out(NOW, NOW + 10_000, Some(u64::MAX)));
}

#[test]
fn end_to_end_lightning_purchase() {
    let mut service = PaymentService::new(config(true, false), PaymentStore::new());
    let user = User::new(1);
    service.storage.create_user(&user);
    assert_eq!(credits_of(&service, &user.id), 1);
    let request = service.process_payment_request(&input("offer1", PaymentMethod::Lightning, &user.id), NOW).unwrap();
    let invoice_params = service.lightning_invoice_request(&request, 25).unwrap();
    assert_eq!(invoice_params.memo.as_deref(), Some("Purchase 1 credits"));
    let (_, details) = service
        .create_lightning_payment(&request, &"lnbc10n1invoice".to_string(), "e2e-hash".to_string(), NOW + 1)
        .unwrap();
    match details {
        PaymentRequestDetails::Lightning { lightning_invoice } => assert_eq!(lightning_invoice, "lnbc10n1invoice"),
        _ => panic!("expected a Lightning invoice"),
    }
    assert_eq!(service.process_poll_result(&"e2e-hash".to_string(), Some(true), NOW + 5), PollStep::Stop);
    assert_eq!(credits_of(&service, &user.id), 2);
    let stored = service.storage.get_payment_request_by_external_id(&"e2e-hash".to_string()).unwrap();
    assert_eq!(stored.status, PaymentStatus::Paid);
    let r = service.process_lightning_webhook(b"{}", "", Some(paid_event("e2e-hash")), Some(true), NOW + 6);
    assert!(matches!(r, Ok(None)));
    assert_eq!(credits_of(&service, &user.id), 2);
}

#[test]
fn new_records_get_fresh_ids() {
    let a = User::new(1);
    let b = User::new(1);
    assert_eq!(a.id.len(), 36);
    assert_ne!(a.id, b.id);
    assert_eq!(a.created_at, a.last_credit_update_at);
    assert!(a.created_at > 1_600_000_000);
    let r = l402_paywall::models::PaymentRequest::new("u".to_string(), "o".to_string(), 2, PaymentMethod::Coinbase, 5);
    assert_eq!(r.id.len(), 36);
    assert_eq!(r.status, PaymentStatus::Pending);
    assert!(r.external_id.is_none());
}

#[test]
fn providers_follow_configuration() {
    let s = PaymentService::new(config(true, true), PaymentStore::new());
    assert!(s.lightning_provider.is_some() && s.coinbase_provider.is_some());
    let s = PaymentService::new(config(false, false), PaymentStore::new());
    assert!(s.lightning_provider.is_none() && s.coinbase_provider.is_none());
    let mut c = config(true, true);
    c.coinbase_api_key = None;
    c.lnbits_admin_key = None;
    let s = PaymentService::new(c, PaymentStore::new());
    assert!(s.coinbase_provider.is_none());
    assert!(s.lightning_provider.as_ref().unwrap().lnbits.is_none());
    let r = s.lightning_invoice_request(
        &l402_paywall::models::PaymentRequest::new("u".to_string(), "offer1".to_string(), 1, PaymentMethod::Lightning, NOW),
        10,
    );
    assert!(matches!(r, Err(PaymentError::LightningError(l402_paywall::lightning::LightningError::ConfigError(_)))));
}

#[test]
fn payment_request_url() {
    let mut c = config(true, true);
    assert_eq!(c.get_payment_request_url(), "http://127.0.0.1:8080/l402/payment-request");
    c.payment_request_url = Some("https://pay.example/l402".to_string());
    assert_eq!(c.get_payment_request_url(), "https://pay.example/l402");
    assert_eq!(c.find_offer(&"offer2".to_string()), Some(1));
    assert_eq!(c.find_offer(&"offer3".to_string()), None);
}

#[test]
fn expired_records_are_evicted_with_their_index_entries() {
    let mut store = PaymentStore::new();
    store.create_user(&User::with_id("u".to_string(), 1, NOW));
    let mut short = l402_paywall::models::PaymentRequest::new("u".to_string(), "offer1".to_string(), 1, PaymentMethod::Lightning, NOW + 10);
    short.external_id = Some("short-hash".to_string());
    store.store_payment_request(&short, NOW);
    let mut long = l402_paywall::models::PaymentRequest::new("u".to_string(), "offer2".to_string(), 5, PaymentMethod::Lightning, NOW + 1800);
    long.external_id = Some("long-hash".to_string());
    store.store_payment_request(&long, NOW);
    let mut late = l402_paywall::models::PaymentRequest::new("u".to_string(), "offer1".to_string(), 1, PaymentMethod::Coinbase, NOW - 5);
    late.external_id = Some("late-charge".to_string());
    store.store_payment_request(&late, NOW);

    store.evict_expired(NOW + 10);
    assert!(store.get_payment_request(&short.id).is_ok());
    store.evict_expired(NOW + 11);
    assert!(matches!(store.get_payment_request(&short.id), Err(StorageError::PaymentRequestNotFound)));
    assert!(matches!(store.get_payment_request_by_external_id(&"short-hash".to_string()), Err(StorageError::PaymentRequestNotFound)));
    assert!(store.get_payment_request_by_external_id(&"late-charge".to_string()).is_ok());
    store.evict_expired(NOW + 61);
    assert!(matches!(store.get_payment_request_by_external_id(&"late-charge".to_string()), Err(StorageError::PaymentRequestNotFound)));
    assert_eq!(store.get_payment_request_by_external_id(&"long-hash".to_string()).unwrap().id, long.id);
    assert_eq!(store.get_user(&"u".to_string()).unwrap().credits, 1);
}

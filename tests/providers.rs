use l402_paywall::auth::{require_auth, AuthError};
use l402_paywall::coinbase::{constant_time_eq, signature_matches, CoinbaseError, CoinbaseProvider, CoinbaseWebhookEvent, WebhookData};
use l402_paywall::config::{Config, Offer};
use l402_paywall::lightning::{LightningError, LightningProvider};
use l402_paywall::market::is_valid_ticker;
use l402_paywall::models::{PaymentMethod, PaymentRequestDetails, PaymentRequestInput, User, UserId};
use l402_paywall::service::{PaymentError, PaymentService};
use l402_paywall::storage::PaymentStore;
use l402_paywall::text::format_amount;

const BODY: &[u8] = b"what do ya want for nothing?";
const TAG: &str = "5bdcc146bf60754e6a042426089575c75a003f089d2739839dec58b964ec3843";
const NOW: i64 = 1_700_000_000;

fn config() -> Config {
    Config {
        host: "0.0.0.0".to_string(),
        port: 3000,
        redis_url: String::new(),
        payment_request_url: None,
        lightning_enabled: true,
        lnbits_url: Some("https://lnbits.example".to_string()),
        lnbits_admin_key: Some("admin".to_string()),
        lnbits_invoice_read_key: Some("read".to_string()),
        lnbits_webhook_url: None,
        coinbase_enabled: true,
        coinbase_api_key: Some("key".to_string()),
        coinbase_webhook_secret: Some("Jefe".to_string()),
        offers: vec![Offer {
            id: "offer2".to_string(),
            title: "5 Credits Package".to_string(),
            description: String::new(),
            credits: 5,
            amount_cents: 5,
            currency: "USD".to_string(),
        }],
    }
}

fn event(kind: &str, id: &str, status: &str) -> CoinbaseWebhookEvent {
    CoinbaseWebhookEvent {
        event_type: kind.to_string(),
        data: WebhookData { id: id.to_string(), status: status.to_string() },
    }
}

#[test]
fn constant_time_eq_cases() {
    assert!(constant_time_eq(b"", b""));
    assert!(constant_time_eq(b"abc", b"abc"));
    assert!(!constant_time_eq(b"abc", b"abd"));
    assert!(!constant_time_eq(b"abc", b"ab"));
    assert!(!constant_time_eq(&[0x80], &[0x00]));
}

#[test]
fn signature_is_hex_of_digest() {
    assert!(signature_matches(&[0x00, 0xab, 0x10], "00ab10"));
    assert!(!signature_matches(&[0x00, 0xab, 0x10], "00AB10"));
    assert!(!signature_matches(&[0x00, 0xab, 0x10], "\u{0}\u{ab}\u{10}"));
    assert!(signature_matches(&[], ""));
}

#[test]
fn webhook_signature_checked_with_hmac_sha256() {
    let provider = CoinbaseProvider::new(&config()).unwrap();
    let ok = provider.verify_webhook(BODY, TAG, Some(event("charge:confirmed", "c1", "CONFIRMED")));
    assert_eq!(ok.unwrap().data.id, "c1");
    let bad = provider.verify_webhook(BODY, &TAG.replace('5', "6"), Some(event("charge:confirmed", "c1", "CONFIRMED")));
    assert!(matches!(bad, Err(CoinbaseError::InvalidWebhook(_))));
    let empty = provider.verify_webhook(BODY, "", Some(event("charge:confirmed", "c1", "CONFIRMED")));
    assert!(matches!(empty, Err(CoinbaseError::InvalidWebhook(_))));
    let undecoded = provider.verify_webhook(BODY, TAG, None);
    assert!(matches!(undecoded, Err(CoinbaseError::SerializationError(_))));
    let no_secret = CoinbaseProvider { api_key: "k".to_string(), webhook_secret: None };
    assert!(matches!(no_secret.verify_webhook(BODY, TAG, None), Err(CoinbaseError::ConfigError(_))));
}

#[test]
fn settlement_predicate() {
    let provider = CoinbaseProvider::new(&config()).unwrap();
    assert!(provider.is_payment_completed(&event("charge:confirmed", "c", "CONFIRMED")));
    assert!(!provider.is_payment_completed(&event("charge:pending", "c", "CONFIRMED")));
    assert!(!provider.is_payment_completed(&event("charge:confirmed", "c", "PENDING")));
    assert_eq!(provider.get_charge_id(&event("x", "charge-9", "y")), "charge-9");
}

#[test]
fn provider_configuration_errors() {
    let mut c = config();
    c.coinbase_enabled = false;
    assert!(matches!(CoinbaseProvider::new(&c), Err(CoinbaseError::ConfigError(_))));
    let mut c = config();
    c.coinbase_api_key = None;
    assert!(matches!(CoinbaseProvider::new(&c), Err(CoinbaseError::ConfigError(_))));
    let mut c = config();
    c.lightning_enabled = false;
    assert!(matches!(LightningProvider::new(&c), Err(LightningError::ConfigError(_))));
}

#[test]
fn checkout_webhook_settles_confirmed_charge() {
    let mut store = PaymentStore::new();
    store.create_user(&User::with_id("buyer".to_string(), 0, NOW));
    let mut service = PaymentService::new(config(), store);
    let input = PaymentRequestInput {
        offer_id: "offer2".to_string(),
        payment_method: PaymentMethod::Coinbase,
        payment_context_token: "buyer".to_string(),
        chain: Some("base".to_string()),
        asset: Some("USDC".to_string()),
    };
    let request = service.process_payment_request(&input, NOW).unwrap();
    let charge = service.coinbase_charge_request(&request).unwrap();
    assert_eq!(charge.amount, "0.05");
    assert_eq!(charge.description, "Purchase 5 credits for API access - 5 Credits Package");
    assert_eq!(charge.reference, request.id);
    assert_eq!(charge.name, "API Credits");
    assert_eq!(charge.pricing_type, "fixed_price");
    let (_, details) = service
        .create_coinbase_payment(&request, "c1".to_string(), &"https://commerce/pay/c1".to_string(), &Some("0xabc".to_string()), &input.chain, &input.asset, NOW)
        .unwrap();
    match details {
        PaymentRequestDetails::Coinbase { checkout_url, address, chain, asset } => {
            assert_eq!(checkout_url, "https://commerce/pay/c1");
            assert_eq!(address.as_deref(), Some("0xabc"));
            assert_eq!(chain.as_deref(), Some("base"));
            assert_eq!(asset.as_deref(), Some("USDC"));
        }
        _ => panic!("expected checkout details"),
    }
    let pending = service.process_coinbase_webhook(BODY, TAG, Some(event("charge:pending", "c1", "NEW")), NOW);
    assert!(matches!(pending, Ok(None)));
    assert_eq!(service.storage.get_user(&"buyer".to_string()).unwrap().credits, 0);
    let forged = service.process_coinbase_webhook(BODY, "00", Some(event("charge:confirmed", "c1", "CONFIRMED")), NOW);
    assert!(matches!(forged, Err(PaymentError::CoinbaseError(CoinbaseError::InvalidWebhook(_)))));
    let done = service.process_coinbase_webhook(BODY, TAG, Some(event("charge:confirmed", "c1", "CONFIRMED")), NOW);
    assert_eq!(done.unwrap(), Some("buyer".to_string()));
    assert_eq!(service.storage.get_user(&"buyer".to_string()).unwrap().credits, 5);
    let again = service.process_coinbase_webhook(BODY, TAG, Some(event("charge:confirmed", "c1", "CONFIRMED")), NOW);
    assert!(matches!(again, Ok(None)));
    assert_eq!(service.storage.get_user(&"buyer".to_string()).unwrap().credits, 5);
    let unknown = service.process_coinbase_webhook(BODY, TAG, Some(event("charge:confirmed", "zz", "CONFIRMED")), NOW);
    assert!(matches!(unknown, Ok(None)));
}

#[test]
fn invoice_parameters() {
    let provider = LightningProvider::new(&config()).unwrap();
    let q = provider.invoice_request(1234, &"Purchase 1 credits".to_string()).unwrap();
    assert_eq!(q.amount, 1234);
    assert_eq!(q.unit, "sat");
    assert_eq!(q.expiry, Some(1800));
    assert_eq!(q.memo.as_deref(), Some("Purchase 1 credits"));
    assert!(!q.internal && !q.out && q.webhook.is_none());
    match provider.generate_payment_details(&"lnbc1".to_string()) {
        PaymentRequestDetails::Lightning { lightning_invoice } => assert_eq!(lightning_invoice, "lnbc1"),
        _ => panic!("expected Lightning details"),
    }
    assert!(matches!(provider.verify_webhook(b"x", "", None), Err(LightningError::SerializationError(_))));
}

#[test]
fn amounts_have_two_decimals() {
    assert_eq!(format_amount(0), "0.00");
    assert_eq!(format_amount(1), "0.01");
    assert_eq!(format_amount(5), "0.05");
    assert_eq!(format_amount(110), "1.10");
    assert_eq!(format_amount(123456), "1234.56");
}

#[test]
fn ticker_shapes() {
    assert!(is_valid_ticker("AAPL"));
    assert!(is_valid_ticker("BRK.A"));
    assert!(is_valid_ticker("ÄB"));
    assert!(!is_valid_ticker(""));
    assert!(!is_valid_ticker("ABCDEFGHIJK"));
    assert!(!is_valid_ticker("AB-C"));
    assert!(!is_valid_ticker("ÄÄÄÄÄÄ"));
}

#[test]
fn bearer_tokens() {
    assert_eq!(UserId::from_authorization("Bearer abc").unwrap().0, "abc");
    assert_eq!(UserId::from_authorization("Bearer   abc  ").unwrap().0, "abc");
    assert!(matches!(UserId::from_authorization("Bearer    "), Err(AuthError::InvalidTokenFormat)));
    assert!(matches!(UserId::from_authorization("Basic abc"), Err(AuthError::InvalidTokenFormat)));
    assert!(matches!(UserId::from_authorization("bearer abc"), Err(AuthError::InvalidTokenFormat)));
}

#[test]
fn request_authentication() {
    let mut store = PaymentStore::new();
    store.create_user(&User::with_id("tok".to_string(), 1, NOW));
    assert_eq!(require_auth(&store, Some("Bearer tok")).unwrap().0, "tok");
    assert!(matches!(require_auth(&store, None), Err(AuthError::MissingToken)));
    assert!(matches!(require_auth(&store, Some("Bearer ")), Err(AuthError::InvalidTokenFormat)));
    assert!(matches!(require_auth(&store, Some("Token tok")), Err(AuthError::InvalidTokenFormat)));
    assert!(matches!(require_auth(&store, Some("Bearer other")), Err(AuthError::UserNotFound)));
}

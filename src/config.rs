//! Service configuration and the offer catalog.

use vstd::prelude::*;
use crate::text::{decimal, decimal_digits};

verus! {

/// A catalog entry: `credits` for `amount_cents` in `currency`.
#[derive(Debug)]
pub struct Offer {
    pub id: String,
    pub title: String,
    pub description: String,
    pub credits: u32,
    /// The price in hundredths of the currency unit.
    pub amount_cents: u64,
    pub currency: String,
}

/// The service configuration.
#[derive(Debug)]
pub struct Config {
    pub host: String,
    pub port: u16,
    pub redis_url: String,
    pub payment_request_url: Option<String>,
    pub lightning_enabled: bool,
    pub lnbits_url: Option<String>,
    pub lnbits_admin_key: Option<String>,
    pub lnbits_invoice_read_key: Option<String>,
    pub lnbits_webhook_url: Option<String>,
    pub coinbase_enabled: bool,
    pub coinbase_api_key: Option<String>,
    pub coinbase_webhook_secret: Option<String>,
    pub offers: Vec<Offer>,
}

/// The default payment endpoint for a host and port.
pub open spec fn default_payment_request_url(host: Seq<char>, port: u16) -> Seq<char> {
    "http://"@ + host + ":"@ + decimal_digits(port as nat) + "/l402/payment-request"@
}

/// The index of the first offer with id `id` in `offers`, if any.
pub open spec fn offer_position(offers: Seq<Offer>, id: Seq<char>) -> Option<int> {
    if exists|i: int| 0 <= i < offers.len() && offers[i].id@ == id {
        let i = choose|i: int| 0 <= i < offers.len() && offers[i].id@ == id
            && forall|j: int| 0 <= j < i ==> offers[j].id@ != id;
        Some(i)
    } else {
        None
    }
}

impl Config {
    /// The configured payment endpoint, or one built from host and port.
    pub fn get_payment_request_url(&self) -> (r: String)
        ensures
            r@ == match self.payment_request_url {
                Some(u) => u@,
                None => default_payment_request_url(self.host@, self.port),
            },
    {
        match &self.payment_request_url {
            Some(u) => u.clone(),
            None => {
                let mut s = String::from_str("http://");
                s.append(self.host.as_str());
                s.append(":");
                let p = decimal(self.port as u64);
                s.append(p.as_str());
                s.append("/l402/payment-request");
                s
            },
        }
    }

    /// The position of the offer with id `offer_id` in the catalog.
    pub fn find_offer(&self, offer_id: &String) -> (r: Option<usize>)
        ensures
            match r {
                Some(i) => offer_position(self.offers@, offer_id@) == Some(i as int)
                    && i < self.offers.len() && self.offers@[i as int].id@ == offer_id@,
                None => offer_position(self.offers@, offer_id@).is_none(),
            },
    {
        let mut i: usize = 0;
        while i < self.offers.len()
            invariant
                i <= self.offers.len(),
                forall|j: int| 0 <= j < i ==> self.offers@[j].id@ != offer_id@,
            decreases self.offers.len() - i,
        {
            if self.offers[i].id == *offer_id {
                let ghost offers = self.offers@;
                proof {
                    let k = choose|k: int| 0 <= k < offers.len() && offers[k].id@ == offer_id@
                        && forall|j: int| 0 <= j < k ==> offers[j].id@ != offer_id@;
                    assert(k == i) by {
                        if k < i {
                        } else if k > i {
                            assert(offers[i as int].id@ == offer_id@);
                        }
                    }
                }
                return Some(i);
            }
            i = i + 1;
        }
        None
    }
}

} // verus!

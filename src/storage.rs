//! The payment store: users, payment requests, and the index from provider
//! references to payment requests.

use vstd::prelude::*;
use crate::models::{PaymentRequest, PaymentStatus, User};
use crate::table::Table;

verus! {

/// Why a store operation failed.
#[derive(Debug)]
pub enum StorageError {
    UserNotFound,
    PaymentRequestNotFound,
}

/// Seconds that a payment record outlives a request that has already expired.
pub const EXPIRED_RECORD_TTL: u64 = 60;

/// Seconds that a payment record is kept when stored at `now`: the time left
/// until it expires, or a short grace period once it has expired.
pub open spec fn payment_ttl_spec(expires_at: i64, now: i64) -> int {
    if expires_at > now {
        expires_at - now
    } else {
        EXPIRED_RECORD_TTL as int
    }
}

/// A user's credits after applying `delta`: never below zero, and capped at
/// the largest balance a record can hold.
pub open spec fn credits_after(current: u32, delta: int) -> u32 {
    let t = current as int + delta;
    if t < 0 {
        0
    } else if t > u32::MAX as int {
        u32::MAX
    } else {
        t as u32
    }
}

pub fn payment_ttl(expires_at: i64, now: i64) -> (r: u64)
    ensures
        r as int == payment_ttl_spec(expires_at, now),
        r > 0,
{
    if expires_at > now {
        (expires_at as i128 - now as i128) as u64
    } else {
        EXPIRED_RECORD_TTL
    }
}

pub fn apply_credit_delta(current: u32, delta: i64) -> (r: u32)
    ensures
        r == credits_after(current, delta as int),
{
    let t: i128 = current as i128 + delta as i128;
    if t < 0 {
        0
    } else if t > u32::MAX as i128 {
        u32::MAX
    } else {
        t as u32
    }
}

/// The contents of the store, as maps from keys to records.
pub struct StoreModel {
    pub users: Map<Seq<char>, User>,
    pub payments: Map<Seq<char>, PaymentRequest>,
    pub external: Map<Seq<char>, String>,
    /// For each payment record, the instant after which it may be dropped.
    pub retain_until: Map<Seq<char>, int>,
}

impl StoreModel {
    /// Every index entry leads to a stored payment request.
    pub open spec fn index_closed(self) -> bool {
        forall|e: Seq<char>| #[trigger] self.external.contains_key(e)
            ==> self.payments.contains_key(self.external[e]@)
    }

    /// The store after writing `r` at `now`, with its index entry if it has
    /// a provider reference.
    pub open spec fn with_payment(self, r: PaymentRequest, now: i64) -> StoreModel {
        StoreModel {
            users: self.users,
            payments: self.payments.insert(r.id@, r),
            external: match r.external_id {
                Some(e) => self.external.insert(e@, r.id),
                None => self.external,
            },
            retain_until: self.retain_until.insert(r.id@, now + payment_ttl_spec(r.expires_at, now)),
        }
    }

    /// The store after writing the user record `u`.
    pub open spec fn with_user(self, u: User) -> StoreModel {
        StoreModel { users: self.users.insert(u.id@, u), ..self }
    }

    /// The payment request that the provider reference `e` leads to.
    pub open spec fn by_external(self, e: Seq<char>) -> Option<PaymentRequest> {
        if self.external.contains_key(e) && self.payments.contains_key(self.external[e]@) {
            Some(self.payments[self.external[e]@])
        } else {
            None
        }
    }

    /// The payment records whose retention has run out at `now`.
    pub open spec fn expired(self, now: i64) -> Set<Seq<char>> {
        Set::new(|k: Seq<char>| self.retain_until.contains_key(k) && self.retain_until[k] < now)
    }

    /// The store after dropping the payment records whose retention has run
    /// out at `now`, and the index entries that led to them.
    pub open spec fn evicted(self, now: i64) -> StoreModel {
        let payments = self.payments.remove_keys(self.expired(now));
        StoreModel {
            users: self.users,
            payments,
            external: self.external.restrict(
                Set::new(|e: Seq<char>| self.external.contains_key(e) && payments.contains_key(self.external[e]@)),
            ),
            retain_until: self.retain_until.remove_keys(self.expired(now)),
        }
    }

    /// The user record after applying `delta` to its credits at `now`.
    pub open spec fn user_after_delta(u: User, delta: int, now: i64) -> User {
        User { credits: credits_after(u.credits, delta), last_credit_update_at: now, ..u }
    }

    /// The store after applying `delta` to the credits of `user_id`; unchanged
    /// when there is no such user.
    pub open spec fn with_credit_delta(self, user_id: Seq<char>, delta: int, now: i64) -> StoreModel {
        if self.users.contains_key(user_id) {
            StoreModel { users: self.users.insert(user_id, Self::user_after_delta(self.users[user_id], delta, now)), ..self }
        } else {
            self
        }
    }
}

/// The keyed store behind the payment service.
pub struct PaymentStore {
    users: Table<User>,
    payments: Table<PaymentRequest>,
    external: Table<String>,
    retain_until: Table<i128>,
}

impl View for PaymentStore {
    type V = StoreModel;

    closed spec fn view(&self) -> StoreModel {
        StoreModel {
            users: self.users@,
            payments: self.payments@,
            external: self.external@,
            retain_until: self.retain_until@.map_values(|t: i128| t as int),
        }
    }
}

impl PaymentStore {
    pub closed spec fn wf(&self) -> bool {
        &&& self.users.wf()
        &&& self.payments.wf()
        &&& self.external.wf()
        &&& self.retain_until.wf()
        &&& forall|k: Seq<char>| #[trigger] self.users@.contains_key(k) ==> self.users@[k].id@ == k
        &&& forall|k: Seq<char>| #[trigger] self.payments@.contains_key(k) ==> self.payments@[k].id@ == k
        &&& self@.index_closed()
        &&& forall|k: Seq<char>| #[trigger] self.payments@.contains_key(k) <==> self.retain_until@.contains_key(k)
    }

    /// An empty store.
    pub fn new() -> (r: PaymentStore)
        ensures
            r.wf(),
            r@.users.is_empty(),
            r@.payments.is_empty(),
            r@.external.is_empty(),
    {
        let r = PaymentStore { users: Table::new(), payments: Table::new(), external: Table::new(), retain_until: Table::new() };
        assert(r@.retain_until =~= Map::empty());
        r
    }

    /// Records a new user.
    pub fn create_user(&mut self, user: &User)
        requires
            old(self).wf(),
        ensures
            final(self).wf(),
            final(self)@ == old(self)@.with_user(*user),
    {
        self.users.insert(user.id.clone(), user.duplicate());
        assert(self@ =~= old(self)@.with_user(*user));
    }

    /// The user with id `user_id`.
    pub fn get_user(&self, user_id: &String) -> (r: Result<User, StorageError>)
        requires
            self.wf(),
        ensures
            match r {
                Ok(u) => self@.users.contains_key(user_id@) && u == self@.users[user_id@],
                Err(e) => !self@.users.contains_key(user_id@) && e is UserNotFound,
            },
    {
        match self.users.get(user_id) {
            Some(u) => Ok(u.duplicate()),
            None => Err(StorageError::UserNotFound),
        }
    }

    /// Adds `delta` to a user's credits at `now`; a balance that would fall
    /// below zero becomes zero. Returns the updated record.
    pub fn update_user_credits(&mut self, user_id: &String, delta: i32, now: i64) -> (r: Result<User, StorageError>)
        requires
            old(self).wf(),
        ensures
            final(self).wf(),
            final(self)@ == old(self)@.with_credit_delta(user_id@, delta as int, now),
            match r {
                Ok(u) => old(self)@.users.contains_key(user_id@)
                    && u == StoreModel::user_after_delta(old(self)@.users[user_id@], delta as int, now),
                Err(e) => !old(self)@.users.contains_key(user_id@) && e is UserNotFound,
            },
    {
        self.apply_delta(user_id, delta as i64, now)
    }

    pub(crate) fn apply_delta(&mut self, user_id: &String, delta: i64, now: i64) -> (r: Result<User, StorageError>)
        requires
            old(self).wf(),
        ensures
            final(self).wf(),
            final(self)@ == old(self)@.with_credit_delta(user_id@, delta as int, now),
            match r {
                Ok(u) => old(self)@.users.contains_key(user_id@)
                    && u == StoreModel::user_after_delta(old(self)@.users[user_id@], delta as int, now),
                Err(e) => !old(self)@.users.contains_key(user_id@) && e is UserNotFound,
            },
    {
        match self.users.get(user_id) {
            Some(u) => {
                let updated = User {
                    id: u.id.clone(),
                    credits: apply_credit_delta(u.credits, delta),
                    created_at: u.created_at,
                    last_credit_update_at: now,
                };
                let copy = updated.duplicate();
                self.users.insert(updated.id.clone(), updated);
                assert(self@ =~= old(self)@.with_credit_delta(user_id@, delta as int, now));
                Ok(copy)
            },
            None => Err(StorageError::UserNotFound),
        }
    }

    /// Writes a payment request at `now`, and its index entry if it has a
    /// provider reference. Both are kept for `payment_ttl` seconds.
    pub fn store_payment_request(&mut self, request: &PaymentRequest, now: i64)
        requires
            old(self).wf(),
        ensures
            final(self).wf(),
            final(self)@ == old(self)@.with_payment(*request, now),
    {
        let ttl = payment_ttl(request.expires_at, now);
        let until: i128 = now as i128 + ttl as i128;
        self.payments.insert(request.id.clone(), request.duplicate());
        match &request.external_id {
            Some(e) => {
                self.external.insert(e.clone(), request.id.clone());
            },
            None => {},
        }
        self.retain_until.insert(request.id.clone(), until);
        assert(self@.payments =~= old(self)@.with_payment(*request, now).payments);
        assert(self@.external =~= old(self)@.with_payment(*request, now).external);
        assert(self@.retain_until =~= old(self)@.with_payment(*request, now).retain_until);
    }

    /// Drops the payment records kept past their retention at `now`, with
    /// the index entries that led to them. Users are kept.
    pub fn evict_expired(&mut self, now: i64)
        requires
            old(self).wf(),
        ensures
            final(self).wf(),
            final(self)@ == old(self)@.evicted(now),
    {
        let ghost old_view = self@;
        let ids = self.retain_until.key_list();
        let ghost mut gone: Set<Seq<char>> = Set::empty();
        let mut i: usize = 0;
        while i < ids.len()
            invariant
                old(self).wf(),
                old_view == old(self)@,
                self.users == old(self).users,
                self.external == old(self).external,
                self.payments.wf(),
                self.retain_until.wf(),
                i <= ids.len(),
                forall|j: int| 0 <= j < ids.len() ==> old(self).retain_until@.contains_key(#[trigger] ids@[j]@),
                forall|k: Seq<char>| #[trigger] old(self).retain_until@.contains_key(k) ==> exists|j: int| 0 <= j < ids.len() && #[trigger] ids@[j]@ == k,
                forall|a: int, b: int| 0 <= a < b < ids.len() ==> #[trigger] ids@[a]@ != #[trigger] ids@[b]@,
                forall|k: Seq<char>| #[trigger] gone.contains(k) <==> ((exists|j: int| 0 <= j < i && #[trigger] ids@[j]@ == k)
                    && old_view.expired(now).contains(k)),
                self.payments@ == old(self).payments@.remove_keys(gone),
                self.retain_until@ == old(self).retain_until@.remove_keys(gone),
            decreases ids.len() - i,
        {
            let id = &ids[i];
            assert(!gone.contains(id@)) by {
                if gone.contains(id@) {
                    let j = choose|j: int| 0 <= j < i && #[trigger] ids@[j]@ == id@;
                    assert(ids@[j]@ != ids@[i as int]@);
                }
            }
            let expired = match self.retain_until.get(id) {
                Some(t) => *t < now as i128,
                None => false,
            };
            if expired {
                self.payments.remove(id);
                self.retain_until.remove(id);
                proof {
                    gone = gone.insert(id@);
                }
                assert(self.payments@ =~= old(self).payments@.remove_keys(gone));
                assert(self.retain_until@ =~= old(self).retain_until@.remove_keys(gone));
            }
            i = i + 1;
            assert forall|k: Seq<char>| #[trigger] gone.contains(k) <==> ((exists|j: int| 0 <= j < i && #[trigger] ids@[j]@ == k)
                && old_view.expired(now).contains(k)) by {
                if k == id@ {
                    assert(ids@[i - 1]@ == k);
                }
                if (exists|j: int| 0 <= j < i && #[trigger] ids@[j]@ == k) && k != id@ {
                    let j = choose|j: int| 0 <= j < i && #[trigger] ids@[j]@ == k;
                    assert(j < i - 1);
                }
            }
        }
        assert(gone =~= old_view.expired(now));
        let ghost payments_after = self.payments@;
        let refs = self.external.key_list();
        let ghost mut dropped: Set<Seq<char>> = Set::empty();
        let ghost keep = Set::new(|e: Seq<char>| old_view.external.contains_key(e) && payments_after.contains_key(old_view.external[e]@));
        let mut k: usize = 0;
        while k < refs.len()
            invariant
                old(self).wf(),
                old_view == old(self)@,
                self.users == old(self).users,
                self.payments@ == payments_after,
                keep == Set::new(|e: Seq<char>| old_view.external.contains_key(e) && payments_after.contains_key(old_view.external[e]@)),
                self.payments.wf(),
                self.retain_until.wf(),
                self.external.wf(),
                self.payments@ == old(self).payments@.remove_keys(gone),
                self.retain_until@ == old(self).retain_until@.remove_keys(gone),
                k <= refs.len(),
                forall|j: int| 0 <= j < refs.len() ==> old(self).external@.contains_key(#[trigger] refs@[j]@),
                forall|e: Seq<char>| #[trigger] old(self).external@.contains_key(e) ==> exists|j: int| 0 <= j < refs.len() && #[trigger] refs@[j]@ == e,
                forall|a: int, b: int| 0 <= a < b < refs.len() ==> #[trigger] refs@[a]@ != #[trigger] refs@[b]@,
                forall|e: Seq<char>| #[trigger] dropped.contains(e) <==> ((exists|j: int| 0 <= j < k && #[trigger] refs@[j]@ == e)
                    && !keep.contains(e) && old_view.external.contains_key(e)),
                self.external@ == old(self).external@.remove_keys(dropped),
            decreases refs.len() - k,
        {
            let e = &refs[k];
            assert(!dropped.contains(e@)) by {
                if dropped.contains(e@) {
                    let j = choose|j: int| 0 <= j < k && #[trigger] refs@[j]@ == e@;
                    assert(refs@[j]@ != refs@[k as int]@);
                }
            }
            let dangling = match self.external.get(e) {
                Some(id) => {
                    let missing = self.payments.get(id).is_none();
                    assert(missing == !payments_after.contains_key(old_view.external[e@]@));
                    missing
                },
                None => false,
            };
            if dangling {
                self.external.remove(e);
                proof {
                    dropped = dropped.insert(e@);
                }
                assert(self.external@ =~= old(self).external@.remove_keys(dropped));
            }
            k = k + 1;
            assert forall|x: Seq<char>| #[trigger] dropped.contains(x) <==> ((exists|j: int| 0 <= j < k && #[trigger] refs@[j]@ == x)
                && !keep.contains(x) && old_view.external.contains_key(x)) by {
                if x == e@ {
                    assert(refs@[k - 1]@ == x);
                }
                if (exists|j: int| 0 <= j < k && #[trigger] refs@[j]@ == x) && x != e@ {
                    let j = choose|j: int| 0 <= j < k && #[trigger] refs@[j]@ == x;
                    assert(j < k - 1);
                }
            }
        }
        assert(self.external@ =~= old_view.evicted(now).external);
        assert(self@.retain_until =~= old_view.evicted(now).retain_until);
        assert(self@.payments =~= old_view.evicted(now).payments);
    }

    /// The payment request with id `request_id`.
    pub fn get_payment_request(&self, request_id: &String) -> (r: Result<PaymentRequest, StorageError>)
        requires
            self.wf(),
        ensures
            match r {
                Ok(p) => self@.payments.contains_key(request_id@) && p == self@.payments[request_id@],
                Err(e) => !self@.payments.contains_key(request_id@) && e is PaymentRequestNotFound,
            },
    {
        match self.payments.get(request_id) {
            Some(p) => Ok(p.duplicate()),
            None => Err(StorageError::PaymentRequestNotFound),
        }
    }

    /// The payment request that the provider reference `external_id` leads to.
    pub fn get_payment_request_by_external_id(&self, external_id: &String) -> (r: Result<PaymentRequest, StorageError>)
        requires
            self.wf(),
        ensures
            match r {
                Ok(p) => self@.by_external(external_id@) == Some(p),
                Err(e) => self@.by_external(external_id@).is_none() && e is PaymentRequestNotFound,
            },
    {
        match self.external.get(external_id) {
            Some(id) => self.get_payment_request(id),
            None => Err(StorageError::PaymentRequestNotFound),
        }
    }

    /// Sets the status of a stored payment request, keeping its retention.
    /// Returns the updated record.
    pub fn update_payment_request_status(&mut self, request_id: &String, status: PaymentStatus) -> (r: Result<PaymentRequest, StorageError>)
        requires
            old(self).wf(),
        ensures
            final(self).wf(),
            match r {
                Ok(p) => old(self)@.payments.contains_key(request_id@)
                    && p == (PaymentRequest { status, ..old(self)@.payments[request_id@] })
                    && final(self)@ == (StoreModel { payments: old(self)@.payments.insert(request_id@, p), ..old(self)@ }),
                Err(e) => !old(self)@.payments.contains_key(request_id@) && e is PaymentRequestNotFound
                    && final(self)@ == old(self)@,
            },
    {
        match self.payments.get(request_id) {
            Some(p) => {
                let mut updated = p.duplicate();
                updated.status = status;
                let copy = updated.duplicate();
                self.payments.insert(request_id.clone(), updated);
                assert(self@.payments =~= old(self)@.payments.insert(request_id@, copy));
                Ok(copy)
            },
            None => Err(StorageError::PaymentRequestNotFound),
        }
    }
}

/// Taking more credits than a user holds leaves the user with zero credits.
pub proof fn law_debit_clamps_to_zero(s: StoreModel, user_id: Seq<char>, n: int, now: i64)
    requires
        s.users.contains_key(user_id),
        n > s.users[user_id].credits,
    ensures
        s.with_credit_delta(user_id, -n, now).users[user_id].credits == 0,
{
}

} // verus!

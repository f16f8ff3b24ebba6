//! The authoritative in-memory table of HTLC orders: monotonic identifier
//! allocation starting at 1, lookup, listing, and the lazy, idempotent
//! caching of each order's deterministic funding address.

use vstd::prelude::*;
use vstd::std_specs::hash::group_hash_axioms;
use crate::btc;
use crate::errors::HtlcError;
use std::collections::HashMap;

verus! {

broadcast use group_hash_axioms;

/// The set of numbers from 1 up to (excluding) `n` has `n - 1` elements.
proof fn lemma_u64_range_card(n: u64)
    ensures
        Set::new(|k: u64| 1 <= k < n).finite(),
        n >= 1 ==> Set::new(|k: u64| 1 <= k < n).len() == n - 1,
        n < 1 ==> Set::new(|k: u64| 1 <= k < n).len() == 0,
    decreases n,
{
    if n <= 1 {
        assert(Set::new(|k: u64| 1 <= k < n) =~= Set::<u64>::empty());
    } else {
        let m = (n - 1) as u64;
        lemma_u64_range_card(m);
        assert(Set::new(|k: u64| 1 <= k < n) =~= Set::new(|k: u64| 1 <= k < m).insert(m));
    }
}

/// One HTLC order: the initiator's key, the time lock, the secret hash, and
/// the lazily derived funding address (immutable once set).
pub struct HtlcDetail {
    pub initiator_pubkey: String,
    pub time_lock: u64,
    pub secret_hash: String,
    pub htlc_address: Option<String>,
}

impl Clone for HtlcDetail {
    fn clone(&self) -> (r: Self)
        ensures
            r == *self,
    {
        HtlcDetail {
            initiator_pubkey: self.initiator_pubkey.clone(),
            time_lock: self.time_lock,
            secret_hash: self.secret_hash.clone(),
            htlc_address: match &self.htlc_address {
                Some(a) => Some(a.clone()),
                None => None,
            },
        }
    }
}

/// The order table and the next identifier to hand out.
pub struct OrderStorage {
    orders: HashMap<u64, HtlcDetail>,
    next_order_no: u64,
}

impl View for OrderStorage {
    type V = Map<u64, HtlcDetail>;

    closed spec fn view(&self) -> Map<u64, HtlcDetail> {
        self.orders@
    }
}

/// The transition `create_order` makes: the returned number is the old
/// counter, the counter advances by one, and exactly the new record is added.
pub open spec fn create_post(
    pre: OrderStorage,
    post: OrderStorage,
    initiator_pubkey: String,
    time_lock: u64,
    secret_hash: String,
    r: u64,
) -> bool {
    &&& r == pre.next_no()
    &&& post.next_no() == pre.next_no() + 1
    &&& post@ == pre@.insert(
        r,
        (HtlcDetail { initiator_pubkey, time_lock, secret_hash, htlc_address: None }),
    )
}

/// Whether snapshot entries can rebuild a store: every key within 1 and the
/// number of entries, and no key twice — by counting, the keys are then
/// exactly the numbers a store of that size has handed out.
pub open spec fn valid_snapshot(entries: Seq<(u64, HtlcDetail)>) -> bool {
    &&& forall|i: int| 0 <= i < entries.len() ==> 1 <= (#[trigger] entries[i]).0 <= entries.len()
    &&& forall|i: int, j: int|
        0 <= i < j < entries.len() ==> (#[trigger] entries[i]).0 != (#[trigger] entries[j]).0
}

impl OrderStorage {
    /// The next order number to be assigned.
    pub closed spec fn next_no(&self) -> u64 {
        self.next_order_no
    }

    /// The store's invariant: numbering starts at 1 and the stored keys are
    /// exactly the numbers handed out so far — never reused, never a gap.
    pub open spec fn wf(&self) -> bool {
        &&& 1 <= self.next_no()
        &&& forall|k: u64| self@.contains_key(k) <==> 1 <= k < self.next_no()
    }

    /// An empty store, numbering from 1.
    pub fn new() -> (s: Self)
        ensures
            s.wf(),
            s@ == Map::<u64, HtlcDetail>::empty(),
            s.next_no() == 1,
    {
        let s = OrderStorage { orders: HashMap::new(), next_order_no: 1 };
        proof {
            assert(s@ =~= Map::<u64, HtlcDetail>::empty());
        }
        s
    }

    /// Creates a new order with no funding address yet and returns its
    /// number: the ids handed out are consecutive, starting at 1.
    pub fn create_order(
        &mut self,
        initiator_pubkey: String,
        time_lock: u64,
        secret_hash: String,
    ) -> (r: u64)
        requires
            old(self).wf(),
            old(self).next_no() < 0xffff_ffff_ffff_ffff,
        ensures
            final(self).wf(),
            create_post(*old(self), *final(self), initiator_pubkey, time_lock, secret_hash, r),
    {
        let order_no = self.next_order_no;
        let detail = HtlcDetail { initiator_pubkey, time_lock, secret_hash, htlc_address: None };
        self.orders.insert(order_no, detail);
        self.next_order_no = self.next_order_no + 1;
        proof {
            assert forall|k: u64| self@.contains_key(k) <==> 1 <= k < self.next_no() by {
                assert(self@.contains_key(k) <==> k == order_no || old(self)@.contains_key(k));
            }
        }
        order_no
    }

    /// Looks an order up by number; `None` exactly when the number was never
    /// assigned.
    pub fn get_order(&self, order_no: u64) -> (r: Option<HtlcDetail>)
        ensures
            match r {
                Some(d) => self@.contains_key(order_no) && d == self@[order_no],
                None => !self@.contains_key(order_no),
            },
    {
        match self.orders.get(&order_no) {
            Some(d) => Some(d.clone()),
            None => None,
        }
    }

    /// Lists every order as a `(number, record)` pair: each stored pair
    /// exactly once, in unspecified order.
    pub fn get_all_orders(&self) -> (r: Vec<(u64, HtlcDetail)>)
        requires
            self.wf(),
        ensures
            r@.len() == self@.dom().len(),
            forall|i: int|
                0 <= i < r@.len() ==> self@.contains_key(#[trigger] r@[i].0) && r@[i].1
                    == self@[r@[i].0],
            forall|i: int, j: int| 0 <= i < j < r@.len() ==> r@[i].0 != r@[j].0,
            forall|k: u64|
                self@.contains_key(k) ==> exists|i: int|
                    0 <= i < r@.len() && (#[trigger] r@[i]).0 == k,
    {
        let mut r: Vec<(u64, HtlcDetail)> = Vec::new();
        let mut k: u64 = 1;
        while k < self.next_order_no
            invariant
                self.wf(),
                1 <= k <= self.next_no(),
                r@.len() == k - 1,
                forall|i: int| 0 <= i < r@.len() ==> (#[trigger] r@[i].0) == i + 1,
                forall|i: int|
                    0 <= i < r@.len() ==> self@.contains_key(#[trigger] r@[i].0) && r@[i].1
                        == self@[r@[i].0],
            decreases self.next_no() - k,
        {
            match self.orders.get(&k) {
                Some(d) => {
                    r.push((k, d.clone()));
                },
                None => {
                    // Unreachable: the invariant says every id below the
                    // counter is stored.
                    proof {
                        assert(self@.contains_key(k));
                    }
                },
            }
            k = k + 1;
        }
        proof {
            assert(self@.dom() =~= Set::new(|j: u64| 1 <= j < self.next_no()));
            lemma_u64_range_card(self.next_no());
            assert forall|j: u64| self@.contains_key(j) implies exists|i: int|
                0 <= i < r@.len() && (#[trigger] r@[i]).0 == j by {
                assert(r@[j - 1].0 == j);
            }
        }
        r
    }

    /// The next order number that `create_order` would return.
    pub fn get_next_order_no(&self) -> (r: u64)
        ensures
            r == self.next_no(),
    {
        self.next_order_no
    }

    /// Rebuilds a store from the pairs a snapshot (`get_all_orders`) holds,
    /// whatever their order.  Rejects entries whose keys are not exactly the
    /// numbers 1 up to the number of entries, as a store can only ever have
    /// handed out those.
    pub fn from_entries(entries: Vec<(u64, HtlcDetail)>) -> (r: Option<OrderStorage>)
        requires
            entries@.len() < 0xffff_ffff_ffff_ffff,
        ensures
            match r {
                Some(s) => {
                    &&& valid_snapshot(entries@)
                    &&& s.wf()
                    &&& s.next_no() == entries@.len() + 1
                    &&& forall|i: int|
                        0 <= i < entries@.len() ==> s@.contains_key(
                            (#[trigger] entries@[i]).0,
                        ) && s@[entries@[i].0] == entries@[i].1
                },
                None => !valid_snapshot(entries@),
            },
    {
        let n = entries.len();
        let mut orders: HashMap<u64, HtlcDetail> = HashMap::new();
        proof {
            assert(orders@.dom() =~= Set::<u64>::empty());
        }
        let mut i: usize = 0;
        while i < n
            invariant
                i <= n == entries@.len() < 0xffff_ffff_ffff_ffff,
                forall|a: int| 0 <= a < i ==> 1 <= (#[trigger] entries@[a]).0 <= n,
                forall|a: int, b: int|
                    0 <= a < b < i ==> (#[trigger] entries@[a]).0 != (#[trigger] entries@[b]).0,
                forall|a: int|
                    0 <= a < i ==> orders@.contains_key((#[trigger] entries@[a]).0)
                        && orders@[entries@[a].0] == entries@[a].1,
                forall|k: u64|
                    orders@.contains_key(k) ==> exists|a: int|
                        0 <= a < i && (#[trigger] entries@[a]).0 == k,
                orders@.dom().finite(),
                orders@.dom().len() == i,
            decreases n - i,
        {
            let k = entries[i].0;
            let d = entries[i].1.clone();
            if k < 1 || k > n as u64 {
                proof {
                    assert(!(1 <= entries@[i as int].0 <= entries@.len()));
                }
                return None;
            }
            if orders.contains_key(&k) {
                proof {
                    let a = choose|a: int| 0 <= a < i && (#[trigger] entries@[a]).0 == k;
                    assert(entries@[a].0 == entries@[i as int].0);
                }
                return None;
            }
            orders.insert(k, d);
            i = i + 1;
        }
        let s = OrderStorage { orders, next_order_no: (n as u64) + 1 };
        proof {
            let range = Set::new(|k: u64| 1 <= k < s.next_no());
            assert(s@.dom().subset_of(range));
            lemma_u64_range_card(s.next_no());
            vstd::set_lib::lemma_subset_equality(s@.dom(), range);
            assert(forall|k: u64| s@.contains_key(k) <==> #[trigger] range.contains(k));
        }
        Some(s)
    }

    /// Asks for an order's cached funding address without deriving one:
    /// `Err(OrderNotFound)` for an unknown number, otherwise the cache as it
    /// stands.  A host only contacts the key-derivation service when this
    /// returns `Ok(None)`.
    pub fn funding_address_query(&self, order_no: u64) -> (r: Result<Option<String>, HtlcError>)
        ensures
            match r {
                Ok(cached) => self@.contains_key(order_no) && (match cached {
                    Some(a) => self@[order_no].htlc_address is Some && a@
                        == self@[order_no].htlc_address.unwrap()@,
                    None => self@[order_no].htlc_address is None,
                }),
                Err(e) => e == HtlcError::OrderNotFound && !self@.contains_key(order_no),
            },
    {
        match self.orders.get(&order_no) {
            Some(d) => match &d.htlc_address {
                Some(a) => Ok(Some(a.clone())),
                None => Ok(None),
            },
            None => Err(HtlcError::OrderNotFound),
        }
    }

    /// Finishes a funding-address derivation with the public key the external
    /// service returned, as `complete_post` states: encode the key as a
    /// pay-to-witness-public-key-hash address, cache it if (and only if) no
    /// address is cached yet, and return the cached one otherwise — a second
    /// derivation can never change a stored address.
    pub fn complete_funding_address(
        &mut self,
        order_no: u64,
        public_key: &Vec<u8>,
        network: btc::Network,
    ) -> (r: Result<String, HtlcError>)
        requires
            old(self).wf(),
        ensures
            final(self).wf(),
            complete_post(*old(self), *final(self), order_no, public_key@, network.spec_id(), r),
    {
        let detail = match self.orders.get(&order_no) {
            Some(d) => d.clone(),
            None => {
                return Err(HtlcError::OrderNotFound);
            },
        };
        match detail.htlc_address {
            Some(a) => Ok(a),
            None => {
                let addr = match btc::p2wpkh_address_exec(public_key, network) {
                    Some(a) => a,
                    None => {
                        return Err(HtlcError::ExternalServiceFailure);
                    },
                };
                let updated = HtlcDetail {
                    initiator_pubkey: detail.initiator_pubkey,
                    time_lock: detail.time_lock,
                    secret_hash: detail.secret_hash,
                    htlc_address: Some(addr.clone()),
                };
                self.orders.insert(order_no, updated);
                proof {
                    assert forall|k: u64| self@.contains_key(k) <==> 1 <= k < self.next_no() by {
                        assert(self@.contains_key(k) <==> k == order_no || old(
                            self,
                        )@.contains_key(k));
                    }
                }
                Ok(addr)
            },
        }
    }
}

/// The transition `complete_funding_address` makes.
pub open spec fn complete_post(
    pre: OrderStorage,
    post: OrderStorage,
    order_no: u64,
    public_key: Seq<u8>,
    network_id: int,
    r: Result<String, HtlcError>,
) -> bool {
    match r {
        Err(e) => {
            &&& post@ == pre@ && post.next_no() == pre.next_no()
            &&& (e == HtlcError::OrderNotFound || e == HtlcError::ExternalServiceFailure)
            &&& (e == HtlcError::OrderNotFound <==> !pre@.contains_key(order_no))
            &&& e == HtlcError::ExternalServiceFailure ==> pre@[order_no].htlc_address is None
                && !btc::is_compressed_pubkey(public_key)
        },
        Ok(a) => {
            &&& pre@.contains_key(order_no)
            &&& post.next_no() == pre.next_no()
            &&& match pre@[order_no].htlc_address {
                Some(cached) => a@ == cached@ && post@ == pre@,
                None => {
                    &&& btc::is_compressed_pubkey(public_key)
                    &&& a@ == btc::p2wpkh_address(public_key, network_id)
                    &&& post@ == pre@.insert(
                        order_no,
                        (HtlcDetail {
                            initiator_pubkey: pre@[order_no].initiator_pubkey,
                            time_lock: pre@[order_no].time_lock,
                            secret_hash: pre@[order_no].secret_hash,
                            htlc_address: Some(a),
                        }),
                    )
                },
            }
        },
    }
}

/// Order numbers start at 1: the first order a fresh store hands out is
/// number 1.
pub proof fn lemma_first_order_no_is_one(
    pre: OrderStorage,
    post: OrderStorage,
    p: String,
    t: u64,
    h: String,
    r: u64,
)
    requires
        pre.next_no() == 1,
        create_post(pre, post, p, t, h, r),
    ensures
        r == 1,
{
}

/// Order numbers are strictly increasing with no gaps: two consecutive
/// creations, whatever their parameters, return `r` and then `r + 1`.
pub proof fn lemma_order_nos_consecutive(
    s0: OrderStorage,
    s1: OrderStorage,
    s2: OrderStorage,
    p1: String,
    t1: u64,
    h1: String,
    r1: u64,
    p2: String,
    t2: u64,
    h2: String,
    r2: u64,
)
    requires
        create_post(s0, s1, p1, t1, h1, r1),
        create_post(s1, s2, p2, t2, h2, r2),
    ensures
        r2 == r1 + 1,
{
}

/// A created order is immediately visible with exactly the fields given and
/// no funding address.
pub proof fn lemma_create_then_get(
    pre: OrderStorage,
    post: OrderStorage,
    p: String,
    t: u64,
    h: String,
    r: u64,
)
    requires
        create_post(pre, post, p, t, h, r),
    ensures
        post@.contains_key(r),
        post@[r].initiator_pubkey == p,
        post@[r].time_lock == t,
        post@[r].secret_hash == h,
        post@[r].htlc_address is None,
{
}

/// Funding-address derivation is idempotent: once a derivation has completed
/// with address `a`, any later completion — whatever key the service hands
/// back — returns the same address and leaves the store unchanged, so a host
/// that asks first never issues a second external key request.
pub proof fn lemma_funding_address_idempotent(
    s0: OrderStorage,
    s1: OrderStorage,
    s2: OrderStorage,
    order_no: u64,
    k1: Seq<u8>,
    k2: Seq<u8>,
    net: int,
    r1: Result<String, HtlcError>,
    r2: Result<String, HtlcError>,
)
    requires
        complete_post(s0, s1, order_no, k1, net, r1),
        r1 is Ok,
        complete_post(s1, s2, order_no, k2, net, r2),
    ensures
        r2 is Ok && r2.unwrap()@ == r1.unwrap()@,
        s2@ == s1@,
        s1@[order_no].htlc_address is Some,
{
    assert(s1@.contains_key(order_no));
    if s0@[order_no].htlc_address is Some {
        assert(s1@ == s0@);
    } else {
        assert(s1@[order_no].htlc_address == Some(r1.unwrap()));
    }
}

} // verus!

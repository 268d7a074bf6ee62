//! The per-customer API-key registry.
//!
//! A key is an opaque random 32-character alphanumeric token, owned by the
//! customer that created it, and bound to at most one host, exactly once: the
//! binding goes from unset to a concrete host and never changes afterwards.
//! The binding is a single atomic conditional update at the storage boundary
//! ("set the host iff it is currently unset"), never a read followed by a
//! separate write; exclusive access to the store stands for the storage
//! collaborator's atomicity here.

use vstd::prelude::*;
use crate::errors::ApiError;
use rand::distr::SampleString;

verus! {

/// The fixed page size of `list`: no unbounded result sets.
pub const PAGE_SIZE: usize = 100;

/// One API key record.
#[derive(Debug)]
pub struct ApiKey {
    /// Storage identifier, unique and assigned at creation.
    pub id: u64,
    /// The opaque bearer token: 32 alphanumeric characters, unique across
    /// all keys.
    pub key: String,
    /// The owning customer's id; set at creation, immutable.
    pub customer_id: String,
    /// The host the key is bound to; starts unset, set at most once.
    pub host_uuid: Option<String>,
    /// Opaque classification tag.
    pub plan_tag: String,
}

/// The mathematical value of an `ApiKey`.
pub struct ApiKeyV {
    /// Storage identifier.
    pub id: u64,
    /// The bearer token.
    pub key: Seq<char>,
    /// The owning customer's id.
    pub customer_id: Seq<char>,
    /// The bound host, if any.
    pub host_uuid: Option<Seq<char>>,
    /// Opaque classification tag.
    pub plan_tag: Seq<char>,
}

impl View for ApiKey {
    type V = ApiKeyV;

    open spec fn view(&self) -> ApiKeyV {
        ApiKeyV {
            id: self.id,
            key: self.key@,
            customer_id: self.customer_id@,
            host_uuid: self.host_uuid.deep_view(),
            plan_tag: self.plan_tag@,
        }
    }
}

impl DeepView for ApiKey {
    type V = ApiKeyV;

    open spec fn deep_view(&self) -> ApiKeyV {
        self@
    }
}

impl ApiKey {
    /// A copy of the record, field for field.
    pub fn duplicate(&self) -> (r: ApiKey)
        ensures
            r@ == self@,
    {
        let host_uuid = match &self.host_uuid {
            Some(h) => Some(h.clone()),
            None => None,
        };
        ApiKey {
            id: self.id,
            key: self.key.clone(),
            customer_id: self.customer_id.clone(),
            host_uuid,
            plan_tag: self.plan_tag.clone(),
        }
    }
}

/// The outcome of the atomic conditional host binding.
#[derive(Clone, Copy, Debug, PartialEq, Eq, Structural)]
pub enum BindOutcome {
    /// The key existed with the host unset; it is now bound.
    Bound,
    /// The key existed but some host was already bound.
    AlreadyBound,
    /// No key carries the presented token.
    NotFound,
}

/// A character of the token alphabet: alphanumeric ASCII.
pub open spec fn is_key_char(c: char) -> bool {
    ('a' <= c && c <= 'z') || ('A' <= c && c <= 'Z') || ('0' <= c && c <= '9')
}

/// A well-shaped bearer token: 32 characters from the token alphabet.
pub open spec fn is_key_token(s: Seq<char>) -> bool {
    s.len() == 32 && forall|i: int| 0 <= i < s.len() ==> is_key_char(#[trigger] s[i])
}

/// Whether some key in `ks` carries `token`.
pub open spec fn has_key(ks: Seq<ApiKeyV>, token: Seq<char>) -> bool {
    exists|i: int| 0 <= i < ks.len() && ks[i].key == token
}

/// The index of the key carrying `token`; meaningful when `has_key` holds
/// and the contents are well formed, which make that index unique.
pub open spec fn key_index(ks: Seq<ApiKeyV>, token: Seq<char>) -> int {
    choose|i: int| 0 <= i < ks.len() && ks[i].key == token
}

/// The key carrying `token`.
pub open spec fn key_with_token(ks: Seq<ApiKeyV>, token: Seq<char>) -> ApiKeyV {
    ks[key_index(ks, token)]
}

/// Whether `owner` owns a key carrying `token`.
pub open spec fn owns(ks: Seq<ApiKeyV>, owner: Seq<char>, token: Seq<char>) -> bool {
    has_key(ks, token) && key_with_token(ks, token).customer_id == owner
}

/// Well-formedness of the contents: tokens and storage ids are unique.
pub open spec fn keys_wf(ks: Seq<ApiKeyV>) -> bool {
    forall|i: int, j: int|
        0 <= i < j < ks.len() ==> ks[i].key != ks[j].key && ks[i].id != ks[j].id
}

/// The keys of `ks` owned by `owner`, in store order.
pub open spec fn owned_keys(ks: Seq<ApiKeyV>, owner: Seq<char>) -> Seq<ApiKeyV>
    decreases ks.len(),
{
    if ks.len() == 0 {
        Seq::empty()
    } else {
        let prefix = owned_keys(ks.drop_last(), owner);
        if ks.last().customer_id == owner {
            prefix.push(ks.last())
        } else {
            prefix
        }
    }
}

/// The first page of `s`: all of it when it fits, else the first `cap`
/// entries.
pub open spec fn page_of(s: Seq<ApiKeyV>, cap: nat) -> Seq<ApiKeyV> {
    if s.len() <= cap {
        s
    } else {
        s.take(cap as int)
    }
}

/// Whether the quota capability blocks a creation for `owner`: a limit is
/// set and `owner` already holds at least that many keys.
pub open spec fn quota_blocks(ks: Seq<ApiKeyV>, owner: Seq<char>, quota: Option<usize>) -> bool {
    match quota {
        Some(q) => owned_keys(ks, owner).len() >= q,
        None => false,
    }
}

/// What the atomic conditional binding does to the contents: new contents
/// and outcome, as a function of the presented token and host.
pub open spec fn bind_transition(ks: Seq<ApiKeyV>, token: Seq<char>, host: Seq<char>) -> (
    Seq<ApiKeyV>,
    BindOutcome,
) {
    if !has_key(ks, token) {
        (ks, BindOutcome::NotFound)
    } else {
        let i = key_index(ks, token);
        if ks[i].host_uuid is Some {
            (ks, BindOutcome::AlreadyBound)
        } else {
            (ks.update(i, ApiKeyV { host_uuid: Some(host), ..ks[i] }), BindOutcome::Bound)
        }
    }
}

/// What deletion by the owner does to the contents: new contents and the
/// number of rows removed, or the error.
pub open spec fn delete_transition(ks: Seq<ApiKeyV>, owner: Seq<char>, token: Seq<char>) -> (
    Seq<ApiKeyV>,
    Result<usize, ApiError>,
) {
    if owns(ks, owner, token) {
        (ks.remove(key_index(ks, token)), Ok(1))
    } else {
        (ks, Err(ApiError::AuthorizationError))
    }
}

/// The key store: every key record, in creation order.
pub struct KeyStore {
    keys: Vec<ApiKey>,
    next_id: u64,
}

impl View for KeyStore {
    type V = Seq<ApiKeyV>;

    closed spec fn view(&self) -> Seq<ApiKeyV> {
        self.keys.deep_view()
    }
}

impl KeyStore {
    /// Well-formedness: unique tokens, unique ids, ids below the next one.
    pub closed spec fn wf(&self) -> bool {
        keys_wf(self@) && (forall|i: int| 0 <= i < self@.len() ==> self@[i].id < self.next_id)
    }

    /// A well-formed store satisfies the contents' well-formedness.
    pub proof fn wf_implies_keys_wf(&self)
        requires
            self.wf(),
        ensures
            keys_wf(self@),
    {
    }

    /// How many storage ids are still assignable. Creation consumes one per
    /// key; running out is an internal fault, unreachable in any real
    /// deployment, but accounted for so that callers can rule it out.
    pub closed spec fn id_headroom(&self) -> int {
        u64::MAX - self.next_id
    }

    /// An empty store.
    pub fn new() -> (r: KeyStore)
        ensures
            r@ == Seq::<ApiKeyV>::empty(),
            r.wf(),
            r.id_headroom() == u64::MAX as int,
    {
        KeyStore { keys: Vec::new(), next_id: 0 }
    }

    /// The number of keys in the store.
    pub fn len(&self) -> (r: usize)
        ensures
            r == self@.len(),
    {
        self.keys.len()
    }

    /// The index of the key carrying `token`, if any.
    fn find_index(&self, token: &String) -> (r: Option<usize>)
        requires
            self.wf(),
        ensures
            match r {
                Some(i) => i < self@.len() && self@[i as int].key == token@ && has_key(
                    self@,
                    token@,
                ) && key_index(self@, token@) == i,
                None => !has_key(self@, token@),
            },
    {
        let n = self.keys.len();
        let mut i: usize = 0;
        while i < n
            invariant
                n == self@.len(),
                0 <= i <= n,
                self.wf(),
                forall|j: int| 0 <= j < i ==> self@[j].key != token@,
            decreases n - i,
        {
            let k = &self.keys[i];
            if k.key == *token {
                proof {
                    assert(0 <= i < self@.len() && self@[i as int].key == token@);
                    let c = key_index(self@, token@);
                    if c < i {
                        assert(self@[c].key != self@[i as int].key);
                    } else if c > i {
                        assert(self@[i as int].key != self@[c].key);
                    }
                }
                return Some(i);
            }
            i += 1;
        }
        None
    }

    /// Look up the key carrying `token`, whoever owns it. This is the lookup
    /// of the bearer-key path, where the token itself is the credential.
    pub fn get_by_key(&self, token: &String) -> (r: Result<ApiKey, ApiError>)
        requires
            self.wf(),
        ensures
            match r {
                Ok(k) => has_key(self@, token@) && k@ == key_with_token(self@, token@),
                Err(e) => e == ApiError::AuthorizationError && !has_key(self@, token@),
            },
    {
        match self.find_index(token) {
            Some(i) => Ok(self.keys[i].duplicate()),
            None => Err(ApiError::AuthorizationError),
        }
    }

    /// Look up the key carrying `token` when it belongs to `owner`. Whether
    /// the token is unknown or owned by someone else, the caller learns only
    /// `AuthorizationError`.
    pub fn get_owned(&self, owner: &String, token: &String) -> (r: Result<ApiKey, ApiError>)
        requires
            self.wf(),
        ensures
            match r {
                Ok(k) => owns(self@, owner@, token@) && k@ == key_with_token(self@, token@),
                Err(e) => e == ApiError::AuthorizationError && !owns(self@, owner@, token@),
            },
    {
        match self.find_index(token) {
            Some(i) => {
                let k = &self.keys[i];
                if k.customer_id == *owner {
                    Ok(k.duplicate())
                } else {
                    Err(ApiError::AuthorizationError)
                }
            },
            None => Err(ApiError::AuthorizationError),
        }
    }

    /// Whether `owner` owns a key carrying `token`.
    pub fn exists_by_owner_and_key(&self, owner: &String, token: &String) -> (r: bool)
        requires
            self.wf(),
        ensures
            r == owns(self@, owner@, token@),
    {
        match self.find_index(token) {
            Some(i) => {
                let k = &self.keys[i];
                k.customer_id == *owner
            },
            None => false,
        }
    }

    /// The atomic conditional update at the storage boundary: set the host
    /// of the key carrying `token` iff it is currently unset. No owner check
    /// applies; the token itself is the caller's credential.
    pub fn conditional_bind(&mut self, token: &String, host: &String) -> (r: BindOutcome)
        requires
            old(self).wf(),
        ensures
            final(self).wf(),
            final(self).id_headroom() == old(self).id_headroom(),
            (final(self)@, r) == bind_transition(old(self)@, token@, host@),
    {
        match self.find_index(token) {
            Some(i) => {
                let already = self.keys[i].host_uuid.is_some();
                if already {
                    BindOutcome::AlreadyBound
                } else {
                    let old_k = self.keys.remove(i);
                    let new_k = ApiKey { host_uuid: Some(host.clone()), ..old_k };
                    proof {
                        let gi = i as int;
                        let kv = ApiKeyV { host_uuid: Some(host@), ..old(self)@[gi] };
                        assert(new_k@ == kv);
                    }
                    self.keys.insert(i, new_k);
                    proof {
                        let gi = i as int;
                        let kv = ApiKeyV { host_uuid: Some(host@), ..old(self)@[gi] };
                        assert(self@ =~= old(self)@.update(gi, kv));
                        assert forall|a: int, b: int| 0 <= a < b < self@.len() implies self@[a].key
                            != self@[b].key && self@[a].id != self@[b].id by {
                            assert(old(self)@[a].key != old(self)@[b].key);
                        }
                    }
                    BindOutcome::Bound
                }
            },
            None => BindOutcome::NotFound,
        }
    }

    /// Bind the key carrying `token` to `host`, as the registry surfaces it:
    /// an already-bound key and an unknown token both come back as
    /// `AuthorizationError`.
    pub fn bind_host(&mut self, token: &String, host: &String) -> (r: Result<(), ApiError>)
        requires
            old(self).wf(),
        ensures
            final(self).wf(),
            final(self).id_headroom() == old(self).id_headroom(),
            final(self)@ == bind_transition(old(self)@, token@, host@).0,
            r == (match bind_transition(old(self)@, token@, host@).1 {
                BindOutcome::Bound => Ok::<(), ApiError>(()),
                BindOutcome::AlreadyBound => Err::<(), ApiError>(ApiError::AuthorizationError),
                BindOutcome::NotFound => Err::<(), ApiError>(ApiError::AuthorizationError),
            }),
    {
        match self.conditional_bind(token, host) {
            BindOutcome::Bound => Ok(()),
            BindOutcome::AlreadyBound => Err(ApiError::AuthorizationError),
            BindOutcome::NotFound => Err(ApiError::AuthorizationError),
        }
    }

    /// Delete the key carrying `token` when `owner` owns it; a non-owned or
    /// unknown token removes nothing and fails `AuthorizationError`. Returns
    /// the number of rows removed.
    pub fn delete(&mut self, owner: &String, token: &String) -> (r: Result<usize, ApiError>)
        requires
            old(self).wf(),
        ensures
            final(self).wf(),
            final(self).id_headroom() == old(self).id_headroom(),
            (final(self)@, r) == delete_transition(old(self)@, owner@, token@),
    {
        match self.find_index(token) {
            Some(i) => {
                let owned = {
                    let k = &self.keys[i];
                    k.customer_id == *owner
                };
                if owned {
                    self.keys.remove(i);
                    proof {
                        assert(self@ =~= old(self)@.remove(i as int));
                        assert forall|a: int, b: int| 0 <= a < b < self@.len() implies self@[a].key
                            != self@[b].key && self@[a].id != self@[b].id by {
                            let oa = if a < i as int {
                                a
                            } else {
                                a + 1
                            };
                            let ob = if b < i as int {
                                b
                            } else {
                                b + 1
                            };
                            assert(self@[a] == old(self)@[oa]);
                            assert(self@[b] == old(self)@[ob]);
                        }
                    }
                    Ok(1)
                } else {
                    Err(ApiError::AuthorizationError)
                }
            },
            None => Err(ApiError::AuthorizationError),
        }
    }

    /// How many keys `owner` holds.
    pub fn count_owned(&self, owner: &String) -> (r: usize)
        ensures
            r == owned_keys(self@, owner@).len(),
    {
        let n = self.keys.len();
        let mut count: usize = 0;
        let mut i: usize = 0;
        while i < n
            invariant
                n == self@.len(),
                0 <= i <= n,
                count == owned_keys(self@.take(i as int), owner@).len(),
                count <= i,
            decreases n - i,
        {
            proof {
                assert(self@.take(i + 1).drop_last() =~= self@.take(i as int));
                assert(self@.take(i + 1).last() == self@[i as int]);
            }
            let k = &self.keys[i];
            if k.customer_id == *owner {
                count += 1;
            }
            i += 1;
        }
        proof {
            assert(self@.take(n as int) =~= self@);
        }
        count
    }

    /// All keys owned by `owner`, in store order, bounded by the fixed page
    /// size.
    pub fn list(&self, owner: &String) -> (r: Vec<ApiKey>)
        ensures
            r.deep_view() == page_of(owned_keys(self@, owner@), PAGE_SIZE as nat),
    {
        let n = self.keys.len();
        let mut page: Vec<ApiKey> = Vec::new();
        let mut i: usize = 0;
        while i < n
            invariant
                n == self@.len(),
                0 <= i <= n,
                page.deep_view() == page_of(owned_keys(self@.take(i as int), owner@), PAGE_SIZE as nat),
                page.len() <= PAGE_SIZE,
            decreases n - i,
        {
            proof {
                assert(self@.take(i + 1).drop_last() =~= self@.take(i as int));
                assert(self@.take(i + 1).last() == self@[i as int]);
            }
            let k = &self.keys[i];
            if k.customer_id == *owner {
                let ghost prev = owned_keys(self@.take(i as int), owner@);
                let ghost next = owned_keys(self@.take(i + 1), owner@);
                proof {
                    assert(next == prev.push(self@[i as int]));
                }
                if page.len() < PAGE_SIZE {
                    let ghost before = page.deep_view();
                    page.push(k.duplicate());
                    proof {
                        assert(page.deep_view() =~= before.push(self@[i as int]));
                    }
                } else {
                    proof {
                        assert(prev.len() >= PAGE_SIZE);
                        assert(next.take(PAGE_SIZE as int) =~= prev.take(PAGE_SIZE as int));
                        assert(page_of(next, PAGE_SIZE as nat) == page_of(prev, PAGE_SIZE as nat));
                    }
                }
            }
            i += 1;
        }
        proof {
            assert(self@.take(n as int) =~= self@);
        }
        page
    }

    /// Record a new key carrying `token` for `owner`, with the host unset,
    /// after invoking the quota capability: a creation over the limit is
    /// rejected as `InvalidRequest`. A `token` already present is an internal
    /// fault (`ServerError`) and changes nothing, as is exhaustion of the
    /// storage-id space.
    pub fn insert_key(&mut self, owner: &String, token: String, quota: Option<usize>) -> (r: Result<
        ApiKey,
        ApiError,
    >)
        requires
            old(self).wf(),
        ensures
            final(self).wf(),
            quota_blocks(old(self)@, owner@, quota) ==> r == Err::<ApiKey, ApiError>(
                ApiError::InvalidRequest,
            ),
            !quota_blocks(old(self)@, owner@, quota) && has_key(old(self)@, token@) ==> r == Err::<
                ApiKey,
                ApiError,
            >(ApiError::ServerError),
            !quota_blocks(old(self)@, owner@, quota) && !has_key(old(self)@, token@) && old(self).id_headroom() <= 0 ==> r == Err::<ApiKey, ApiError>(ApiError::ServerError),
            !quota_blocks(old(self)@, owner@, quota) && !has_key(old(self)@, token@) && old(self).id_headroom() > 0 ==> r is Ok,
            match r {
                Ok(k) => !quota_blocks(old(self)@, owner@, quota) && !has_key(old(self)@, token@)
                    && k@.key == token@ && k@.customer_id == owner@ && k@.host_uuid is None
                    && k@.plan_tag == "B1"@ && final(self)@ == old(self)@.push(k@) && final(self).id_headroom() == old(self).id_headroom() - 1,
                Err(e) => final(self)@ == old(self)@ && final(self).id_headroom() == old(self).id_headroom() && (e == ApiError::InvalidRequest || e == ApiError::ServerError),
            },
    {
        match quota {
            Some(q) => {
                let c = self.count_owned(owner);
                if c >= q {
                    return Err(ApiError::InvalidRequest);
                }
            },
            None => {},
        }
        if self.find_index(&token).is_some() {
            return Err(ApiError::ServerError);
        }
        if self.next_id == u64::MAX {
            return Err(ApiError::ServerError);
        }
        let id = self.next_id;
        self.next_id = self.next_id + 1;
        let rec = ApiKey {
            id,
            key: token,
            customer_id: owner.clone(),
            host_uuid: None,
            plan_tag: "B1".to_owned(),
        };
        let out = rec.duplicate();
        let ghost kv = rec@;
        self.keys.push(rec);
        proof {
            assert(self@ =~= old(self)@.push(kv));
            assert forall|a: int, b: int| 0 <= a < b < self@.len() implies self@[a].key
                != self@[b].key && self@[a].id != self@[b].id by {
                if b == self@.len() - 1 {
                    assert(self@[a] == old(self)@[a]);
                    assert(!has_key(old(self)@, kv.key));
                    assert(old(self)@[a].id < id);
                }
            }
        }
        Ok(out)
    }

    /// Create a key for `owner`: a fresh random 32-character alphanumeric
    /// token, the host unset, recorded in the store. The token is distinct
    /// from every token the store already holds; the (negligible) chance of
    /// the random source repeating one is treated as an internal fault.
    pub fn create(&mut self, owner: &String, quota: Option<usize>) -> (r: Result<ApiKey, ApiError>)
        requires
            old(self).wf(),
        ensures
            final(self).wf(),
            quota_blocks(old(self)@, owner@, quota) ==> r == Err::<ApiKey, ApiError>(
                ApiError::InvalidRequest,
            ),
            match r {
                Ok(k) => !quota_blocks(old(self)@, owner@, quota) && is_key_token(k@.key)
                    && !has_key(old(self)@, k@.key) && k@.customer_id == owner@ && k@.host_uuid
                    is None && k@.plan_tag == "B1"@ && final(self)@ == old(self)@.push(k@) && final(self).id_headroom() == old(self).id_headroom() - 1,
                Err(e) => final(self)@ == old(self)@ && final(self).id_headroom() == old(self).id_headroom() && (e == ApiError::InvalidRequest || e == ApiError::ServerError),
            },
    {
        let token = random_key_token();
        self.insert_key(owner, token, quota)
    }
}

/// Relies on rand: `Alphanumeric.sample_string` on the thread-local
/// cryptographically secure generator draws characters uniformly from
/// a-z, A-Z, 0-9.
#[verifier::external_body]
fn random_key_token() -> (r: String)
    ensures
        is_key_token(r@),
{
    rand::distr::Alphanumeric.sample_string(&mut rand::rng(), 32)
}

/// Law: a key binds to a host at most once. On contents where the key
/// carrying `token` has its host unset, binding `h1` and then `h2` — the
/// serialization the storage collaborator gives two concurrent bindings —
/// has the first succeed and the second fail, whatever `h2` is; afterwards
/// the key is bound to `h1` and the contents never change again on that
/// token's account.
pub proof fn lemma_bind_host_at_most_once(
    ks: Seq<ApiKeyV>,
    token: Seq<char>,
    h1: Seq<char>,
    h2: Seq<char>,
)
    requires
        keys_wf(ks),
        has_key(ks, token),
        key_with_token(ks, token).host_uuid is None,
    ensures
        ({
            let (ks1, r1) = bind_transition(ks, token, h1);
            let (ks2, r2) = bind_transition(ks1, token, h2);
            &&& r1 == BindOutcome::Bound
            &&& r2 == BindOutcome::AlreadyBound
            &&& ks2 == ks1
            &&& has_key(ks1, token)
            &&& key_with_token(ks1, token).host_uuid == Some(h1)
        }),
{
    let i = key_index(ks, token);
    let kv = ApiKeyV { host_uuid: Some(h1), ..ks[i] };
    let ks1 = ks.update(i, kv);
    assert(0 <= i < ks.len() && ks[i].key == token);
    assert(ks1[i].key == token);
    assert(has_key(ks1, token));
    let j = key_index(ks1, token);
    assert(0 <= j < ks1.len() && ks1[j].key == token);
    if i != j {
        assert(ks[j].key == ks1[j].key);
        assert(ks[i].key != ks[j].key);
    }
    assert(j == i);
    assert(key_with_token(ks1, token).host_uuid == Some(h1));
}

} // verus!

//! The store of authorizations that wait for their callback, keyed by the
//! anti-forgery token of each attempt. Each entry is consumed at most once,
//! and entries whose time has run out are refused and evicted.
use vstd::prelude::*;
use crate::webhook::Webhook;

verus! {

/// How long an authorization may wait for its callback, in seconds.
pub const PENDING_TTL_SECS: u64 = 600;

/// The deadline of an entry stored at `now`, saturating at the largest time.
pub open spec fn deadline_after(now: u64) -> u64 {
    if now > u64::MAX - PENDING_TTL_SECS {
        u64::MAX
    } else {
        (now + PENDING_TTL_SECS) as u64
    }
}

/// Why no webhook came back for a token.
#[derive(Debug, Clone, Copy, PartialEq, Eq, Structural)]
pub enum TakeError {
    /// No authorization waits under this token.
    NotFound,
    /// The authorization under this token waited past its deadline.
    Expired,
}

/// The token is already in use: the entry was not stored.
#[derive(Debug, Clone, Copy, PartialEq, Eq, Structural)]
pub enum PutError {
    DuplicateToken,
}

/// What a store holds, by token: the webhook's address and the deadline.
pub type PendingMap = Map<Seq<char>, (Seq<char>, u64)>;

/// The store after `put`, and whether the entry was stored.
pub open spec fn put_spec(m: PendingMap, token: Seq<char>, webhook: Seq<char>, now: u64) -> (PendingMap, bool) {
    if m.contains_key(token) {
        (m, false)
    } else {
        (m.insert(token, (webhook, deadline_after(now))), true)
    }
}

/// The store after `take_and_remove`, and the address that came back or the error.
pub open spec fn take_spec(m: PendingMap, token: Seq<char>, now: u64) -> (PendingMap, Result<Seq<char>, TakeError>) {
    if !m.contains_key(token) {
        (m, Err(TakeError::NotFound))
    } else if now < m[token].1 {
        (m.remove(token), Ok(m[token].0))
    } else {
        (m.remove(token), Err(TakeError::Expired))
    }
}

/// The entries of a store whose deadline is still ahead at `now`.
pub open spec fn unexpired(m: PendingMap, now: u64) -> PendingMap {
    m.restrict(m.dom().filter(|k: Seq<char>| now < m[k].1))
}

/// The view of what `take_and_remove` returned.
pub open spec fn taken_view(r: Result<Webhook, TakeError>) -> Result<Seq<char>, TakeError> {
    match r {
        Ok(w) => Ok(w@),
        Err(e) => Err(e),
    }
}

struct PendingEntry {
    token: String,
    webhook: Webhook,
    deadline: u64,
}

/// Authorizations that wait for their callback, by anti-forgery token.
pub struct PendingAuthorizationStore {
    entries: Vec<PendingEntry>,
    pending: Ghost<PendingMap>,
}

impl View for PendingAuthorizationStore {
    type V = PendingMap;

    closed spec fn view(&self) -> PendingMap {
        self.pending@
    }
}

impl PendingAuthorizationStore {
    spec fn token_at(&self, i: int) -> Seq<char> {
        self.entries@[i].token@
    }

    /// The entries and the map agree, one entry per token.
    pub closed spec fn wf(&self) -> bool {
        &&& forall|i: int, j: int|
            0 <= i < j < self.entries.len() ==> #[trigger] self.token_at(i) != #[trigger] self.token_at(j)
        &&& forall|i: int|
            0 <= i < self.entries.len() ==> {
                &&& self.pending@.contains_key(#[trigger] self.token_at(i))
                &&& self.pending@[self.token_at(i)] == (self.entries@[i].webhook@, self.entries@[i].deadline)
            }
        &&& forall|k: Seq<char>|
            #[trigger] self.pending@.contains_key(k) ==> exists|i: int|
                0 <= i < self.entries.len() && self.token_at(i) == k
        &&& self.pending@.dom().finite()
        &&& self.pending@.dom().len() == self.entries.len()
    }

    /// An empty store.
    pub fn new() -> (r: Self)
        ensures
            r.wf(),
            r@ == PendingMap::empty(),
    {
        PendingAuthorizationStore { entries: Vec::new(), pending: Ghost(PendingMap::empty()) }
    }

    /// How many authorizations wait.
    pub fn len(&self) -> (r: usize)
        requires
            self.wf(),
        ensures
            r == self@.len(),
    {
        self.entries.len()
    }

    fn find(&self, token: &String) -> (r: Option<usize>)
        requires
            self.wf(),
        ensures
            match r {
                Some(i) => i < self.entries.len() && self.token_at(i as int) == token@,
                None => !self@.contains_key(token@),
            },
    {
        let mut i: usize = 0;
        while i < self.entries.len()
            invariant
                self.wf(),
                i <= self.entries.len(),
                forall|j: int| 0 <= j < i ==> self.token_at(j) != token@,
            decreases self.entries.len() - i,
        {
            if self.entries[i].token == *token {
                return Some(i);
            }
            i += 1;
        }
        None
    }

    /// Whether an authorization waits under `token`.
    pub fn contains(&self, token: &str) -> (r: bool)
        requires
            self.wf(),
        ensures
            r == self@.contains_key(token@),
    {
        let t = String::from_str(token);
        self.find(&t).is_some()
    }

    fn remove_at(&mut self, i: usize) -> (e: PendingEntry)
        requires
            old(self).wf(),
            i < old(self).entries.len(),
        ensures
            final(self).wf(),
            e == old(self).entries@[i as int],
            final(self).entries@ == old(self).entries@.remove(i as int),
            final(self)@ == old(self)@.remove(e.token@),
    {
        let ghost pre = *self;
        let ghost removed = self.token_at(i as int);
        let e = self.entries.remove(i);
        self.pending = Ghost(self.pending@.remove(removed));
        proof {
            assert forall|k: Seq<char>| #[trigger] self.pending@.contains_key(k) implies exists|j: int|
                0 <= j < self.entries.len() && self.token_at(j) == k by {
                let j = choose|j: int| 0 <= j < pre.entries.len() && pre.token_at(j) == k;
                if j < i {
                    assert(self.entries@[j] == pre.entries@[j]);
                    assert(self.token_at(j) == k);
                } else {
                    assert(j != i);
                    assert(self.entries@[j - 1] == pre.entries@[j]);
                    assert(self.token_at(j - 1) == k);
                }
            }
            assert forall|a: int| 0 <= a < self.entries.len() implies {
                &&& self.pending@.contains_key(#[trigger] self.token_at(a))
                &&& self.pending@[self.token_at(a)] == (self.entries@[a].webhook@, self.entries@[a].deadline)
            } by {
                let b = if a < i { a } else { a + 1 };
                assert(self.entries@[a] == pre.entries@[b]);
                assert(pre.token_at(b) != pre.token_at(i as int));
                assert(pre.pending@.contains_key(pre.token_at(b)));
            }
            assert forall|a: int, c: int| 0 <= a < c < self.entries.len() implies
                #[trigger] self.token_at(a) != #[trigger] self.token_at(c) by {
                let a1 = if a < i { a } else { a + 1 };
                let c1 = if c < i { c } else { c + 1 };
                assert(self.entries@[a] == pre.entries@[a1]);
                assert(self.entries@[c] == pre.entries@[c1]);
                assert(pre.token_at(a1) != pre.token_at(c1));
            }
        }
        e
    }

    /// Stores `webhook` under `token`, with a deadline `PENDING_TTL_SECS` after
    /// `now`. A token already in use is refused and the store is left as it was.
    pub fn put(&mut self, token: String, webhook: Webhook, now: u64) -> (r: Result<(), PutError>)
        requires
            old(self).wf(),
        ensures
            final(self).wf(),
            (final(self)@, r is Ok) == put_spec(old(self)@, token@, webhook@, now),
            r is Err ==> r == Err::<(), PutError>(PutError::DuplicateToken),
    {
        if self.find(&token).is_some() {
            return Err(PutError::DuplicateToken);
        }
        let deadline = if now > u64::MAX - PENDING_TTL_SECS {
            u64::MAX
        } else {
            now + PENDING_TTL_SECS
        };
        let ghost pre = *self;
        let ghost key = token@;
        let ghost value = (webhook@, deadline);
        self.entries.push(PendingEntry { token, webhook, deadline });
        self.pending = Ghost(self.pending@.insert(key, value));
        proof {
            let last = self.entries.len() - 1;
            assert(self.token_at(last) == key);
            assert forall|k: Seq<char>| #[trigger] self.pending@.contains_key(k) implies exists|j: int|
                0 <= j < self.entries.len() && self.token_at(j) == k by {
                if k != key {
                    let j = choose|j: int| 0 <= j < pre.entries.len() && pre.token_at(j) == k;
                    assert(self.entries@[j] == pre.entries@[j]);
                    assert(self.token_at(j) == k);
                }
            }
            assert forall|a: int| 0 <= a < self.entries.len() implies {
                &&& self.pending@.contains_key(#[trigger] self.token_at(a))
                &&& self.pending@[self.token_at(a)] == (self.entries@[a].webhook@, self.entries@[a].deadline)
            } by {
                if a < last {
                    assert(self.entries@[a] == pre.entries@[a]);
                    assert(pre.pending@.contains_key(pre.token_at(a)));
                }
            }
            assert forall|a: int, c: int| 0 <= a < c < self.entries.len() implies
                #[trigger] self.token_at(a) != #[trigger] self.token_at(c) by {
                assert(self.entries@[a] == pre.entries@[a]);
                assert(pre.pending@.contains_key(pre.token_at(a)));
                if c < last {
                    assert(self.entries@[c] == pre.entries@[c]);
                    assert(pre.token_at(a) != pre.token_at(c));
                }
            }
        }
        Ok(())
    }

    /// Takes the authorization stored under `token` out of the store, in one
    /// step: a token is consumed at most once. A token that is not there is
    /// `NotFound`; one whose deadline has come is removed and `Expired`.
    pub fn take_and_remove(&mut self, token: &str, now: u64) -> (r: Result<Webhook, TakeError>)
        requires
            old(self).wf(),
        ensures
            final(self).wf(),
            (final(self)@, taken_view(r)) == take_spec(old(self)@, token@, now),
    {
        let t = String::from_str(token);
        match self.find(&t) {
            None => Err(TakeError::NotFound),
            Some(i) => {
                let e = self.remove_at(i);
                if now < e.deadline {
                    Ok(e.webhook)
                } else {
                    Err(TakeError::Expired)
                }
            },
        }
    }

    /// Removes every authorization whose deadline has come by `now`.
    pub fn evict_expired(&mut self, now: u64)
        requires
            old(self).wf(),
        ensures
            final(self).wf(),
            final(self)@ == unexpired(old(self)@, now),
    {
        let ghost old_map = self.pending@;
        let mut i: usize = 0;
        while i < self.entries.len()
            invariant
                self.wf(),
                i <= self.entries.len(),
                forall|j: int| 0 <= j < i ==> now < #[trigger] self.entries@[j].deadline,
                forall|k: Seq<char>| #[trigger] self.pending@.contains_key(k)
                    ==> old_map.contains_key(k) && self.pending@[k] == old_map[k],
                forall|k: Seq<char>| old_map.contains_key(k) && now < old_map[k].1
                    ==> #[trigger] self.pending@.contains_key(k),
            decreases self.entries.len() - i,
        {
            if now >= self.entries[i].deadline {
                let ghost entries_before = self.entries@;
                assert(self.pending@[self.token_at(i as int)].1 == self.entries@[i as int].deadline);
                let _ = self.remove_at(i);
                assert forall|j: int| 0 <= j < i implies now < #[trigger] self.entries@[j].deadline by {
                    assert(self.entries@[j] == entries_before[j]);
                }
            } else {
                i += 1;
            }
        }
        proof {
            assert forall|k: Seq<char>| #[trigger] self.pending@.contains_key(k) implies now < old_map[k].1 by {
                let j = choose|j: int| 0 <= j < self.entries.len() && self.token_at(j) == k;
                assert(now < self.entries@[j].deadline);
            }
            assert(self.pending@ =~= unexpired(old_map, now));
        }
    }
}

} // verus!

use vstd::prelude::*;

verus! {

#[verifier::external_type_specification]
#[verifier::external_body]
pub struct ExValue(serde_json::Value);

/// The expiration window the application's cache is built with, in seconds.
pub const DEFAULT_TTL_SECONDS: u64 = 300;

/// Milliseconds since `written_at`, or zero where the clock went backwards.
pub open spec fn elapsed_millis(written_at: u64, now: u64) -> int {
    if now >= written_at {
        now - written_at
    } else {
        0
    }
}

/// An entry written at `written_at` may still be read at `now`.
pub open spec fn is_fresh(written_at: u64, now: u64, ttl_seconds: u64) -> bool {
    elapsed_millis(written_at, now) < ttl_seconds * 1000
}

/// One stored value, with the time (milliseconds since the Unix epoch) at
/// which it was written.
pub struct CacheEntry {
    pub key: String,
    pub written_at: u64,
    pub value: serde_json::Value,
}

/// A key-to-value store whose entries are read only within a fixed window
/// after they were written. Stale entries stay until overwritten or cleared.
pub struct Cache {
    entries: Vec<CacheEntry>,
    ttl_seconds: u64,
    model: Ghost<Map<Seq<char>, (u64, serde_json::Value)>>,
}

/// Relies on std::time::SystemTime::now and its duration_since the Unix
/// epoch: the wall-clock time in milliseconds, zero for a clock set before
/// the epoch.
#[verifier::external_body]
fn clock_millis() -> (r: u64) {
    match std::time::SystemTime::now().duration_since(std::time::UNIX_EPOCH) {
        Ok(d) => d.as_millis() as u64,
        Err(_) => 0,
    }
}

impl View for Cache {
    type V = Map<Seq<char>, (u64, serde_json::Value)>;

    /// Each key's write time and value.
    closed spec fn view(&self) -> Self::V {
        self.model@
    }
}

impl Cache {
    /// The expiration window, in seconds.
    pub closed spec fn ttl(&self) -> u64 {
        self.ttl_seconds
    }

    /// The entries hold each key once, and the model is exactly what they hold.
    pub closed spec fn wf(&self) -> bool {
        &&& forall|i: int, j: int|
            0 <= i < j < self.entries@.len() ==> self.entries@[i].key@ != self.entries@[j].key@
        &&& forall|i: int|
            #![trigger self.entries@[i]]
            0 <= i < self.entries@.len() ==> {
                &&& self.model@.contains_key(self.entries@[i].key@)
                &&& self.model@[self.entries@[i].key@] == (
                    self.entries@[i].written_at,
                    self.entries@[i].value,
                )
            }
        &&& forall|k: Seq<char>|
            #[trigger] self.model@.contains_key(k) ==> exists|i: int|
                0 <= i < self.entries@.len() && self.entries@[i].key@ == k
    }

    /// An empty cache whose entries expire `ttl_seconds` after being written.
    pub fn new(ttl_seconds: u64) -> (r: Cache)
        ensures
            r.wf(),
            r@ == Map::<Seq<char>, (u64, serde_json::Value)>::empty(),
            r.ttl() == ttl_seconds,
    {
        Cache { entries: Vec::new(), ttl_seconds, model: Ghost(Map::empty()) }
    }

    /// The position of `key` among the entries, if it is there.
    fn find(&self, key: &str) -> (r: Option<usize>)
        requires
            self.wf(),
        ensures
            r is None <==> !self@.contains_key(key@),
            r matches Some(i) ==> i < self.entries@.len() && self.entries@[i as int].key@ == key@,
    {
        let k = String::from_str(key);
        let mut i: usize = 0;
        while i < self.entries.len()
            invariant
                self.wf(),
                k@ == key@,
                0 <= i <= self.entries@.len(),
                forall|j: int| 0 <= j < i ==> self.entries@[j].key@ != key@,
            decreases self.entries@.len() - i,
        {
            if self.entries[i].key == k {
                return Some(i);
            }
            i = i + 1;
        }
        None
    }

    /// The value stored under `key`, if it was written less than the window
    /// before `now` (milliseconds since the Unix epoch).
    pub fn get_at(&self, key: &str, now: u64) -> (r: Option<&serde_json::Value>)
        requires
            self.wf(),
        ensures
            r is Some <==> (self@.contains_key(key@) && is_fresh(
                self@[key@].0,
                now,
                self.ttl(),
            )),
            r matches Some(v) ==> *v == self@[key@].1,
    {
        match self.find(key) {
            None => None,
            Some(i) => {
                let e = &self.entries[i];
                let elapsed: u64 = if now >= e.written_at {
                    now - e.written_at
                } else {
                    0
                };
                let ttl = self.ttl_seconds;
                assert(elapsed / 1000 < ttl <==> elapsed < ttl * 1000) by (nonlinear_arith);
                if elapsed / 1000 < ttl {
                    Some(&e.value)
                } else {
                    None
                }
            },
        }
    }

    /// The value stored under `key`, if it is still fresh by the wall clock.
    pub fn get(&self, key: &str) -> (r: Option<&serde_json::Value>)
        requires
            self.wf(),
        ensures
            r matches Some(v) ==> self@.contains_key(key@) && *v == self@[key@].1,
            !self@.contains_key(key@) ==> r is None,
    {
        let now = clock_millis();
        self.get_at(key, now)
    }

    /// Stores `value` under `key` as written at `now`, replacing any entry
    /// of that key.
    pub fn set_at(&mut self, key: String, value: serde_json::Value, now: u64)
        requires
            old(self).wf(),
        ensures
            final(self).wf(),
            final(self)@ == old(self)@.insert(key@, (now, value)),
            final(self).ttl() == old(self).ttl(),
    {
        let ghost k = key@;
        let ghost v = value;
        let ghost m = self.model@;
        let found = self.find(key.as_str());
        let entry = CacheEntry { key, written_at: now, value };
        match found {
            Some(i) => {
                self.entries[i] = entry;
            },
            None => {
                self.entries.push(entry);
            },
        }
        self.model = Ghost(m.insert(k, (now, v)));
        assert forall|q: Seq<char>| #[trigger] self.model@.contains_key(q) implies exists|j: int|
            0 <= j < self.entries@.len() && self.entries@[j].key@ == q by {
            if q == k {
                match found {
                    Some(i) => assert(self.entries@[i as int].key@ == q),
                    None => assert(self.entries@[self.entries@.len() - 1].key@ == q),
                }
            } else {
                assert(m.contains_key(q));
                let j = choose|j: int| 0 <= j < old(self).entries@.len() && old(self).entries@[j].key@ == q;
                assert(self.entries@[j] == old(self).entries@[j]);
            }
        }
    }

    /// Stores `value` under `key`, written now by the wall clock.
    pub fn set(&mut self, key: String, value: serde_json::Value)
        requires
            old(self).wf(),
        ensures
            final(self).wf(),
            exists|t: u64| final(self)@ == old(self)@.insert(key@, (t, value)),
            final(self).ttl() == old(self).ttl(),
    {
        let now = clock_millis();
        self.set_at(key, value, now);
    }

    /// Removes every entry, whatever its age.
    pub fn clear(&mut self)
        requires
            old(self).wf(),
        ensures
            final(self).wf(),
            final(self)@ == Map::<Seq<char>, (u64, serde_json::Value)>::empty(),
            final(self).ttl() == old(self).ttl(),
    {
        self.entries.clear();
        self.model = Ghost(Map::empty());
    }
}

/// A value just written under a key is read back at once, provided the
/// window is not empty.
pub proof fn lemma_set_then_get(c: Cache, key: Seq<char>, value: serde_json::Value, now: u64)
    requires
        c.ttl() > 0,
    ensures
        c@.insert(key, (now, value)).contains_key(key),
        c@.insert(key, (now, value))[key] == (now, value),
        is_fresh(now, now, c.ttl()),
{
}

/// Once the window has passed since an entry was written, it is no longer
/// read.
pub proof fn lemma_expired_not_read(written_at: u64, now: u64, ttl_seconds: u64)
    requires
        now >= written_at + ttl_seconds * 1000,
    ensures
        !is_fresh(written_at, now, ttl_seconds),
{
}

/// After a clear no key is read back, however recently it was written.
pub proof fn lemma_clear_forgets(c: Cache, key: Seq<char>)
    requires
        c@ == Map::<Seq<char>, (u64, serde_json::Value)>::empty(),
    ensures
        !c@.contains_key(key),
{
}

} // verus!

use vstd::prelude::*;

use crate::text::{ascii_lowercase, lower_seq};

verus! {

/// How long a username's UUID is kept: 6 hours, in milliseconds.
pub const USERNAME_TTL_MS: u64 = 21_600_000;

/// How long a UUID's skin URL is kept: 30 minutes, in milliseconds.
pub const SKIN_URL_TTL_MS: u64 = 1_800_000;

/// How long a rendered PNG is kept: 30 minutes, in milliseconds.
pub const RENDERED_PNG_TTL_MS: u64 = 1_800_000;

/// A cache key compared by its view.
pub trait CacheKey: View + Sized {
    fn same_key(&self, other: &Self) -> (b: bool)
        ensures
            b == (self@ == other@);
}

/// A cached value, handed out as a copy with the same view.
pub trait CacheValue: View + Sized {
    fn duplicate(&self) -> (r: Self)
        ensures
            r@ == self@;
}

impl CacheKey for String {
    fn same_key(&self, other: &Self) -> (b: bool) {
        *self == *other
    }
}

impl CacheValue for String {
    fn duplicate(&self) -> (r: Self) {
        self.clone()
    }
}

impl CacheValue for Vec<u8> {
    fn duplicate(&self) -> (r: Self) {
        let r = self.clone();
        assert(r@ =~= self@);
        r
    }
}

/// Key of a rendered PNG: the skin it was rendered from and its size.
#[derive(Debug, Clone)]
pub struct RenderedKey {
    pub skin_url: String,
    pub size: u32,
}

impl View for RenderedKey {
    type V = (Seq<char>, u32);

    open spec fn view(&self) -> (Seq<char>, u32) {
        (self.skin_url@, self.size)
    }
}

impl CacheKey for RenderedKey {
    fn same_key(&self, other: &Self) -> (b: bool) {
        self.size == other.size && self.skin_url == other.skin_url
    }
}

/// A cached value and the time, in milliseconds, from which it is stale.
pub struct CacheEntry<K, V> {
    pub key: K,
    pub value: V,
    pub expires_at: u64,
}

/// The entries of `m` that are still fresh at time `now`.
pub open spec fn fresh_entries<K, V>(m: Map<K, (V, u64)>, now: u64) -> Map<K, (V, u64)> {
    Map::new(|k: K| m.contains_key(k) && m[k].1 > now, |k: K| m[k])
}

/// The cache after storing `value` under `key` at time `now` with lifetime `ttl`:
/// stale entries are dropped and the key (re)inserted.
pub open spec fn cache_after_set<K, V>(m: Map<K, (V, u64)>, key: K, value: V, now: u64, ttl: u64) -> Map<
    K,
    (V, u64),
> {
    fresh_entries(m, now).insert(key, (value, (now + ttl) as u64))
}

/// What a lookup of `key` at time `now` answers: the value while it is fresh.
pub open spec fn cache_get<K, V>(m: Map<K, (V, u64)>, key: K, now: u64) -> Option<V> {
    if m.contains_key(key) && m[key].1 > now {
        Some(m[key].0)
    } else {
        None
    }
}

/// The cache after a lookup of `key` at time `now`: a stale entry for the key is removed.
pub open spec fn cache_after_get<K, V>(m: Map<K, (V, u64)>, key: K, now: u64) -> Map<K, (V, u64)> {
    if m.contains_key(key) && m[key].1 <= now {
        m.remove(key)
    } else {
        m
    }
}

/// An in-memory map whose entries expire; time is passed in by the caller, in
/// milliseconds on a clock that does not go back.
pub struct TtlCache<K: CacheKey, V: CacheValue> {
    entries: Vec<CacheEntry<K, V>>,
}

pub open spec fn keys_unique<K: View, V>(s: Seq<CacheEntry<K, V>>) -> bool {
    forall|i: int, j: int|
        0 <= i < s.len() && 0 <= j < s.len() && i != j ==> #[trigger] s[i].key@ != #[trigger] s[j].key@
}

pub open spec fn has_key<K: View, V>(s: Seq<CacheEntry<K, V>>, k: K::V) -> bool {
    exists|i: int| 0 <= i < s.len() && #[trigger] s[i].key@ == k
}

pub open spec fn entry_for<K: View, V: View>(s: Seq<CacheEntry<K, V>>, k: K::V) -> (V::V, u64) {
    let i = choose|i: int| 0 <= i < s.len() && #[trigger] s[i].key@ == k;
    (s[i].value@, s[i].expires_at)
}

/// The map from key views to value views and expiry times that the entries hold.
pub open spec fn entries_map<K: View, V: View>(s: Seq<CacheEntry<K, V>>) -> Map<K::V, (V::V, u64)> {
    Map::new(|k: K::V| has_key(s, k), |k: K::V| entry_for(s, k))
}

proof fn lemma_entry_for_at<K: View, V: View>(s: Seq<CacheEntry<K, V>>, i: int)
    requires
        keys_unique(s),
        0 <= i < s.len(),
    ensures
        has_key(s, s[i].key@),
        entry_for(s, s[i].key@) == (s[i].value@, s[i].expires_at),
{
    let k = s[i].key@;
    assert(has_key(s, k));
    let j = choose|j: int| 0 <= j < s.len() && #[trigger] s[j].key@ == k;
    if j != i {
        assert(s[i].key@ != s[j].key@);
    }
}

proof fn lemma_push_entry<K: View, V: View>(s: Seq<CacheEntry<K, V>>, e: CacheEntry<K, V>)
    requires
        keys_unique(s),
        !has_key(s, e.key@),
    ensures
        keys_unique(s.push(e)),
        entries_map(s.push(e)) =~= entries_map(s).insert(e.key@, (e.value@, e.expires_at)),
{
    let t = s.push(e);
    assert forall|i: int, j: int|
        0 <= i < t.len() && 0 <= j < t.len() && i != j implies #[trigger] t[i].key@
        != #[trigger] t[j].key@ by {
        if i < s.len() && j < s.len() {
            assert(t[i] == s[i] && t[j] == s[j]);
        } else if i < s.len() {
            assert(t[i] == s[i]);
        } else {
            assert(t[j] == s[j]);
        }
    }
    assert forall|k: K::V| #[trigger] entries_map(t).contains_key(k) <==> entries_map(s).insert(
        e.key@,
        (e.value@, e.expires_at),
    ).contains_key(k) by {
        if has_key(s, k) {
            let i = choose|i: int| 0 <= i < s.len() && #[trigger] s[i].key@ == k;
            assert(t[i].key@ == k);
        }
        if has_key(t, k) && k != e.key@ {
            let i = choose|i: int| 0 <= i < t.len() && #[trigger] t[i].key@ == k;
            assert(i < s.len());
            assert(s[i].key@ == k);
        }
        assert(t[s.len() as int].key@ == e.key@);
    }
    assert forall|k: K::V| #[trigger] entries_map(t).contains_key(k) implies entries_map(t)[k]
        == entries_map(s).insert(e.key@, (e.value@, e.expires_at))[k] by {
        if k == e.key@ {
            lemma_entry_for_at(t, s.len() as int);
        } else {
            let i = choose|i: int| 0 <= i < t.len() && #[trigger] t[i].key@ == k;
            assert(i < s.len());
            lemma_entry_for_at(t, i);
            lemma_entry_for_at(s, i);
        }
    }
}

proof fn lemma_remove_entry<K: View, V: View>(s: Seq<CacheEntry<K, V>>, i: int)
    requires
        keys_unique(s),
        0 <= i < s.len(),
    ensures
        keys_unique(s.remove(i)),
        entries_map(s.remove(i)) =~= entries_map(s).remove(s[i].key@),
{
    let t = s.remove(i);
    let ki = s[i].key@;
    assert forall|a: int, b: int|
        0 <= a < t.len() && 0 <= b < t.len() && a != b implies #[trigger] t[a].key@
        != #[trigger] t[b].key@ by {
        let sa = if a < i { a } else { a + 1 };
        let sb = if b < i { b } else { b + 1 };
        assert(t[a] == s[sa] && t[b] == s[sb]);
    }
    assert forall|k: K::V| #[trigger] entries_map(t).contains_key(k) <==> entries_map(s).remove(
        ki,
    ).contains_key(k) by {
        if has_key(t, k) {
            let a = choose|a: int| 0 <= a < t.len() && #[trigger] t[a].key@ == k;
            let sa = if a < i { a } else { a + 1 };
            assert(s[sa].key@ == k);
            assert(sa != i);
        }
        if has_key(s, k) && k != ki {
            let a = choose|a: int| 0 <= a < s.len() && #[trigger] s[a].key@ == k;
            assert(a != i);
            let ta = if a < i { a } else { a - 1 };
            assert(t[ta].key@ == k);
        }
    }
    assert forall|k: K::V| #[trigger] entries_map(t).contains_key(k) implies entries_map(t)[k]
        == entries_map(s).remove(ki)[k] by {
        let a = choose|a: int| 0 <= a < t.len() && #[trigger] t[a].key@ == k;
        let sa = if a < i { a } else { a + 1 };
        lemma_entry_for_at(t, a);
        lemma_entry_for_at(s, sa);
    }
}

proof fn lemma_no_key_empty<K: View, V: View>(s: Seq<CacheEntry<K, V>>)
    requires
        s.len() == 0,
    ensures
        keys_unique(s),
        entries_map(s) =~= Map::<K::V, (V::V, u64)>::empty(),
{
}

impl<K: CacheKey, V: CacheValue> TtlCache<K, V> {
    #[verifier::type_invariant]
    spec fn keys_are_unique(self) -> bool {
        keys_unique(self.entries@)
    }

    /// Key views mapped to value views and expiry times.
    pub closed spec fn view_map(self) -> Map<K::V, (V::V, u64)> {
        entries_map(self.entries@)
    }

    pub fn new() -> (c: Self)
        ensures
            c.view_map() == Map::<K::V, (V::V, u64)>::empty(),
    {
        let c = TtlCache { entries: Vec::new() };
        proof {
            lemma_no_key_empty(c.entries@);
        }
        c
    }

    fn position(&self, key: &K) -> (r: Option<usize>)
        ensures
            r matches Some(i) ==> i < self.entries@.len() && self.entries@[i as int].key@ == key@,
            r is None ==> !has_key(self.entries@, key@),
    {
        let mut i: usize = 0;
        while i < self.entries.len()
            invariant
                i <= self.entries@.len(),
                forall|j: int| 0 <= j < i ==> #[trigger] self.entries@[j].key@ != key@,
            decreases self.entries@.len() - i,
        {
            if self.entries[i].key.same_key(key) {
                return Some(i);
            }
            i = i + 1;
        }
        None
    }

    /// The value stored under `key` while it is fresh at `now`; a stale entry
    /// for the key is dropped.
    pub fn get(&mut self, key: &K, now: u64) -> (r: Option<V>)
        ensures
            match cache_get(old(self).view_map(), key@, now) {
                Some(v) => r matches Some(x) && x@ == v,
                None => r is None,
            },
            final(self).view_map() == cache_after_get(old(self).view_map(), key@, now),
    {
        proof {
            use_type_invariant(&*self);
        }
        match self.position(key) {
            None => {
                assert(!self.view_map().contains_key(key@));
                None
            },
            Some(i) => {
                proof {
                    lemma_entry_for_at(self.entries@, i as int);
                }
                if self.entries[i].expires_at > now {
                    Some(self.entries[i].value.duplicate())
                } else {
                    let mut entries: Vec<CacheEntry<K, V>> = Vec::new();
                    std::mem::swap(&mut entries, &mut self.entries);
                    proof {
                        lemma_remove_entry(entries@, i as int);
                    }
                    let _stale = entries.remove(i);
                    self.entries = entries;
                    None
                }
            },
        }
    }

    /// Stores `value` under `key` until `now + ttl`, first dropping every entry
    /// that is stale at `now`.
    pub fn set(&mut self, key: K, value: V, now: u64, ttl: u64)
        requires
            now + ttl <= u64::MAX,
        ensures
            final(self).view_map() == cache_after_set(
                old(self).view_map(),
                key@,
                value@,
                now,
                ttl,
            ),
    {
        proof {
            use_type_invariant(&*self);
        }
        let ghost m0 = self.view_map();
        let mut pending: Vec<CacheEntry<K, V>> = Vec::new();
        std::mem::swap(&mut pending, &mut self.entries);
        let ghost orig = pending@;
        let mut kept: Vec<CacheEntry<K, V>> = Vec::new();
        while pending.len() > 0
            invariant
                keys_unique(orig),
                m0 == entries_map(orig),
                pending@.len() <= orig.len(),
                pending@ == orig.subrange(0, pending@.len() as int),
                keys_unique(kept@),
                forall|k: K::V|
                    #![trigger entries_map(kept@).contains_key(k)]
                    entries_map(kept@).contains_key(k) <==> (k != key@ && exists|j: int|
                        pending@.len() <= j < orig.len() && #[trigger] orig[j].key@ == k
                            && orig[j].expires_at > now),
                forall|k: K::V|
                    #[trigger] entries_map(kept@).contains_key(k) ==> entries_map(kept@)[k]
                        == m0[k],
            decreases pending@.len(),
        {
            let ghost n = pending@.len();
            let e = pending.pop().unwrap();
            assert(e == orig[n - 1]);
            proof {
                lemma_entry_for_at(orig, n - 1);
                if entries_map(kept@).contains_key(e.key@) {
                    let j = choose|j: int|
                        pending@.len() + 1 <= j < orig.len() && #[trigger] orig[j].key@ == e.key@
                            && orig[j].expires_at > now;
                    assert(orig[j].key@ != orig[n - 1].key@);
                }
                assert(!has_key(kept@, e.key@));
            }
            if e.expires_at > now && !e.key.same_key(&key) {
                let ghost before = kept@;
                proof {
                    lemma_push_entry(kept@, e);
                }
                kept.push(e);
                proof {
                    assert(kept@ == before.push(e));
                    assert forall|k: K::V|
                        #![trigger entries_map(kept@).contains_key(k)]
                        entries_map(kept@).contains_key(k) <==> (k != key@ && exists|j: int|
                            pending@.len() <= j < orig.len() && #[trigger] orig[j].key@ == k
                                && orig[j].expires_at > now) by {
                        if k == orig[n - 1].key@ {
                            assert(orig[n - 1].key@ == k);
                        } else if entries_map(before).contains_key(k) {
                            let j = choose|j: int|
                                pending@.len() + 1 <= j < orig.len() && #[trigger] orig[j].key@ == k
                                    && orig[j].expires_at > now;
                            assert(orig[j].key@ == k);
                        } else if k != key@ && exists|j: int|
                            pending@.len() <= j < orig.len() && #[trigger] orig[j].key@ == k
                                && orig[j].expires_at > now {
                            let j = choose|j: int|
                                pending@.len() <= j < orig.len() && #[trigger] orig[j].key@ == k
                                    && orig[j].expires_at > now;
                            assert(j != n - 1);
                            assert(entries_map(before).contains_key(k));
                        }
                    }
                }
            } else {
                proof {
                    assert forall|k: K::V|
                        #![trigger entries_map(kept@).contains_key(k)]
                        entries_map(kept@).contains_key(k) <==> (k != key@ && exists|j: int|
                            pending@.len() <= j < orig.len() && #[trigger] orig[j].key@ == k
                                && orig[j].expires_at > now) by {
                        if entries_map(kept@).contains_key(k) {
                            let j = choose|j: int|
                                pending@.len() + 1 <= j < orig.len() && #[trigger] orig[j].key@ == k
                                    && orig[j].expires_at > now;
                            assert(orig[j].key@ == k);
                        }
                        if k != key@ && exists|j: int|
                            pending@.len() <= j < orig.len() && #[trigger] orig[j].key@ == k
                                && orig[j].expires_at > now {
                            let j = choose|j: int|
                                pending@.len() <= j < orig.len() && #[trigger] orig[j].key@ == k
                                    && orig[j].expires_at > now;
                            if j == n - 1 {
                                assert(orig[n - 1].key@ == k);
                                assert(false);
                            }
                        }
                    }
                }
            }
        }
        let entry = CacheEntry { key, value, expires_at: now + ttl };
        let ghost before = kept@;
        proof {
            if has_key(kept@, entry.key@) {
                let i = choose|i: int| 0 <= i < kept@.len() && #[trigger] kept@[i].key@ == entry.key@;
                assert(entries_map(kept@).contains_key(entry.key@));
            }
            lemma_push_entry(kept@, entry);
        }
        kept.push(entry);
        proof {
            let fresh = fresh_entries(m0, now);
            assert forall|k: K::V| #[trigger] entries_map(before).contains_key(k) <==> (k
                != key@ && fresh.contains_key(k)) by {
                if entries_map(before).contains_key(k) {
                    let j = choose|j: int|
                        0 <= j < orig.len() && #[trigger] orig[j].key@ == k && orig[j].expires_at
                            > now;
                    lemma_entry_for_at(orig, j);
                }
                if k != key@ && fresh.contains_key(k) {
                    let j = choose|j: int| 0 <= j < orig.len() && #[trigger] orig[j].key@ == k;
                    lemma_entry_for_at(orig, j);
                    assert(orig[j].expires_at > now);
                }
            }
            assert(entries_map(kept@) =~= cache_after_set(m0, key@, value@, now, ttl));
        }
        self.entries = kept;
    }
}

/// The three caches of the service: username to UUID, UUID to skin URL, and
/// skin URL plus size to rendered PNG.
pub struct AppCache {
    usernames: TtlCache<String, String>,
    skin_urls: TtlCache<String, String>,
    rendered_pngs: TtlCache<RenderedKey, Vec<u8>>,
}

impl AppCache {
    /// Lowercase username to UUID.
    pub closed spec fn usernames_map(self) -> Map<Seq<char>, (Seq<char>, u64)> {
        self.usernames.view_map()
    }

    /// UUID to skin URL.
    pub closed spec fn skin_urls_map(self) -> Map<Seq<char>, (Seq<char>, u64)> {
        self.skin_urls.view_map()
    }

    /// Skin URL and size to PNG bytes.
    pub closed spec fn rendered_map(self) -> Map<(Seq<char>, u32), (Seq<u8>, u64)> {
        self.rendered_pngs.view_map()
    }

    pub fn new() -> (c: Self)
        ensures
            c.usernames_map() == Map::<Seq<char>, (Seq<char>, u64)>::empty(),
            c.skin_urls_map() == Map::<Seq<char>, (Seq<char>, u64)>::empty(),
            c.rendered_map() == Map::<(Seq<char>, u32), (Seq<u8>, u64)>::empty(),
    {
        AppCache { usernames: TtlCache::new(), skin_urls: TtlCache::new(), rendered_pngs: TtlCache::new() }
    }

    /// The UUID cached for a username, compared without regard to ASCII case.
    pub fn get_username_uuid(&mut self, username: &str, now: u64) -> (r: Option<String>)
        ensures
            match cache_get(old(self).usernames_map(), lower_seq(username@), now) {
                Some(v) => r matches Some(x) && x@ == v,
                None => r is None,
            },
            final(self).usernames_map() == cache_after_get(
                old(self).usernames_map(),
                lower_seq(username@),
                now,
            ),
            final(self).skin_urls_map() == old(self).skin_urls_map(),
            final(self).rendered_map() == old(self).rendered_map(),
    {
        let key = ascii_lowercase(username);
        self.usernames.get(&key, now)
    }

    /// Caches a username's UUID for 6 hours.
    pub fn set_username_uuid(&mut self, username: &str, uuid: String, now: u64)
        requires
            now + USERNAME_TTL_MS <= u64::MAX,
        ensures
            final(self).usernames_map() == cache_after_set(
                old(self).usernames_map(),
                lower_seq(username@),
                uuid@,
                now,
                USERNAME_TTL_MS,
            ),
            final(self).skin_urls_map() == old(self).skin_urls_map(),
            final(self).rendered_map() == old(self).rendered_map(),
    {
        let key = ascii_lowercase(username);
        self.usernames.set(key, uuid, now, USERNAME_TTL_MS);
    }

    /// The skin URL cached for a UUID.
    pub fn get_skin_url(&mut self, uuid: &str, now: u64) -> (r: Option<String>)
        ensures
            match cache_get(old(self).skin_urls_map(), uuid@, now) {
                Some(v) => r matches Some(x) && x@ == v,
                None => r is None,
            },
            final(self).skin_urls_map() == cache_after_get(old(self).skin_urls_map(), uuid@, now),
            final(self).usernames_map() == old(self).usernames_map(),
            final(self).rendered_map() == old(self).rendered_map(),
    {
        let key = uuid.to_owned();
        self.skin_urls.get(&key, now)
    }

    /// Caches a UUID's skin URL for 30 minutes.
    pub fn set_skin_url(&mut self, uuid: &str, skin_url: String, now: u64)
        requires
            now + SKIN_URL_TTL_MS <= u64::MAX,
        ensures
            final(self).skin_urls_map() == cache_after_set(
                old(self).skin_urls_map(),
                uuid@,
                skin_url@,
                now,
                SKIN_URL_TTL_MS,
            ),
            final(self).usernames_map() == old(self).usernames_map(),
            final(self).rendered_map() == old(self).rendered_map(),
    {
        self.skin_urls.set(uuid.to_owned(), skin_url, now, SKIN_URL_TTL_MS);
    }

    /// The PNG cached for a skin URL and output size.
    pub fn get_rendered_png(&mut self, skin_url: &str, size: u32, now: u64) -> (r: Option<Vec<u8>>)
        ensures
            match cache_get(old(self).rendered_map(), (skin_url@, size), now) {
                Some(v) => r matches Some(x) && x@ == v,
                None => r is None,
            },
            final(self).rendered_map() == cache_after_get(
                old(self).rendered_map(),
                (skin_url@, size),
                now,
            ),
            final(self).usernames_map() == old(self).usernames_map(),
            final(self).skin_urls_map() == old(self).skin_urls_map(),
    {
        let key = RenderedKey { skin_url: skin_url.to_owned(), size };
        self.rendered_pngs.get(&key, now)
    }

    /// Caches a rendered PNG for 30 minutes.
    pub fn set_rendered_png(&mut self, skin_url: &str, size: u32, png: Vec<u8>, now: u64)
        requires
            now + RENDERED_PNG_TTL_MS <= u64::MAX,
        ensures
            final(self).rendered_map() == cache_after_set(
                old(self).rendered_map(),
                (skin_url@, size),
                png@,
                now,
                RENDERED_PNG_TTL_MS,
            ),
            final(self).usernames_map() == old(self).usernames_map(),
            final(self).skin_urls_map() == old(self).skin_urls_map(),
    {
        let key = RenderedKey { skin_url: skin_url.to_owned(), size };
        self.rendered_pngs.set(key, png, now, RENDERED_PNG_TTL_MS);
    }
}

impl Default for AppCache {
    fn default() -> (c: Self)
        ensures
            c.usernames_map() == Map::<Seq<char>, (Seq<char>, u64)>::empty(),
            c.skin_urls_map() == Map::<Seq<char>, (Seq<char>, u64)>::empty(),
            c.rendered_map() == Map::<(Seq<char>, u32), (Seq<u8>, u64)>::empty(),
    {
        Self::new()
    }
}

/// A value stored at `now` is read back at every later time before it expires.
pub proof fn lemma_read_after_write<K, V>(
    m: Map<K, (V, u64)>,
    key: K,
    value: V,
    now: u64,
    ttl: u64,
    later: u64,
)
    requires
        now + ttl <= u64::MAX,
        now <= later < now + ttl,
    ensures
        cache_get(cache_after_set(m, key, value, now, ttl), key, later) == Some(value),
{
}

/// A value is no longer read once its lifetime has passed.
pub proof fn lemma_expired_after_ttl<K, V>(
    m: Map<K, (V, u64)>,
    key: K,
    value: V,
    now: u64,
    ttl: u64,
    later: u64,
)
    requires
        now + ttl <= u64::MAX,
        later >= now + ttl,
    ensures
        cache_get(cache_after_set(m, key, value, now, ttl), key, later) is None,
{
}

/// Storing one key, and dropping stale entries, changes no later lookup of
/// another key.
pub proof fn lemma_set_keeps_other_keys<K, V>(
    m: Map<K, (V, u64)>,
    key: K,
    value: V,
    now: u64,
    ttl: u64,
    other: K,
    later: u64,
)
    requires
        now + ttl <= u64::MAX,
        other != key,
        later >= now,
    ensures
        cache_get(cache_after_set(m, key, value, now, ttl), other, later) == cache_get(
            m,
            other,
            later,
        ),
{
}

/// Dropping a stale entry on lookup changes no lookup at the same or a later time.
pub proof fn lemma_get_changes_no_answer<K, V>(m: Map<K, (V, u64)>, key: K, now: u64, other: K, later: u64)
    requires
        later >= now,
    ensures
        cache_get(cache_after_get(m, key, now), other, later) == cache_get(m, other, later),
{
}

/// Username lookups ignore ASCII case: a UUID stored under one spelling is read
/// back under any spelling with the same lowercase form.
pub proof fn lemma_username_case_insensitive(
    m: Map<Seq<char>, (Seq<char>, u64)>,
    stored: Seq<char>,
    asked: Seq<char>,
    uuid: Seq<char>,
    now: u64,
    later: u64,
)
    requires
        lower_seq(stored) == lower_seq(asked),
        now + USERNAME_TTL_MS <= u64::MAX,
        now <= later < now + USERNAME_TTL_MS,
    ensures
        cache_get(
            cache_after_set(m, lower_seq(stored), uuid, now, USERNAME_TTL_MS),
            lower_seq(asked),
            later,
        ) == Some(uuid),
{
}

} // verus!

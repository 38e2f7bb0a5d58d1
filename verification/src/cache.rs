use vstd::prelude::*;
use crate::{OpengraphTag, tag_views};

verus! {

/// Holds the bounded key/value store of an outside crate. The struct is
/// opaque to the verifier; everything known of it is stated by the trusted
/// functions below, over `cache_contents` and `cache_capacity`.
#[verifier::external_body]
pub struct TagCacheStore {
    cache: quick_cache::unsync::Cache<String, Vec<OpengraphTag>>,
}

/// A cache with no entries at all.
pub open spec fn no_entries() -> Map<Seq<char>, Seq<(Seq<char>, Seq<char>)>> {
    Map::empty()
}

/// The entries a cache holds: each cached URL mapped to the tag sequence
/// stored for it.
pub uninterp spec fn cache_contents(c: TagCacheStore) -> Map<Seq<char>, Seq<(Seq<char>, Seq<char>)>>;

/// The capacity a cache was created with: the largest number of unit-weight
/// entries it will hold.
pub uninterp spec fn cache_capacity(c: TagCacheStore) -> nat;

/// Relies on `quick_cache::unsync::Cache::new`: a fresh cache is empty and
/// holds up to `size` unit-weight items.
#[verifier::external_body]
fn qc_new(size: usize) -> (c: TagCacheStore)
    requires
        1 <= size,
    ensures
        cache_contents(c) == no_entries(),
        cache_capacity(c) == size,
{
    TagCacheStore { cache: quick_cache::unsync::Cache::new(size) }
}

/// Relies on `quick_cache::unsync::Cache::insert` and `get`. One bare
/// `insert` does not guarantee presence: when it readmits a recently evicted
/// key, the eviction that restores the capacity bound can pick that same
/// entry. So the body probes for the entry and inserts once more when it is
/// gone; a key that is absent (and no longer tracked) when inserted is placed
/// after the eviction step and stays resident. Every other surviving entry
/// keeps its value, though entries may be evicted to stay within capacity.
#[verifier::external_body]
fn qc_insert(c: &mut TagCacheStore, url: String, tags: Vec<OpengraphTag>)
    requires
        1 <= cache_capacity(*old(c)),
    ensures
        cache_contents(*final(c)).contains_pair(url@, tag_views(tags@)),
        cache_contents(*final(c)).submap_of(
            cache_contents(*old(c)).insert(url@, tag_views(tags@)),
        ),
        cache_contents(*final(c)).dom().finite(),
        cache_contents(*final(c)).dom().len() <= cache_capacity(*old(c)),
        cache_capacity(*final(c)) == cache_capacity(*old(c)),
{
    c.cache.insert(url.clone(), tags.clone());
    if c.cache.get(&url).is_none() {
        c.cache.insert(url, tags);
    }
}

/// Relies on `quick_cache::unsync::Cache::get`: returns a copy of the entry
/// stored for `url`, if one is present.
#[verifier::external_body]
fn qc_get(c: &TagCacheStore, url: &str) -> (r: Option<Vec<OpengraphTag>>)
    ensures
        match r {
            Some(tags) => cache_contents(*c).contains_key(url@) && tag_views(tags@)
                == cache_contents(*c)[url@],
            None => !cache_contents(*c).contains_key(url@),
        },
{
    c.cache.get(url).cloned()
}

/// Relies on `quick_cache::unsync::Cache::len`: the number of cached entries.
#[verifier::external_body]
fn qc_len(c: &TagCacheStore) -> (r: usize)
    ensures
        r == cache_contents(*c).dom().len(),
{
    c.cache.len()
}

/// Relies on `quick_cache::unsync::Cache::weight`: with unit weights, the
/// total weight equals the number of cached entries.
#[verifier::external_body]
fn qc_weight(c: &TagCacheStore) -> (r: u64)
    ensures
        r == cache_contents(*c).dom().len(),
{
    c.cache.weight()
}

/// Relies on `quick_cache::unsync::Cache::capacity`: the configured maximum
/// weight, which with unit weights is the configured entry capacity.
#[verifier::external_body]
fn qc_capacity(c: &TagCacheStore) -> (r: u64)
    ensures
        r == cache_capacity(*c),
{
    c.cache.capacity()
}

/// A point-in-time snapshot of cache health: how many entries are held, their
/// total weight, and the configured capacity.
#[derive(Clone, Copy, Debug, PartialEq, Eq, Structural)]
pub struct CacheStats {
    pub entry_count: usize,
    pub total_weight: u64,
    pub capacity: u64,
}

/// The character for one decimal digit.
pub open spec fn dec_digit(d: nat) -> char {
    if d == 0 {
        '0'
    } else if d == 1 {
        '1'
    } else if d == 2 {
        '2'
    } else if d == 3 {
        '3'
    } else if d == 4 {
        '4'
    } else if d == 5 {
        '5'
    } else if d == 6 {
        '6'
    } else if d == 7 {
        '7'
    } else if d == 8 {
        '8'
    } else {
        '9'
    }
}

/// The usual decimal rendering of a number, most significant digit first,
/// without leading zeros (zero itself renders as one digit).
pub open spec fn dec_of(n: nat) -> Seq<char>
    decreases n,
{
    if n < 10 {
        seq![dec_digit(n)]
    } else {
        dec_of(n / 10).push(dec_digit(n % 10))
    }
}

/// The one-character string for a decimal digit.
fn digit_str(d: u64) -> (r: &'static str)
    requires
        d < 10,
    ensures
        r@ == seq![dec_digit(d as nat)],
{
    let r: &'static str = if d == 0 {
        "0"
    } else if d == 1 {
        "1"
    } else if d == 2 {
        "2"
    } else if d == 3 {
        "3"
    } else if d == 4 {
        "4"
    } else if d == 5 {
        "5"
    } else if d == 6 {
        "6"
    } else if d == 7 {
        "7"
    } else if d == 8 {
        "8"
    } else {
        "9"
    };
    proof {
        reveal_strlit("0");
        reveal_strlit("1");
        reveal_strlit("2");
        reveal_strlit("3");
        reveal_strlit("4");
        reveal_strlit("5");
        reveal_strlit("6");
        reveal_strlit("7");
        reveal_strlit("8");
        reveal_strlit("9");
        assert(r@ =~= seq![dec_digit(d as nat)]);
    }
    r
}

/// Appends the decimal rendering of `n` to `s`.
fn push_decimal(s: &mut String, n: u64)
    ensures
        final(s)@ == old(s)@ + dec_of(n as nat),
    decreases n,
{
    if n >= 10 {
        push_decimal(s, n / 10);
    }
    s.append(digit_str(n % 10));
    proof {
        assert(s@ =~= old(s)@ + dec_of(n as nat));
    }
}

/// The human-readable cache health report for the given entry count, total
/// weight and capacity.
pub open spec fn spec_status_report(count: nat, weight: nat, capacity: nat) -> Seq<char> {
    "Number of cached items: "@ + dec_of(count) + "\nTotal cache weight: "@ + dec_of(weight)
        + "\nCapacity (maximum weight of cached items): "@ + dec_of(capacity) + "\n"@
}

impl CacheStats {
    /// Renders the snapshot as the human-readable status report, one line
    /// per figure.
    pub fn render(&self) -> (r: String)
        ensures
            r@ == spec_status_report(
                self.entry_count as nat,
                self.total_weight as nat,
                self.capacity as nat,
            ),
    {
        let mut s = String::new();
        s.append("Number of cached items: ");
        push_decimal(&mut s, self.entry_count as u64);
        s.append("\nTotal cache weight: ");
        push_decimal(&mut s, self.total_weight);
        s.append("\nCapacity (maximum weight of cached items): ");
        push_decimal(&mut s, self.capacity);
        s.append("\n");
        proof {
            assert(s@ =~= spec_status_report(
                self.entry_count as nat,
                self.total_weight as nat,
                self.capacity as nat,
            ));
        }
        s
    }
}

/// A bounded store of extracted tag sequences, keyed by URL. Entries live
/// until they are overwritten or evicted by capacity pressure.
pub struct OpengraphCache {
    cache: TagCacheStore,
}

impl OpengraphCache {
    /// The entries currently held, keyed by URL.
    pub closed spec fn entries(&self) -> Map<Seq<char>, Seq<(Seq<char>, Seq<char>)>> {
        cache_contents(self.cache)
    }

    /// The configured entry capacity.
    pub closed spec fn capacity(&self) -> nat {
        cache_capacity(self.cache)
    }

    /// A well-formed cache has a positive capacity and never holds more
    /// entries than that capacity.
    pub open spec fn wf(&self) -> bool {
        &&& 1 <= self.capacity()
        &&& self.entries().dom().finite()
        &&& self.entries().dom().len() <= self.capacity()
    }

    /// Creates an empty cache that will hold up to `size` entries.
    pub fn new(size: usize) -> (r: Self)
        requires
            1 <= size,
        ensures
            r.wf(),
            r.capacity() == size,
            r.entries() == no_entries(),
    {
        let r = OpengraphCache { cache: qc_new(size) };
        proof {
            assert(r.entries().dom() =~= Set::<Seq<char>>::empty());
        }
        r
    }

    /// Stores (or overwrites) the entry for `url`. The entry is present
    /// afterwards; other entries keep their values, though some may be
    /// evicted to stay within capacity. Never fails.
    pub fn add_to_cache(&mut self, url: String, tags: Vec<OpengraphTag>)
        requires
            old(self).wf(),
        ensures
            final(self).wf(),
            final(self).capacity() == old(self).capacity(),
            final(self).entries().contains_pair(url@, tag_views(tags@)),
            final(self).entries().submap_of(old(self).entries().insert(url@, tag_views(tags@))),
    {
        qc_insert(&mut self.cache, url, tags);
    }

    /// Returns a copy of the entry stored for `url`: `Some` exactly when the
    /// URL is cached, holding the stored tag sequence.
    pub fn get_from_cache(&self, url: &str) -> (r: Option<Vec<OpengraphTag>>)
        ensures
            match r {
                Some(tags) => self.entries().contains_key(url@) && tag_views(tags@)
                    == self.entries()[url@],
                None => !self.entries().contains_key(url@),
            },
    {
        qc_get(&self.cache, url)
    }

    /// Reports entry count, total weight and configured capacity. With unit
    /// entry weights the total weight equals the entry count.
    pub fn get_status(&self) -> (r: CacheStats)
        ensures
            r.entry_count == self.entries().dom().len(),
            r.total_weight == self.entries().dom().len(),
            r.capacity == self.capacity(),
    {
        CacheStats {
            entry_count: qc_len(&self.cache),
            total_weight: qc_weight(&self.cache),
            capacity: qc_capacity(&self.cache),
        }
    }
}

/// A well-formed cache never holds more entries than its configured
/// capacity, whatever has been inserted into it.
pub proof fn lemma_count_within_capacity(c: &OpengraphCache)
    requires
        c.wf(),
    ensures
        c.entries().dom().len() <= c.capacity(),
{
}

/// After an entry is stored for a URL, a lookup of that URL in the resulting
/// entries yields exactly the stored tag sequence.
pub proof fn lemma_stored_entry_found(
    entries: Map<Seq<char>, Seq<(Seq<char>, Seq<char>)>>,
    url: Seq<char>,
    tags: Seq<(Seq<char>, Seq<char>)>,
)
    requires
        entries.contains_pair(url, tags),
    ensures
        entries.contains_key(url),
        entries[url] == tags,
{
}

} // verus!

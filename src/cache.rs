use vstd::prelude::*;

use crate::catalog::{scan_map, Catalog};
use crate::error::ApiError;
use crate::meta::{PostView, ScanEntry};

verus! {

/// Time to live of a catalog, in milliseconds: five minutes.
pub const DEFAULT_TTL_MS: u64 = 300_000;

/// What a cache holds: its time to live, when it was last refreshed (never,
/// at first) and the catalog of that refresh. Times are in milliseconds.
pub ghost struct CacheView {
    pub ttl: nat,
    pub last: Option<int>,
    pub catalog: Map<Seq<char>, PostView>,
}

/// A read at `now` may serve the cached catalog.
pub open spec fn is_fresh(v: CacheView, now: int) -> bool {
    match v.last {
        Some(t) => now < t + v.ttl,
        None => false,
    }
}

/// The cache after a refresh at `now` whose scan yielded `entries`.
pub open spec fn refreshed(v: CacheView, entries: Seq<ScanEntry>, now: int) -> CacheView {
    CacheView { ttl: v.ttl, last: Some(now), catalog: scan_map(entries) }
}

/// The cache after one read at `now`: unchanged where fresh, else refreshed
/// with the scan `entries` that the read performed.
pub open spec fn after_read(v: CacheView, now: int, entries: Seq<ScanEntry>) -> CacheView {
    if is_fresh(v, now) {
        v
    } else {
        refreshed(v, entries, now)
    }
}

/// The cache after reads at `now`, one after another, where the read number
/// `i` scans `scans[i]` if it scans at all.
pub open spec fn serial_reads(v: CacheView, now: int, scans: Seq<Seq<ScanEntry>>) -> CacheView
    decreases scans.len(),
{
    if scans.len() == 0 {
        v
    } else {
        serial_reads(after_read(v, now, scans[0]), now, scans.drop_first())
    }
}

/// How many of those reads scan.
pub open spec fn scan_count(v: CacheView, now: int, scans: Seq<Seq<ScanEntry>>) -> nat
    decreases scans.len(),
{
    if scans.len() == 0 {
        0
    } else {
        (if is_fresh(v, now) { 0nat } else { 1nat }) + scan_count(
            after_read(v, now, scans[0]),
            now,
            scans.drop_first(),
        )
    }
}

/// The catalog with the time of its last refresh. Callers hold it under one
/// lock across a read: the staleness check, the scan where one is due, and
/// the publication of its result.
pub struct CatalogCache {
    ttl: u64,
    last_refreshed: Option<u64>,
    catalog: Catalog,
}

impl View for CatalogCache {
    type V = CacheView;

    closed spec fn view(&self) -> CacheView {
        CacheView {
            ttl: self.ttl as nat,
            last: match self.last_refreshed {
                Some(t) => Some(t as int),
                None => None,
            },
            catalog: self.catalog@,
        }
    }
}

impl CatalogCache {
    pub closed spec fn wf(&self) -> bool {
        self.catalog.wf()
    }

    /// A cache that has never been refreshed, so that the first read scans.
    pub fn new(ttl: u64) -> (r: CatalogCache)
        ensures
            r.wf(),
            r@ == (CacheView { ttl: ttl as nat, last: None, catalog: Map::empty() }),
    {
        CatalogCache { ttl, last_refreshed: None, catalog: Catalog::new() }
    }

    /// Time to live, in milliseconds.
    pub fn ttl(&self) -> (r: u64)
        ensures
            r == self@.ttl,
    {
        self.ttl
    }

    /// Time of the last refresh, if there was one.
    pub fn last_refreshed(&self) -> (r: Option<u64>)
        ensures
            match r {
                Some(t) => self@.last == Some(t as int),
                None => self@.last is None,
            },
    {
        self.last_refreshed
    }

    /// Whether a read at `now` must scan before it answers.
    pub fn needs_refresh(&self, now: u64) -> (r: bool)
        ensures
            r == !is_fresh(self@, now as int),
    {
        match self.last_refreshed {
            Some(t) => !(now < t || now - t < self.ttl),
            None => true,
        }
    }

    /// Publishes the result of a scan made at `now`: the catalog is replaced as
    /// a whole. `None` stands for a posts root that could not be listed: the
    /// cache then stays as it was and `FatalConfig` is returned.
    pub fn refresh(&mut self, listing: Option<Vec<ScanEntry>>, now: u64) -> (r: Result<(), ApiError>)
        requires
            old(self).wf(),
        ensures
            final(self).wf(),
            match listing {
                Some(entries) => r is Ok && final(self)@ == refreshed(old(self)@, entries@, now as int),
                None => r == Err::<(), ApiError>(ApiError::FatalConfig) && final(self)@ == old(self)@,
            },
    {
        match listing {
            Some(entries) => {
                let catalog = Catalog::build(&entries);
                self.catalog = catalog;
                self.last_refreshed = Some(now);
                Ok(())
            },
            None => Err(ApiError::FatalConfig),
        }
    }

    /// The catalog of the last refresh.
    pub fn catalog(&self) -> (r: &Catalog)
        requires
            self.wf(),
        ensures
            r.wf(),
            r@ == self@.catalog,
    {
        &self.catalog
    }
}

/// Freshness: right after a refresh at `t`, a read at any `now` within the
/// time to live scans nothing and serves exactly the refreshed catalog.
pub proof fn lemma_fresh_after_refresh(
    v: CacheView,
    entries: Seq<ScanEntry>,
    t: int,
    now: int,
    next_scan: Seq<ScanEntry>,
)
    requires
        t <= now < t + v.ttl,
    ensures
        is_fresh(refreshed(v, entries, t), now),
        after_read(refreshed(v, entries, t), now, next_scan) == refreshed(v, entries, t),
        after_read(refreshed(v, entries, t), now, next_scan).catalog == scan_map(entries),
{
}

/// Expiry: a read at or after the end of the time to live scans once and
/// serves that scan's catalog; a read right after it, at the same time, scans
/// no more.
pub proof fn lemma_expiry_scans_once(
    v: CacheView,
    now: int,
    entries: Seq<ScanEntry>,
    next_scan: Seq<ScanEntry>,
)
    requires
        v.ttl > 0,
        v.last is Some,
        now >= v.last->0 + v.ttl,
    ensures
        !is_fresh(v, now),
        after_read(v, now, entries).catalog == scan_map(entries),
        is_fresh(after_read(v, now, entries), now),
        after_read(after_read(v, now, entries), now, next_scan) == after_read(v, now, entries),
{
}

proof fn lemma_fresh_reads_change_nothing(v: CacheView, now: int, scans: Seq<Seq<ScanEntry>>)
    requires
        is_fresh(v, now),
    ensures
        serial_reads(v, now, scans) == v,
        scan_count(v, now, scans) == 0,
    decreases scans.len(),
{
    if scans.len() > 0 {
        lemma_fresh_reads_change_nothing(v, now, scans.drop_first());
    }
}

/// Reads that arrive at one instant and pass through the cache one after
/// another scan at most once: exactly once where the cache is stale then,
/// and every one of them sees either the catalog held before or the whole
/// result of that one scan.
pub proof fn lemma_simultaneous_reads_scan_once(v: CacheView, now: int, scans: Seq<Seq<ScanEntry>>)
    requires
        v.ttl > 0,
        scans.len() > 0,
    ensures
        scan_count(v, now, scans) == if is_fresh(v, now) { 0nat } else { 1nat },
        scan_count(v, now, scans) <= 1,
        is_fresh(v, now) ==> serial_reads(v, now, scans) == v,
        !is_fresh(v, now) ==> serial_reads(v, now, scans) == refreshed(v, scans[0], now),
{
    let next = after_read(v, now, scans[0]);
    assert(is_fresh(next, now));
    lemma_fresh_reads_change_nothing(next, now, scans.drop_first());
}

} // verus!

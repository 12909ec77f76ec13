//! The datafeed cache: one most-recent fetch of the live feed with the time
//! it was made, refreshed when older than a fixed interval, and the decisions
//! of an ATIS query over it.
use vstd::prelude::*;

use crate::atis::{resolve_atis, resolves_to, DatafeedSnapshot, FetchAtisResponse, RecordView};

verus! {

/// How long a fetch stays fresh, in milliseconds.
pub const STALE_AFTER_MS: u64 = 30000;

/// Why the feed could not be fetched.
#[derive(Clone, Debug)]
pub enum FetchError {
    /// The feed client could not be constructed.
    ClientNotInitialized,
    /// The fetch itself failed; the message says how.
    Feed(String),
}

/// One fetch of the live feed: when it was attempted, in milliseconds of a
/// monotonic clock, and what it returned.
#[derive(Debug)]
pub struct VatsimDataFetch {
    pub fetched_time: u64,
    pub data: Result<DatafeedSnapshot, FetchError>,
}

/// A fetch made at `fetched` is stale at `now` when more than
/// `STALE_AFTER_MS` have elapsed; a clock reading before `fetched` counts as
/// no time elapsed.
pub open spec fn stale_at(fetched: u64, now: u64) -> bool {
    now as int - fetched as int > STALE_AFTER_MS as int
}

/// The cache needs a refresh at `now`: it holds no fetch, or a stale one.
pub open spec fn cache_stale(latest: Option<VatsimDataFetch>, now: u64) -> bool {
    match latest {
        Some(f) => stale_at(f.fetched_time, now),
        None => true,
    }
}

/// The records of the cached snapshot, when the cache holds a successful
/// fetch.
pub open spec fn cached_records(latest: Option<VatsimDataFetch>) -> Option<Seq<RecordView>> {
    match latest {
        Some(f) => match f.data {
            Ok(snapshot) => Some(snapshot@),
            Err(_) => None,
        },
        None => None,
    }
}

/// The message every reader gets while the cache holds no usable snapshot.
pub open spec fn datafeed_error() -> Seq<char> {
    seq![
        'C', 'o', 'u', 'l', 'd', ' ', 'n', 'o', 't', ' ', 'r', 'e', 't', 'r', 'i', 'e', 'v', 'e',
        ' ', 'd', 'a', 't', 'a', 'f', 'e', 'e', 'd',
    ]
}

/// `r` is the answer to a query for `icao` read from `latest`: the
/// resolved ATIS over a good snapshot, the datafeed error otherwise.
pub open spec fn answers(
    latest: Option<VatsimDataFetch>,
    icao: Seq<char>,
    r: Result<FetchAtisResponse, String>,
) -> bool {
    match cached_records(latest) {
        Some(records) => r is Ok && resolves_to(r->Ok_0, records, icao),
        None => r is Err && r->Err_0@ == datafeed_error(),
    }
}

impl VatsimDataFetch {
    /// A fetch made at `fetched_time` that returned `data`.
    pub fn new(fetched_time: u64, data: Result<DatafeedSnapshot, FetchError>) -> (r: Self)
        ensures
            r == (VatsimDataFetch { fetched_time, data }),
    {
        VatsimDataFetch { fetched_time, data }
    }

    /// Whether this fetch is stale at `now`.
    pub fn is_stale(&self, now: u64) -> (r: bool)
        ensures
            r == stale_at(self.fetched_time, now),
    {
        now > self.fetched_time && now - self.fetched_time > STALE_AFTER_MS
    }
}

/// What an ATIS query asks of its caller next.
#[derive(Debug)]
pub enum AtisStep {
    /// The cache is stale: fetch the feed and hand the outcome to
    /// `DatafeedCache::finish_get_atis`.
    Fetch,
    /// The answer, read from the cache as it stands.
    Ready(Result<FetchAtisResponse, String>),
}

/// The single most-recent fetch of the live feed; each refresh replaces it
/// whole, whether the fetch succeeded or failed.
#[derive(Debug)]
pub struct DatafeedCache {
    pub latest_vatsim_data: Option<VatsimDataFetch>,
}

fn datafeed_error_string() -> (r: String)
    ensures
        r@ == datafeed_error(),
{
    proof {
        reveal_strlit("Could not retrieve datafeed");
    }
    let r = String::from_str("Could not retrieve datafeed");
    assert(r@ =~= datafeed_error());
    r
}

impl DatafeedCache {
    /// An empty cache, stale at every time.
    pub fn new() -> (r: Self)
        ensures
            r.latest_vatsim_data is None,
    {
        DatafeedCache { latest_vatsim_data: None }
    }

    /// Whether the cache must be refreshed before it is read at `now`.
    pub fn datafeed_is_stale(&self, now: u64) -> (r: bool)
        ensures
            r == cache_stale(self.latest_vatsim_data, now),
    {
        match &self.latest_vatsim_data {
            Some(fetch) => fetch.is_stale(now),
            None => true,
        }
    }

    /// Installs the outcome of a fetch attempted at `now`, replacing whatever
    /// the cache held.
    pub fn store_fetch(&mut self, now: u64, data: Result<DatafeedSnapshot, FetchError>)
        ensures
            final(self).latest_vatsim_data == Some(VatsimDataFetch { fetched_time: now, data }),
    {
        self.latest_vatsim_data = Some(VatsimDataFetch::new(now, data));
    }

    /// The ATIS of `icao_id` read from the cache as it stands, without
    /// regard to staleness.
    pub fn read_atis(&self, icao_id: &str) -> (r: Result<FetchAtisResponse, String>)
        ensures
            answers(self.latest_vatsim_data, icao_id@, r),
    {
        match &self.latest_vatsim_data {
            Some(fetch) => match &fetch.data {
                Ok(snapshot) => Ok(resolve_atis(snapshot, icao_id)),
                Err(_) => Err(datafeed_error_string()),
            },
            None => Err(datafeed_error_string()),
        }
    }

    /// The first step of an ATIS query for `icao_id` at `now`: a fetch when
    /// the cache is stale, the answer from the cache otherwise.
    pub fn begin_get_atis(&self, icao_id: &str, now: u64) -> (r: AtisStep)
        ensures
            r is Fetch <==> cache_stale(self.latest_vatsim_data, now),
            r is Ready ==> answers(self.latest_vatsim_data, icao_id@, r->Ready_0),
    {
        if self.datafeed_is_stale(now) {
            AtisStep::Fetch
        } else {
            AtisStep::Ready(self.read_atis(icao_id))
        }
    }

    /// The last step of an ATIS query for `icao_id` whose fetch, attempted
    /// at `now`, returned `data`: the outcome is cached, and the answer is
    /// read from it.
    pub fn finish_get_atis(
        &mut self,
        icao_id: &str,
        now: u64,
        data: Result<DatafeedSnapshot, FetchError>,
    ) -> (r: Result<FetchAtisResponse, String>)
        ensures
            final(self).latest_vatsim_data == Some(VatsimDataFetch { fetched_time: now, data }),
            answers(final(self).latest_vatsim_data, icao_id@, r),
    {
        self.store_fetch(now, data);
        self.read_atis(icao_id)
    }
}

/// A fetch made at `t0` stays fresh through `t0 + STALE_AFTER_MS`
/// (29 s after it, say) and is stale at every later time (31 s after it).
pub proof fn lemma_staleness_window(t0: u64, now: u64)
    ensures
        t0 <= now <= t0 + STALE_AFTER_MS ==> !stale_at(t0, now),
        now > t0 + STALE_AFTER_MS ==> stale_at(t0, now),
{
}

/// A failed fetch is cached like a successful one: two queries made within
/// the freshness window after it are both answered from the cache, with no
/// new fetch, and both answers are the same datafeed error.
pub proof fn lemma_failed_fetch_is_cached(
    cache: DatafeedCache,
    fetched: u64,
    err: FetchError,
    first_icao: Seq<char>,
    first_now: u64,
    first: Result<FetchAtisResponse, String>,
    second_icao: Seq<char>,
    second_now: u64,
    second: Result<FetchAtisResponse, String>,
)
    requires
        cache.latest_vatsim_data == Some(
            VatsimDataFetch { fetched_time: fetched, data: Err(err) },
        ),
        fetched <= first_now <= second_now <= fetched + STALE_AFTER_MS,
        answers(cache.latest_vatsim_data, first_icao, first),
        answers(cache.latest_vatsim_data, second_icao, second),
    ensures
        !cache_stale(cache.latest_vatsim_data, first_now),
        !cache_stale(cache.latest_vatsim_data, second_now),
        first is Err && first->Err_0@ == datafeed_error(),
        second is Err && second->Err_0@ == first->Err_0@,
{
}

} // verus!

//! The cache-aside loader. One `get` runs: resolve the cache path, read the
//! cache file, serve it if it is fresh, otherwise fetch, write the raw bytes
//! back best-effort, and parse. The decisions of that run are stated and
//! proved here; the calling program performs the file reads, the single
//! fetch and the parse these decisions ask for, and feeds their outcomes
//! back in as plain values.

use vstd::prelude::*;

verus! {

use crate::api::schema::{spec_format, Formatter, Schema};
use crate::app::cache::{default_cache_root, spec_default_cache_root, spec_resolve, Cacheable};
use crate::text::{push_dec_u64, spec_dec};

/// A loader bound to one descriptor and one cache root.
pub struct APILoader<S: Schema> {
    /// The descriptor to load.
    pub schema: S,
    /// The directory cache files live under.
    pub cache_root: String,
}

/// What the file system answered when the cache file was read.
#[derive(Debug)]
pub enum CacheReadOutcome {
    /// The file could not be opened, statted or read; the cause in words.
    Missing {
        /// The cause in words.
        cause: String,
    },
    /// The file was read whole.
    Found {
        /// The file's bytes.
        bytes: Vec<u8>,
        /// The file's modification time, in Unix milliseconds.
        modified_ms: u64,
    },
}

/// Why a cache file could not serve a `load_cache` call.
#[derive(Debug)]
pub enum CacheLoadError {
    /// The cache file is absent or unreadable; recoverable by fetching.
    FileNotFound {
        /// The cause in words.
        cause: String,
    },
    /// The cached bytes do not parse into the declared shape; fatal, since a
    /// written artifact that stopped parsing means the schema moved on, not
    /// that the data aged.
    ParseFailed {
        /// The cause in words.
        cause: String,
    },
    /// The cache file is past its staleness window; recoverable by fetching.
    CacheExpired {
        /// The file's path.
        path: String,
        /// The file's modification time, in Unix milliseconds.
        updated_ms: u64,
        /// The staleness window, in milliseconds.
        interval_ms: u64,
    },
}

/// Why a whole `get` call failed.
#[derive(Debug)]
pub enum GetError {
    /// The cached bytes do not parse; the local artifact is corrupt or its
    /// schema outdated.
    CacheParseFailed {
        /// The cause in words.
        cause: String,
    },
    /// The fetch failed; the transport's cause is carried as is.
    NetworkError {
        /// The cause in words.
        cause: String,
    },
    /// The freshly fetched bytes do not parse; the provider changed shape.
    LiveParseFailed {
        /// The cause in words.
        cause: String,
        /// The disk write's failure, where it also failed; a failed write
        /// alone never fails the call.
        write_error: Option<String>,
    },
}

/// What `get` asks its caller to do once the cache file was read.
#[derive(Debug)]
pub enum GetStep {
    /// Parse these bytes, already passed through the descriptor's fixup.
    Serve {
        /// The prepared bytes.
        prepared: Vec<u8>,
    },
    /// Fetch the descriptor's URL; no fresh cache entry exists.
    Fetch,
}

/// Whether a cache file is fresh: modified in the past, less than the
/// staleness window ago. A modification time in the future counts as a clock
/// anomaly and is never fresh, so the happy path refetches instead of
/// failing.
pub open spec fn spec_is_fresh(now_ms: u64, modified_ms: u64, interval_ms: u64) -> bool {
    modified_ms <= now_ms && now_ms - modified_ms < interval_ms
}

/// Whether a cache file is fresh.
pub fn is_fresh(now_ms: u64, modified_ms: u64, interval_ms: u64) -> (r: bool)
    ensures
        r == spec_is_fresh(now_ms, modified_ms, interval_ms),
{
    modified_ms <= now_ms && now_ms - modified_ms < interval_ms
}

/// Whether a `load_cache` error lets `get` fall through to a fetch: an
/// absent or expired entry does, a parse failure is fatal.
pub open spec fn spec_should_refetch(e: CacheLoadError) -> bool {
    match e {
        CacheLoadError::FileNotFound { .. } => true,
        CacheLoadError::ParseFailed { .. } => false,
        CacheLoadError::CacheExpired { .. } => true,
    }
}

/// Whether a `load_cache` error lets `get` fall through to a fetch.
pub fn should_refetch(e: &CacheLoadError) -> (r: bool)
    ensures
        r == spec_should_refetch(*e),
{
    match e {
        CacheLoadError::FileNotFound { .. } => true,
        CacheLoadError::ParseFailed { .. } => false,
        CacheLoadError::CacheExpired { .. } => true,
    }
}

/// The bytes the cache branch of `get` hands to the parser: the cached
/// bytes through the descriptor's fixup where the file exists and is fresh,
/// nothing where a fetch must happen instead.
pub open spec fn spec_cache_branch(
    found: Option<(Seq<u8>, u64)>,
    now_ms: u64,
    interval_ms: u64,
    f: Formatter,
) -> Option<Seq<u8>> {
    match found {
        Option::Some((bytes, modified_ms)) => if spec_is_fresh(now_ms, modified_ms, interval_ms) {
            Option::Some(spec_format(f, bytes))
        } else {
            Option::None
        },
        Option::None => Option::None,
    }
}

/// An empty cache root is the expected first-run state, no error: with no
/// cache file the loader always proceeds to the fetch.
pub proof fn lemma_cold_cache_fetches(now_ms: u64, interval_ms: u64, f: Formatter)
    ensures
        spec_cache_branch(Option::None, now_ms, interval_ms, f) == Option::<Seq<u8>>::None,
{
}

/// A cache file younger than the staleness window is served: its bytes go
/// through the descriptor's fixup straight to the parser, and no fetch
/// happens. This holds whatever the bytes are — a fresh but empty or
/// truncated file is handed to the parser too, whose failure is then fatal
/// rather than silently bypassed by a refetch.
pub proof fn lemma_warm_cache_serves(
    bytes: Seq<u8>,
    modified_ms: u64,
    now_ms: u64,
    interval_ms: u64,
    f: Formatter,
)
    requires
        spec_is_fresh(now_ms, modified_ms, interval_ms),
    ensures
        spec_cache_branch(Option::Some((bytes, modified_ms)), now_ms, interval_ms, f)
            == Option::Some(spec_format(f, bytes)),
{
}

/// The staleness boundary is strict: an entry exactly one window old is
/// stale and triggers a fetch, one a millisecond younger is fresh and is
/// served.
pub proof fn lemma_staleness_boundary(now_ms: u64, interval_ms: u64)
    requires
        interval_ms <= now_ms,
        1 <= interval_ms,
    ensures
        !spec_is_fresh(now_ms, (now_ms - interval_ms) as u64, interval_ms),
        spec_is_fresh(now_ms, (now_ms - interval_ms + 1) as u64, interval_ms),
{
}

/// Caching the raw bytes and re-applying the fixup on every read gives the
/// same prepared bytes as the live path did: the fixup is a function of the
/// bytes alone, so a read that returns exactly what was written prepares
/// exactly what the fetch prepared.
pub proof fn lemma_transform_round_trip(f: Formatter, fetched: Seq<u8>, read_back: Seq<u8>)
    requires
        read_back == fetched,
    ensures
        spec_format(f, read_back) == spec_format(f, fetched),
{
}

/// Settles the cache branch once the caller parsed the served bytes: a
/// parse failure of a fresh cache file is fatal.
pub fn settle_cache_parse<T>(parsed: Result<T, String>) -> (r: Result<T, GetError>)
    ensures
        match parsed {
            Result::Ok(v) => r matches Result::Ok(rv) && rv == v,
            Result::Err(c) => r matches Result::Err(GetError::CacheParseFailed { cause }) && cause
                == c,
        },
{
    match parsed {
        Result::Ok(v) => Result::Ok(v),
        Result::Err(c) => Result::Err(GetError::CacheParseFailed { cause: c }),
    }
}

/// Settles the fetch step: a transport failure is surfaced unchanged, with
/// no retry.
pub fn settle_fetch(fetched: Result<Vec<u8>, String>) -> (r: Result<Vec<u8>, GetError>)
    ensures
        match fetched {
            Result::Ok(b) => r matches Result::Ok(rb) && rb == b,
            Result::Err(c) => r matches Result::Err(GetError::NetworkError { cause }) && cause == c,
        },
{
    match fetched {
        Result::Ok(b) => Result::Ok(b),
        Result::Err(c) => Result::Err(GetError::NetworkError { cause: c }),
    }
}

/// Settles the live branch once the caller parsed the prepared bytes: the
/// parse alone decides the call; a failed disk write is carried along only
/// when the parse also failed, and never fails a call whose parse
/// succeeded.
pub fn settle_live_parse<T>(parsed: Result<T, String>, write_error: Option<String>) -> (r: Result<
    T,
    GetError,
>)
    ensures
        match parsed {
            Result::Ok(v) => r matches Result::Ok(rv) && rv == v,
            Result::Err(c) => r matches Result::Err(
                GetError::LiveParseFailed { cause, write_error: w },
            ) && cause == c && w == write_error,
        },
{
    match parsed {
        Result::Ok(v) => Result::Ok(v),
        Result::Err(c) => Result::Err(GetError::LiveParseFailed { cause: c, write_error }),
    }
}

impl<S: Schema> APILoader<S> {
    /// Binds a loader to a descriptor, caching under the shared default
    /// root.
    pub fn new(schema: S) -> (r: APILoader<S>)
        ensures
            r.schema == schema,
            r.cache_root@ == spec_default_cache_root(),
    {
        APILoader { schema, cache_root: default_cache_root() }
    }

    /// The descriptor the loader is bound to.
    pub fn schema(&self) -> (r: &S)
        ensures
            r == &self.schema,
    {
        &self.schema
    }

    /// Points the loader at another cache root.
    pub fn set_cache_root(&mut self, cache_root: String)
        ensures
            final(self).schema == old(self).schema,
            final(self).cache_root == cache_root,
    {
        self.cache_root = cache_root;
    }

    /// Applies the descriptor's fixup to raw bytes, preparing them for the
    /// parser; both the cache branch and the live branch prepare this way.
    pub fn prepare(&self, bytes: &Vec<u8>) -> (r: Vec<u8>)
        ensures
            r@ == spec_format(self.schema.spec_formatter(), bytes@),
    {
        self.schema.formatter().format(bytes)
    }
}

impl<S: Schema + Cacheable> APILoader<S> {
    /// The path of the descriptor's cache file under the loader's root.
    pub fn cache_file_path(&self) -> (r: String)
        ensures
            r@ == self.cache_root@ + seq!['/'] + spec_resolve(self.schema.spec_key()),
    {
        let mut r = self.cache_root.clone();
        r.append("/");
        let p = self.schema.file_path();
        r.append(p.as_str());
        proof {
            reveal_strlit("/");
            assert(r@ =~= self.cache_root@ + seq!['/'] + spec_resolve(self.schema.spec_key()));
        }
        r
    }

    /// Decides the cache branch of one load, given what the file system
    /// answered: a fresh file's bytes are returned, an absent file reports
    /// `FileNotFound`, a stale one `CacheExpired` with its path, age and
    /// window — both of which `get` answers with a fetch.
    pub fn load_cache(&self, outcome: CacheReadOutcome, now_ms: u64) -> (r: Result<
        Vec<u8>,
        CacheLoadError,
    >)
        ensures
            match outcome {
                CacheReadOutcome::Missing { cause } => r matches Result::Err(
                    CacheLoadError::FileNotFound { cause: c },
                ) && c == cause,
                CacheReadOutcome::Found { bytes, modified_ms } => if spec_is_fresh(
                    now_ms,
                    modified_ms,
                    S::spec_min_interval(),
                ) {
                    r matches Result::Ok(b) && b == bytes
                } else {
                    r matches Result::Err(
                        CacheLoadError::CacheExpired { path, updated_ms, interval_ms },
                    ) && path@ == self.cache_root@ + seq!['/'] + spec_resolve(self.schema.spec_key())
                        && updated_ms == modified_ms && interval_ms == S::spec_min_interval()
                },
            },
    {
        match outcome {
            CacheReadOutcome::Missing { cause } => Result::Err(
                CacheLoadError::FileNotFound { cause },
            ),
            CacheReadOutcome::Found { bytes, modified_ms } => {
                if is_fresh(now_ms, modified_ms, S::min_interval()) {
                    Result::Ok(bytes)
                } else {
                    Result::Err(
                        CacheLoadError::CacheExpired {
                            path: self.cache_file_path(),
                            updated_ms: modified_ms,
                            interval_ms: S::min_interval(),
                        },
                    )
                }
            },
        }
    }

    /// Decides what follows the cache read in one `get`: a fresh file is
    /// served through the descriptor's fixup, anything else asks for the
    /// single fetch.
    pub fn get_step(&self, outcome: CacheReadOutcome, now_ms: u64) -> (r: GetStep)
        ensures
            match outcome {
                CacheReadOutcome::Missing { cause } => r matches GetStep::Fetch,
                CacheReadOutcome::Found { bytes, modified_ms } => if spec_is_fresh(
                    now_ms,
                    modified_ms,
                    S::spec_min_interval(),
                ) {
                    r matches GetStep::Serve { prepared } && prepared@ == spec_format(
                        self.schema.spec_formatter(),
                        bytes@,
                    )
                } else {
                    r matches GetStep::Fetch
                },
            },
            match outcome {
                CacheReadOutcome::Missing { cause } => spec_cache_branch(
                    Option::None,
                    now_ms,
                    S::spec_min_interval(),
                    self.schema.spec_formatter(),
                ) == Option::<Seq<u8>>::None,
                CacheReadOutcome::Found { bytes, modified_ms } => (r matches GetStep::Serve {
                    prepared,
                } ==> spec_cache_branch(
                    Option::Some((bytes@, modified_ms)),
                    now_ms,
                    S::spec_min_interval(),
                    self.schema.spec_formatter(),
                ) == Option::Some(prepared@)),
            },
    {
        match outcome {
            CacheReadOutcome::Missing { .. } => GetStep::Fetch,
            CacheReadOutcome::Found { bytes, modified_ms } => {
                if is_fresh(now_ms, modified_ms, S::min_interval()) {
                    GetStep::Serve { prepared: self.prepare(&bytes) }
                } else {
                    GetStep::Fetch
                }
            },
        }
    }
}

/// How a `load_cache` error reads.
pub open spec fn spec_cache_load_error_message(e: CacheLoadError) -> Seq<char> {
    match e {
        CacheLoadError::FileNotFound { cause } => "File not found: "@ + cause@,
        CacheLoadError::ParseFailed { cause } => "Parse failed: "@ + cause@,
        CacheLoadError::CacheExpired { path, updated_ms, interval_ms } => "Cache expired: "@
            + path@ + " ("@ + spec_dec(updated_ms as int) + "ms + "@ + spec_dec(interval_ms as int)
            + "ms)"@,
    }
}

impl CacheLoadError {
    /// Renders the error for logs and display.
    pub fn to_message(&self) -> (r: String)
        ensures
            r@ == spec_cache_load_error_message(*self),
    {
        match self {
            CacheLoadError::FileNotFound { cause } => {
                let mut r = String::from_str("File not found: ");
                r.append(cause.as_str());
                proof {
                    assert(r@ =~= spec_cache_load_error_message(*self));
                }
                r
            },
            CacheLoadError::ParseFailed { cause } => {
                let mut r = String::from_str("Parse failed: ");
                r.append(cause.as_str());
                proof {
                    assert(r@ =~= spec_cache_load_error_message(*self));
                }
                r
            },
            CacheLoadError::CacheExpired { path, updated_ms, interval_ms } => {
                let mut r = String::from_str("Cache expired: ");
                r.append(path.as_str());
                r.append(" (");
                push_dec_u64(&mut r, *updated_ms);
                r.append("ms + ");
                push_dec_u64(&mut r, *interval_ms);
                r.append("ms)");
                proof {
                    reveal_strlit(" (");
                    reveal_strlit("ms + ");
                    reveal_strlit("ms)");
                    assert(r@ =~= spec_cache_load_error_message(*self));
                }
                r
            },
        }
    }
}

/// How a `get` error reads.
pub open spec fn spec_get_error_message(e: GetError) -> Seq<char> {
    match e {
        GetError::CacheParseFailed { cause } => "Cache parse failed: "@ + cause@,
        GetError::NetworkError { cause } => "Network error: "@ + cause@,
        GetError::LiveParseFailed { cause, write_error } => match write_error {
            Option::Some(w) => "Live parse failed: "@ + cause@ + "; cache write failed: "@ + w@,
            Option::None => "Live parse failed: "@ + cause@,
        },
    }
}

impl GetError {
    /// Renders the error for logs and display.
    pub fn to_message(&self) -> (r: String)
        ensures
            r@ == spec_get_error_message(*self),
    {
        match self {
            GetError::CacheParseFailed { cause } => {
                let mut r = String::from_str("Cache parse failed: ");
                r.append(cause.as_str());
                proof {
                    assert(r@ =~= spec_get_error_message(*self));
                }
                r
            },
            GetError::NetworkError { cause } => {
                let mut r = String::from_str("Network error: ");
                r.append(cause.as_str());
                proof {
                    assert(r@ =~= spec_get_error_message(*self));
                }
                r
            },
            GetError::LiveParseFailed { cause, write_error } => {
                let mut r = String::from_str("Live parse failed: ");
                r.append(cause.as_str());
                match write_error {
                    Option::Some(w) => {
                        r.append("; cache write failed: ");
                        r.append(w.as_str());
                    },
                    Option::None => {},
                }
                proof {
                    reveal_strlit("; cache write failed: ");
                    assert(r@ =~= spec_get_error_message(*self));
                }
                r
            },
        }
    }
}

} // verus!

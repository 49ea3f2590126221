//! The facade: credential snapshot cell, outbound HTTP client handle, and
//! the shared cooldown tracker behind a verified readers-writer lock.
//!
//! The snapshot cell is an atomically replaceable pointer to an immutable
//! [`LlmConfig`]: a reload publishes a whole new snapshot without blocking
//! readers, and a load hands back one whole snapshot, so there is no path on
//! which a reader could see fields of two snapshots mixed. Which snapshot a
//! load returns depends on concurrent reloads, so the facade's contracts
//! state what holds for every snapshot; the per-snapshot logic is verified
//! in [`crate::credentials`] over the snapshot as an argument.
//!
//! The cooldown state sits in `vstd`'s readers-writer lock: checks share
//! read access, while a record or a compaction takes the whole map
//! exclusively for its one operation. The tracker's own operations carry the
//! exact contracts, verified for every clock reading in [`crate::cooldown`].

use vstd::prelude::*;
use vstd::rwlock::{RwLock, RwLockPredicate};

use crate::config::LlmConfig;
use crate::cooldown::CooldownTracker;
use crate::credentials::{api_key_for, base_url_of, is_known_provider};
use crate::error::LlmError;
use crate::resolver::{resolved_model, resolved_provider, split_model_name};

verus! {

/// Seconds before an outbound request through the shared client times out.
pub const REQUEST_TIMEOUT_SECS: u64 = 120;

/// The invariant kept by the lock around the cooldown tracker: every stored
/// tracker names each model at most once.
pub struct CooldownLockInv;

impl RwLockPredicate<CooldownTracker> for CooldownLockInv {
    open spec fn inv(self, t: CooldownTracker) -> bool {
        t.wf()
    }
}

/// Atomically replaceable pointer to the current credential snapshot.
///
/// Holds an `arc_swap::ArcSwap<LlmConfig>`; the whole struct is opaque here
/// because its one field is the outside crate's cell. All access goes
/// through the three trusted methods below.
#[verifier::external_body]
struct ConfigCell {
    cell: arc_swap::ArcSwap<LlmConfig>,
}

impl ConfigCell {
    /// Relies on `arc_swap::ArcSwap::from_pointee` to publish the initial
    /// snapshot.
    #[verifier::external_body]
    fn new(config: LlmConfig) -> ConfigCell {
        ConfigCell { cell: arc_swap::ArcSwap::from_pointee(config) }
    }

    /// Relies on `arc_swap::ArcSwap::store`: the swap of the snapshot
    /// pointer is atomic and lock-free for readers, so a concurrent load
    /// observes either the old or the new snapshot whole, never a mix.
    #[verifier::external_body]
    fn store(&self, config: LlmConfig) {
        self.cell.store(std::sync::Arc::new(config));
    }

    /// Relies on `arc_swap::ArcSwap::load_full`: a lock-free read of the
    /// snapshot pointer. Which snapshot comes back depends on concurrent
    /// reloads, so nothing is stated of the value; callers pass it to
    /// functions verified for every snapshot.
    #[verifier::external_body]
    fn load(&self) -> LlmConfig {
        let snapshot = self.cell.load_full();
        (*snapshot).clone()
    }
}

/// Relies on `reqwest::Client::builder`, `ClientBuilder::timeout` and
/// `ClientBuilder::build` to construct a client whose requests time out
/// after the given number of seconds.
#[verifier::external_body]
fn build_http_client(timeout_secs: u64) -> Result<reqwest::Client, reqwest::Error> {
    reqwest::Client::builder().timeout(std::time::Duration::from_secs(timeout_secs)).build()
}

/// Relies on `std::time::SystemTime::now`, read as whole seconds since the
/// Unix epoch (a reading before the epoch counts as zero). The value depends
/// on the wall clock, so nothing is stated of it; the cooldown operations
/// are verified for every reading.
#[verifier::external_body]
fn current_unix_secs() -> u64 {
    match std::time::SystemTime::now().duration_since(std::time::UNIX_EPOCH) {
        Ok(d) => d.as_secs(),
        Err(_) => 0,
    }
}

#[verifier::external_type_specification]
#[verifier::external_body]
pub struct ExClient(reqwest::Client);

#[verifier::external_type_specification]
#[verifier::external_body]
pub struct ExReqwestError(reqwest::Error);

/// Manages provider credentials, the shared HTTP client, and rate-limit
/// cooldown state.
pub struct LlmManager {
    config: ConfigCell,
    http_client: reqwest::Client,
    rate_limited: RwLock<CooldownTracker, CooldownLockInv>,
}

impl LlmManager {
    /// The client handle the manager was constructed with.
    pub closed spec fn spec_http_client(&self) -> reqwest::Client {
        self.http_client
    }

    /// Creates a manager holding the given snapshot, a fresh HTTP client,
    /// and an empty cooldown tracker.
    pub fn new(config: LlmConfig) -> (r: Result<LlmManager, LlmError>)
        ensures
            r matches Err(e) ==> e is HttpClientBuild,
    {
        let http_client = match build_http_client(REQUEST_TIMEOUT_SECS) {
            Ok(client) => client,
            Err(_) => {
                return Err(LlmError::HttpClientBuild);
            },
        };
        Ok(
            LlmManager {
                config: ConfigCell::new(config),
                http_client,
                rate_limited: RwLock::new(CooldownTracker::new(), Ghost(CooldownLockInv)),
            },
        )
    }

    /// Atomically swaps in new provider credentials. Reads already in
    /// flight keep the snapshot they loaded; every later read sees the new
    /// one whole.
    pub fn reload_config(&self, config: LlmConfig) {
        self.config.store(config);
    }

    /// Looks the provider up in the current snapshot.
    ///
    /// Whatever snapshot is current: a name outside the fixed enumeration
    /// fails with `UnknownProvider`, and a recognized one either yields a
    /// secret or fails with `MissingProviderKey` naming it. Which of the two
    /// depends only on the loaded snapshot, as `api_key_for` states exactly.
    pub fn get_api_key(&self, provider: &str) -> (r: Result<String, LlmError>)
        ensures
            !is_known_provider(provider@) ==> (r matches Err(e)
                && e matches LlmError::UnknownProvider(p) && p@ == provider@),
            is_known_provider(provider@) ==> (r is Ok || (r matches Err(e)
                && e matches LlmError::MissingProviderKey(p) && p@ == provider@)),
    {
        let config = self.config.load();
        api_key_for(&config, provider)
    }

    /// The current snapshot's base-URL override, if any (meaningful for the
    /// ollama provider only).
    pub fn ollama_base_url(&self) -> Option<String> {
        let config = self.config.load();
        base_url_of(&config)
    }

    /// The shared HTTP client.
    pub fn http_client(&self) -> (r: &reqwest::Client)
        ensures
            *r == self.spec_http_client(),
    {
        &self.http_client
    }

    /// Resolves a model name to its provider and model components:
    /// `provider/model-name`, or just `model-name` for the default provider.
    /// Total: every input resolves.
    pub fn resolve_model(&self, model_name: &str) -> (r: Result<(String, String), LlmError>)
        ensures
            r matches Ok(pair) && pair.0@ == resolved_provider(model_name@) && pair.1@
                == resolved_model(model_name@),
    {
        Ok(split_model_name(model_name))
    }

    /// Marks the model as rate limited at the current clock reading,
    /// refreshing any earlier mark, under exclusive access to the tracker.
    pub fn record_rate_limit(&self, model_name: &str) {
        let now: u64 = current_unix_secs();
        let (mut tracker, write_handle) = self.rate_limited.acquire_write();
        tracker.record(model_name, now);
        write_handle.release_write(tracker);
    }

    /// Whether the model is inside a cooldown window of `cooldown_secs` at
    /// the current clock reading. Shares read access with concurrent
    /// checks; never mutates.
    pub fn is_rate_limited(&self, model_name: &str, cooldown_secs: u64) -> bool {
        let now: u64 = current_unix_secs();
        let read_handle = self.rate_limited.acquire_read();
        let limited = read_handle.borrow().is_rate_limited(model_name, cooldown_secs, now);
        read_handle.release_read();
        limited
    }

    /// Removes every mark whose cooldown of `cooldown_secs` has expired at
    /// the current clock reading, under exclusive access to the tracker.
    /// Checks answer the same before and after, so this only bounds memory.
    pub fn cleanup_rate_limits(&self, cooldown_secs: u64) {
        let now: u64 = current_unix_secs();
        let (mut tracker, write_handle) = self.rate_limited.acquire_write();
        tracker.cleanup(cooldown_secs, now);
        write_handle.release_write(tracker);
    }
}

} // verus!

//! A typed query cache: cached values keyed by query type and key, with
//! staleness tracking, timed eviction, fetch deduplication and change tokens
//! that tell subscribers when a value they read has been replaced.
//!
//! Everything that waits (fetch functions, lock waits, timers) belongs to the
//! host. The cache makes the decisions and reports, as [`Effect`]s, the
//! timers and notifications that the host is to carry out.

pub mod cache;
pub mod effects;
pub mod gc;
pub mod keyed;
pub mod laws;
pub mod model;
pub mod query;
pub mod query_client;
pub mod query_options;
pub mod query_scope;
pub mod testing_error;
pub mod utils;

pub use cache::ScopeLookup;
pub use effects::Effect;
pub use effects::EffectLog;
pub use gc::GcHandle;
pub use gc::GcTarget;
pub use gc::GcValue;
pub use model::ClientState;
pub use model::FetchPlan;
pub use query::Query;
pub use query::GC_NEVER_FROM;
pub use query_client::QueryClient;
pub use query_options::options_combine;
pub use query_options::ConfigError;
pub use query_options::QueryOptions;
pub use query_options::DEFAULT_GC_TIME;
pub use query_options::DEFAULT_STALE_TIME;
pub use query_scope::QueryScope;
pub use testing_error::TestingLibraryError;
pub use testing_error::TestingLibraryErrorTrait;
pub use utils::random_u64_rolling;

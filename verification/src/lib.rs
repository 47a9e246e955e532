//! A per-client request-rate admission control library.
//!
//! Given a stream of inbound requests identified by an opaque client key,
//! the engines here decide whether each request is admitted or rejected
//! under a configurable quota of `max_requests` per `window_seconds`.
//! Two engines implement the same two-phase contract (check, then record):
//! an exact sliding-window engine that keeps every admitted timestamp, and
//! an approximate fixed-window engine that keeps one counter and window
//! anchor per key.

pub mod config;
pub mod decimal;
pub mod laws;
pub mod lock_free;
pub mod middleware;
pub mod rate_limiter;
pub mod standard;

pub use config::RateLimitConfig;
pub use config::RateLimiterType;
pub use laws::lemma_approx_check_idempotent;
pub use laws::lemma_approx_isolation;
pub use laws::lemma_approx_quota;
pub use laws::lemma_approx_window_reset;
pub use laws::lemma_exact_check_idempotent;
pub use laws::lemma_exact_isolation;
pub use laws::lemma_exact_quota;
pub use laws::lemma_exact_window_reset;
pub use lock_free::LockFreeRateLimitState;
pub use lock_free::LockFreeSlidingWindowRateLimiter;
pub use middleware::admit_request;
pub use middleware::build_rate_limiter;
pub use middleware::resolve_client_key;
pub use middleware::RateLimitStateEnum;
pub use rate_limiter::RateLimiter;
pub use rate_limiter::RateLimiterEnum;
pub use rate_limiter::RejectionReason;
pub use rate_limiter::RequestState;
pub use standard::RateLimitState;
pub use standard::SlidingWindowRateLimiter;

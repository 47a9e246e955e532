use vstd::prelude::*;

verus! {

/// Quota ceiling used when no explicit value is configured.
pub const DEFAULT_MAX_REQUESTS: u32 = 10;

/// Window length in seconds used when no explicit value is configured.
pub const DEFAULT_WINDOW_SECONDS: u64 = 60;

/// Which rate-limiting engine a process runs.
#[derive(Clone, Copy, PartialEq, Eq, Structural, Debug)]
pub enum RateLimiterType {
    Standard,
    LockFree,
}

impl RateLimiterType {
    /// Selects the engine from an optional configuration setting.
    /// Only the exact name `standard` selects the standard engine; any
    /// other or absent setting selects the lock-free engine.
    pub fn from_name(name: Option<&str>) -> (t: Self)
        ensures
            t == (match name {
                Some(n) => if n@ == "standard"@ {
                    RateLimiterType::Standard
                } else {
                    RateLimiterType::LockFree
                },
                None => RateLimiterType::LockFree,
            }),
    {
        match name {
            Some(n) => {
                let standard: String = "standard".to_owned();
                if n.to_owned() == standard {
                    RateLimiterType::Standard
                } else {
                    RateLimiterType::LockFree
                }
            }
            None => RateLimiterType::LockFree,
        }
    }
}

/// The immutable quota configuration: at most `max_requests` admissions per
/// trailing window of `window_seconds` seconds. It is built once at startup
/// and never mutated afterwards.
#[derive(Clone, Copy, Debug)]
pub struct RateLimitConfig {
    pub max_requests: u32,
    pub window_seconds: u64,
}

impl RateLimitConfig {
    /// Both quota parameters are positive for the whole process lifetime.
    pub open spec fn wf(&self) -> bool {
        self.max_requests >= 1 && self.window_seconds >= 1
    }

    /// Builds a configuration from explicit, positive quota parameters.
    pub fn new(max_requests: u32, window_seconds: u64) -> (c: Self)
        requires
            max_requests >= 1,
            window_seconds >= 1,
        ensures
            c.max_requests == max_requests,
            c.window_seconds == window_seconds,
            c.wf(),
    {
        RateLimitConfig { max_requests, window_seconds }
    }

    /// Builds a configuration from optionally supplied settings; an absent
    /// or zero value falls back to the built-in default, so the result
    /// always satisfies the configuration invariant.
    pub fn from_values(max_requests: Option<u32>, window_seconds: Option<u64>) -> (c: Self)
        ensures
            c.max_requests == (match max_requests {
                Some(m) => if m >= 1 { m } else { DEFAULT_MAX_REQUESTS },
                None => DEFAULT_MAX_REQUESTS,
            }),
            c.window_seconds == (match window_seconds {
                Some(w) => if w >= 1 { w } else { DEFAULT_WINDOW_SECONDS },
                None => DEFAULT_WINDOW_SECONDS,
            }),
            c.wf(),
    {
        let max = match max_requests {
            Some(m) => if m >= 1 {
                m
            } else {
                DEFAULT_MAX_REQUESTS
            },
            None => DEFAULT_MAX_REQUESTS,
        };
        let window = match window_seconds {
            Some(w) => if w >= 1 {
                w
            } else {
                DEFAULT_WINDOW_SECONDS
            },
            None => DEFAULT_WINDOW_SECONDS,
        };
        RateLimitConfig { max_requests: max, window_seconds: window }
    }
}

impl Default for RateLimitConfig {
    /// The built-in quota: `DEFAULT_MAX_REQUESTS` requests per
    /// `DEFAULT_WINDOW_SECONDS` seconds.
    fn default() -> (c: Self)
        ensures
            c.max_requests == DEFAULT_MAX_REQUESTS,
            c.window_seconds == DEFAULT_WINDOW_SECONDS,
            c.wf(),
    {
        RateLimitConfig {
            max_requests: DEFAULT_MAX_REQUESTS,
            window_seconds: DEFAULT_WINDOW_SECONDS,
        }
    }
}

} // verus!

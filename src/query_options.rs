use vstd::prelude::*;

verus! {

/// Milliseconds after which an entry is stale when nothing else is configured.
pub const DEFAULT_STALE_TIME: u64 = 10000;

/// Milliseconds after which an idle entry is evicted when nothing else is configured.
pub const DEFAULT_GC_TIME: u64 = 300000;

/// A stale time longer than the gc time was configured on one options object.
#[derive(Debug, Clone, Copy, PartialEq, Eq)]
pub enum ConfigError {
    StaleAfterGc { stale_time: u64, gc_time: u64 },
}

/// Staleness and eviction durations, in milliseconds, each optional so that
/// two levels of configuration can be merged.
///
/// `u64::MAX` as the stale time means never stale, as the gc time never evicted.
#[derive(Debug, Clone, Copy, PartialEq, Eq)]
pub struct QueryOptions {
    pub stale_time: Option<u64>,
    pub gc_time: Option<u64>,
}

impl QueryOptions {
    /// Both durations set on one object are ordered: the stale time is at most the gc time.
    pub open spec fn valid(self) -> bool {
        match (self.stale_time, self.gc_time) {
            (Some(s), Some(g)) => s <= g,
            _ => true,
        }
    }

    pub open spec fn spec_stale_time(self) -> u64 {
        match self.stale_time {
            Some(s) => s,
            None => DEFAULT_STALE_TIME,
        }
    }

    pub open spec fn spec_gc_time(self) -> u64 {
        match self.gc_time {
            Some(g) => g,
            None => DEFAULT_GC_TIME,
        }
    }

    /// Options with nothing set: the defaults apply.
    pub fn new() -> (r: Self)
        ensures
            r.stale_time is None,
            r.gc_time is None,
            r.valid(),
    {
        QueryOptions { stale_time: None, gc_time: None }
    }

    /// Sets the time after which an entry is stale; refused when a gc time is
    /// already set and is shorter.
    pub fn set_stale_time(self, stale_time: u64) -> (r: Result<Self, ConfigError>)
        ensures
            match self.gc_time {
                Some(g) if stale_time > g => r == Err::<Self, ConfigError>(
                    ConfigError::StaleAfterGc { stale_time, gc_time: g },
                ),
                _ => r == Ok::<Self, ConfigError>(
                    QueryOptions { stale_time: Some(stale_time), gc_time: self.gc_time },
                ),
            },
            r is Ok ==> r->Ok_0.valid(),
    {
        match self.gc_time {
            Some(g) => {
                if stale_time > g {
                    return Err(ConfigError::StaleAfterGc { stale_time, gc_time: g });
                }
            },
            None => {},
        }
        Ok(QueryOptions { stale_time: Some(stale_time), gc_time: self.gc_time })
    }

    /// Sets the time after which an idle entry is evicted; refused when a
    /// stale time is already set and is longer.
    pub fn set_gc_time(self, gc_time: u64) -> (r: Result<Self, ConfigError>)
        ensures
            match self.stale_time {
                Some(s) if s > gc_time => r == Err::<Self, ConfigError>(
                    ConfigError::StaleAfterGc { stale_time: s, gc_time },
                ),
                _ => r == Ok::<Self, ConfigError>(
                    QueryOptions { stale_time: self.stale_time, gc_time: Some(gc_time) },
                ),
            },
            r is Ok ==> r->Ok_0.valid(),
    {
        match self.stale_time {
            Some(s) => {
                if s > gc_time {
                    return Err(ConfigError::StaleAfterGc { stale_time: s, gc_time });
                }
            },
            None => {},
        }
        Ok(QueryOptions { stale_time: self.stale_time, gc_time: Some(gc_time) })
    }

    /// The effective stale time: the configured one, else the default.
    pub fn stale_time(&self) -> (r: u64)
        ensures
            r == self.spec_stale_time(),
    {
        match self.stale_time {
            Some(s) => s,
            None => DEFAULT_STALE_TIME,
        }
    }

    /// The effective gc time: the configured one, else the default.
    pub fn gc_time(&self) -> (r: u64)
        ensures
            r == self.spec_gc_time(),
    {
        match self.gc_time {
            Some(g) => g,
            None => DEFAULT_GC_TIME,
        }
    }
}

/// Field by field, the value set at the more specific level wins.
pub open spec fn combined(base: QueryOptions, scope: Option<QueryOptions>) -> QueryOptions {
    match scope {
        Some(s) => QueryOptions {
            stale_time: if s.stale_time is Some { s.stale_time } else { base.stale_time },
            gc_time: if s.gc_time is Some { s.gc_time } else { base.gc_time },
        },
        None => base,
    }
}

/// Merges client-wide options with the options of one query type.
pub fn options_combine(base: QueryOptions, scope: Option<QueryOptions>) -> (r: QueryOptions)
    ensures
        r == combined(base, scope),
{
    match scope {
        Some(s) => QueryOptions {
            stale_time: match s.stale_time {
                Some(t) => Some(t),
                None => base.stale_time,
            },
            gc_time: match s.gc_time {
                Some(t) => Some(t),
                None => base.gc_time,
            },
        },
        None => base,
    }
}

} // verus!

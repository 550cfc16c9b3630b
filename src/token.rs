//! The persisted bearer-token record and the rules that build or judge one.
use vstd::prelude::*;

verus! {

/// The view of an optional string.
pub open spec fn opt_view(o: Option<String>) -> Option<Seq<char>> {
    match o {
        Some(s) => Some(s@),
        None => None,
    }
}

/// `a + b`, or `u64::MAX` where the sum does not fit.
pub open spec fn sat_add(a: u64, b: u64) -> u64 {
    if a + b <= u64::MAX {
        (a + b) as u64
    } else {
        u64::MAX
    }
}

/// The absolute expiry instant for a lifetime granted at `now` (seconds).
pub open spec fn expiry_after(now: u64, lifetime: Option<u64>) -> Option<u64> {
    match lifetime {
        Some(d) => Some(sat_add(now, d)),
        None => None,
    }
}

/// Absolute expiry instant of a token granted at `now` with the given lifetime;
/// `None` where the server gave no lifetime.
pub fn expiry_from(now: u64, lifetime: Option<u64>) -> (r: Option<u64>)
    ensures
        r == expiry_after(now, lifetime),
{
    match lifetime {
        Some(d) => Some(now.saturating_add(d)),
        None => None,
    }
}

/// The unit of persisted auth state.
#[derive(Debug, Clone, PartialEq, Eq)]
pub struct TokenData {
    pub access_token: String,
    pub refresh_token: Option<String>,
    pub expires_at: Option<u64>,
}

impl TokenData {
    /// A stored record always carries a non-empty bearer token.
    pub open spec fn wf(&self) -> bool {
        self.access_token@.len() > 0
    }

    /// The record's own timestamp says it can no longer be used at `now`.
    pub open spec fn expired_at(&self, now: u64) -> bool {
        match self.expires_at {
            Some(e) => now >= e,
            None => false,
        }
    }

    pub fn is_well_formed(&self) -> (r: bool)
        ensures
            r == self.wf(),
    {
        !self.access_token.as_str().is_empty()
    }

    pub fn is_expired(&self, now: u64) -> (r: bool)
        ensures
            r == self.expired_at(now),
    {
        match self.expires_at {
            Some(e) => now >= e,
            None => false,
        }
    }
}

} // verus!

use vstd::prelude::*;

verus! {

/// A classified failure of schema lookup or payload decoding.
///
/// `retriable` marks failures that may succeed when tried again unchanged
/// (transport failures); `cached` marks an error that was served from, or
/// stored into, a decoder's schema cache.
#[derive(Debug)]
pub struct SRCError {
    pub error: String,
    pub side: Option<String>,
    pub retriable: bool,
    pub cached: bool,
}

/// The view of an optional borrowed cause as an optional character sequence.
pub open spec fn opt_str_view(o: Option<&str>) -> Option<Seq<char>> {
    match o {
        Some(s) => Some(s@),
        None => None,
    }
}

/// The view of an optional owned string as an optional character sequence.
pub open spec fn opt_string_view(o: Option<String>) -> Option<Seq<char>> {
    match o {
        Some(s) => Some(s@),
        None => None,
    }
}

impl SRCError {
    /// Same message, cause and flags: what callers may observe of an error.
    pub open spec fn same_as(&self, other: &SRCError) -> bool {
        &&& self.error@ == other.error@
        &&& opt_string_view(self.side) == opt_string_view(other.side)
        &&& self.retriable == other.retriable
        &&& self.cached == other.cached
    }

    /// A fresh, uncached error with the given message, cause and retriable flag.
    pub fn new(error: &str, cause: Option<&str>, retriable: bool) -> (r: SRCError)
        ensures
            r.error@ == error@,
            opt_string_view(r.side) == opt_str_view(cause),
            r.retriable == retriable,
            !r.cached,
    {
        let side = match cause {
            Some(v) => Some(v.to_owned()),
            None => None,
        };
        SRCError { error: error.to_owned(), side, retriable, cached: false }
    }

    /// The same error, marked as coming from the cache.
    pub fn into_cache(self) -> (r: SRCError)
        ensures
            r.error == self.error,
            r.side == self.side,
            r.retriable == self.retriable,
            r.cached,
    {
        SRCError { error: self.error, side: self.side, retriable: self.retriable, cached: true }
    }

    /// The error message.
    pub fn message(&self) -> (r: &str)
        ensures
            r@ == self.error@,
    {
        self.error.as_str()
    }

    /// Whether trying again unchanged may succeed.
    pub fn is_retriable(&self) -> (r: bool)
        ensures
            r == self.retriable,
    {
        self.retriable
    }

    /// Whether the error was served from or stored into a schema cache.
    pub fn is_cached(&self) -> (r: bool)
        ensures
            r == self.cached,
    {
        self.cached
    }
}

impl Clone for SRCError {
    fn clone(&self) -> (r: SRCError)
        ensures
            r.same_as(self),
    {
        let side = match &self.side {
            Some(v) => Some(v.clone()),
            None => None,
        };
        SRCError {
            error: self.error.clone(),
            side,
            retriable: self.retriable,
            cached: self.cached,
        }
    }
}

} // verus!

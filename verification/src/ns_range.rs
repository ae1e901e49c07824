//! The `NSRange` of the macOS text input protocol: a location and a length,
//! with `NSNotFound` as the location of the invalid range.

use vstd::prelude::*;

verus! {

/// The location of an invalid range (`NSNotFound`, the largest `NSInteger`).
pub open spec fn ns_not_found_spec() -> usize {
    isize::MAX as usize
}

/// The location of an invalid range (`NSNotFound`, the largest `NSInteger`).
#[verifier::when_used_as_spec(ns_not_found_spec)]
pub fn ns_not_found() -> (r: usize)
    ensures
        r == ns_not_found_spec(),
{
    isize::MAX as usize
}

/// A range of UTF-16 offsets as the text input protocol passes it.
#[derive(Clone, Copy, Debug, PartialEq, Eq, Structural)]
pub struct NSRange {
    pub location: usize,
    pub length: usize,
}

impl NSRange {
    /// The invalid range.
    pub fn invalid() -> (r: Self)
        ensures
            r.location == ns_not_found(),
            r.length == 0,
    {
        NSRange { location: ns_not_found(), length: 0 }
    }

    /// Whether the range is valid.
    pub fn is_valid(&self) -> (r: bool)
        ensures
            r == (self.location != ns_not_found()),
    {
        self.location != ns_not_found()
    }

    /// The range as start and end offsets, when it is valid.
    pub fn to_range(self) -> (r: Option<(usize, usize)>)
        requires
            self.location != ns_not_found() ==> self.location + self.length <= usize::MAX,
        ensures
            r is Some <==> self.location != ns_not_found(),
            r matches Some((start, end)) ==> start == self.location && end == self.location
                + self.length,
    {
        if self.is_valid() {
            let start = self.location;
            let end = start + self.length;
            Some((start, end))
        } else {
            None
        }
    }

    /// The range from `start` to `end`; an end before the start gives an
    /// empty range.
    pub fn from_range(start: usize, end: usize) -> (r: Self)
        ensures
            r.location == start,
            r.length == if end >= start { (end - start) as usize } else { 0 },
    {
        NSRange { location: start, length: if end >= start { end - start } else { 0 } }
    }
}

/// Converting a valid range to offsets and back gives the same range.
pub proof fn lemma_range_round_trip(r: NSRange)
    requires
        r.location != ns_not_found(),
        r.location + r.length <= usize::MAX,
    ensures
        ({
            let end = (r.location + r.length) as usize;
            let back = NSRange {
                location: r.location,
                length: if end >= r.location { (end - r.location) as usize } else { 0 },
            };
            back == r
        }),
{
}

} // verus!

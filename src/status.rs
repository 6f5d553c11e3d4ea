//! Status predicates. A listing's status code is signed: zero asks for no
//! constraint, a positive code is a minimum, and a negative code names one
//! moderation state exactly (banned, rejected).

use vstd::prelude::*;
use crate::text::{same_text, trim_text, trimmed};

verus! {

/// What a listing demands of a record's `status` field.
#[derive(Clone, Copy, Debug, PartialEq, Eq, Structural)]
pub enum StatusFilter {
    /// Any status at all, negative ones included.
    NoConstraint,
    /// `status >= n`.
    AtLeast(i32),
    /// `status == n`.
    ExactlyEquals(i32),
    /// `lo <= status <= hi`.
    Between(i32, i32),
}

impl StatusFilter {
    /// Whether a record with this status passes the filter.
    pub open spec fn admits(self, status: int) -> bool {
        match self {
            StatusFilter::NoConstraint => true,
            StatusFilter::AtLeast(n) => status >= n,
            StatusFilter::ExactlyEquals(n) => status == n,
            StatusFilter::Between(lo, hi) => lo <= status && status <= hi,
        }
    }

    pub fn matches(&self, status: i32) -> (r: bool)
        ensures
            r == self.admits(status as int),
    {
        match self {
            StatusFilter::NoConstraint => true,
            StatusFilter::AtLeast(n) => status >= *n,
            StatusFilter::ExactlyEquals(n) => status == *n,
            StatusFilter::Between(lo, hi) => *lo <= status && status <= *hi,
        }
    }
}

/// The filter that a signed status code stands for.
pub open spec fn status_filter_of(status: int) -> StatusFilter {
    if status > 0 {
        StatusFilter::AtLeast(status as i32)
    } else if status < 0 {
        StatusFilter::ExactlyEquals(status as i32)
    } else {
        StatusFilter::NoConstraint
    }
}

/// Reads a signed status code: positive is a minimum, negative an exact
/// value, zero no constraint.
pub fn build_status_filter(status: i8) -> (r: StatusFilter)
    ensures
        r == status_filter_of(status as int),
        status > 0 ==> r == StatusFilter::AtLeast(status as i32),
        status < 0 ==> r == StatusFilter::ExactlyEquals(status as i32),
        status == 0 ==> r == StatusFilter::NoConstraint,
{
    if status > 0 {
        StatusFilter::AtLeast(status as i32)
    } else if status < 0 {
        StatusFilter::ExactlyEquals(status as i32)
    } else {
        StatusFilter::NoConstraint
    }
}

/// The minimum status of a named showcase position: "managed" (6),
/// "recommended" (2), "published" (1); any other name has no constraint.
pub open spec fn position_filter_of(position: Seq<char>) -> StatusFilter {
    if position == "managed"@ {
        StatusFilter::AtLeast(6)
    } else if position == "recommended"@ {
        StatusFilter::AtLeast(2)
    } else if position == "published"@ {
        StatusFilter::AtLeast(1)
    } else {
        StatusFilter::NoConstraint
    }
}

/// The status filter of a showcase position, named with surrounding space allowed.
pub fn position_status_filter(position: &str) -> (r: StatusFilter)
    ensures
        r == position_filter_of(trimmed(position@)),
{
    let p = trim_text(position);
    if same_text(p, "managed") {
        StatusFilter::AtLeast(6)
    } else if same_text(p, "recommended") {
        StatusFilter::AtLeast(2)
    } else if same_text(p, "published") {
        StatusFilter::AtLeast(1)
    } else {
        StatusFilter::NoConstraint
    }
}

/// The `published` flag a wish listing asks for: positive codes want
/// published wishes, negative ones unpublished, zero either.
pub fn wishes_published_filter(published: i8) -> (r: Option<bool>)
    ensures
        published > 0 ==> r == Some(true),
        published < 0 ==> r == Some(false),
        published == 0 ==> r == None::<bool>,
{
    if published > 0 {
        Some(true)
    } else if published < 0 {
        Some(false)
    } else {
        None
    }
}

} // verus!

//! Small additions to types of the standard library.

use vstd::prelude::*;

use crate::api::Paged;
use crate::api::PagingRequest;
use crate::api::paged;

verus! {

/// An option that can be folded into a value.
pub trait OptionExt<T>: Sized {
    /// Applies `f` to `applied` and the value inside, where there is one,
    /// and hands `applied` back untouched where there is none.
    fn apply_if_some<Applied, F: FnOnce(Applied, T) -> Applied>(self, applied: Applied, f: F) -> (r:
        Applied)
        requires
            self.inner() matches Some(v) ==> f.requires((applied, v)),
        ensures
            match self.inner() {
                Some(v) => f.ensures((applied, v), r),
                None => r == applied,
            },
    ;

    /// The value as a plain option.
    spec fn inner(self) -> Option<T>;
}

impl<T> OptionExt<T> for Option<T> {
    fn apply_if_some<Applied, F: FnOnce(Applied, T) -> Applied>(self, applied: Applied, f: F) -> (r:
        Applied) {
        match self {
            Some(option) => f(applied, option),
            None => applied,
        }
    }

    open spec fn inner(self) -> Option<T> {
        self
    }
}

/// Whether `needle` stands in `haystack` from the position `i` on.
pub open spec fn occurs_at(haystack: Seq<char>, needle: Seq<char>, i: int) -> bool {
    0 <= i && i + needle.len() <= haystack.len() && haystack.subrange(i, i + needle.len())
        == needle
}

/// Whether `needle` stands somewhere in `haystack`.
pub open spec fn spec_contains(haystack: Seq<char>, needle: Seq<char>) -> bool {
    exists|i: int| occurs_at(haystack, needle, i)
}

/// Whether `needle` occurs in `haystack`, by `str::contains`, which is
/// true when the pattern matches a part of the string.
#[verifier::external_body]
pub(crate) fn contains(haystack: &str, needle: &str) -> (r: bool)
    ensures
        r == spec_contains(haystack@, needle@),
{
    haystack.contains(needle)
}

/// A list of rows that can be read page by page.
pub trait SelectExt<T>: Sized {
    /// The rows that are selected, in their order.
    spec fn rows(self) -> Seq<T>;

    /// The page `request` of the rows, with the number of all of them.
    fn paged(self, request: PagingRequest) -> (page: Paged<T>)
        ensures
            page.count == self.rows().len(),
            page.items@ == self.rows().subrange(
                request.spec_start(self.rows().len() as int),
                request.spec_end(self.rows().len() as int),
            ),
    ;
}

impl<T> SelectExt<T> for Vec<T> {
    open spec fn rows(self) -> Seq<T> {
        self@
    }

    fn paged(self, request: PagingRequest) -> (page: Paged<T>) {
        paged(self, request)
    }
}

} // verus!

//! Letting a request in takes two steps, one after the other: reading
//! who asks, then checking that they may. This module holds the
//! decisions of that sequence; whoever drives it waits for each step.

use vstd::prelude::*;

use crate::utils::errors::AError;
use crate::utils::errors::AErrorView;
use crate::utils::errors::StatusCode;
use crate::utils::errors::forbidden;
use crate::utils::errors::spec_error;

verus! {

/// A rule on who is let in, checked against what is known of the one
/// who asks.
pub trait CheckPermission {
    /// What the check finds out about who asks.
    type Output;

    /// What was read from the request.
    type Authentication;

    /// What is known of the one who asks.
    type AppData;

    /// Whether `r` is what the check of `permission` against `data` comes
    /// to.
    spec fn outcome(
        data: Self::AppData,
        permission: Self::Authentication,
        r: Result<Option<Self::Output>, AError>,
    ) -> bool;

    /// Checks `permission` against `data`: a failure, or what was found
    /// out where the rule lets them in, or nothing where it does not.
    fn check_permission(data: Self::AppData, permission: &Self::Authentication) -> (r: Result<
        Option<Self::Output>,
        AError,
    >)
        ensures
            Self::outcome(data, *permission, r),
    ;
}

/// The rule that lets nobody in.
pub struct AllRejected;

impl CheckPermission for AllRejected {
    type Output = ();

    type Authentication = ();

    type AppData = ();

    open spec fn outcome(data: (), permission: (), r: Result<Option<()>, AError>) -> bool {
        r == Ok::<Option<()>, AError>(None)
    }

    /// Whoever asks, the answer is that the rule does not let them in.
    fn check_permission(data: (), permission: &()) -> (r: Result<Option<()>, AError>) {
        Ok(None)
    }
}

/// A request that was let in: what was read from it, and what the check
/// found out about who asks.
#[derive(Debug, Clone, PartialEq, Eq)]
pub struct APermission<Extracted, Output> {
    pub extracted_info: Extracted,
    pub auth_info: Output,
}

/// How far the sequence has come.
pub enum PermissionExtractFunc<Extracted> {
    /// Reading who asks.
    Extracting,
    /// Checking that they may; what was read is kept for the end.
    Checking { info: Extracted },
}

/// What happened since the sequence was last looked at.
pub enum Poll<Extracted, Output> {
    /// The step that is under way has not finished.
    Pending,
    /// Reading has finished.
    Extracted(Result<Extracted, AError>),
    /// Checking has finished. `None` where the rule does not let them in.
    Checked(Result<Option<Output>, AError>),
}

/// What to do next.
pub enum Step<Extracted, Output> {
    /// Wait on, in the same state.
    Wait(PermissionExtractFunc<Extracted>),
    /// Start the check, and wait in the state given.
    Check(PermissionExtractFunc<Extracted>),
    /// The sequence is over, with this outcome.
    Ready(Result<APermission<Extracted, Output>, AError>),
}

/// What is reported where a rule does not let the caller in.
pub open spec fn permission_denied() -> AErrorView {
    spec_error(StatusCode::Forbidden, "Permission denied"@)
}

impl<Extracted> PermissionExtractFunc<Extracted> {
    /// Where the sequence starts.
    pub fn new() -> (state: Self)
        ensures
            state is Extracting,
    {
        PermissionExtractFunc::Extracting
    }

    /// One look at the sequence.
    ///
    /// While reading: a failure ends the sequence with that failure; what
    /// was read is kept and the check is started. While checking: a
    /// failure ends the sequence with that failure; a rule that does not
    /// let them in ends it with `Forbidden`; otherwise it ends well, with
    /// what was read and what the check found. A step that has not
    /// finished leaves everything as it is, and so does news of a step
    /// that is not under way.
    pub fn poll<Output>(self, event: Poll<Extracted, Output>) -> (step: Step<Extracted, Output>)
        ensures
            match (self, event) {
                (PermissionExtractFunc::Extracting, Poll::Extracted(Ok(info))) => step
                    == Step::<Extracted, Output>::Check(PermissionExtractFunc::Checking { info }),
                (PermissionExtractFunc::Extracting, Poll::Extracted(Err(e))) => step
                    == Step::<Extracted, Output>::Ready(Err(e)),
                (PermissionExtractFunc::Checking { info }, Poll::Checked(Ok(Some(auth_info)))) => step
                    == Step::Ready(Ok(APermission { extracted_info: info, auth_info })),
                (PermissionExtractFunc::Checking { info }, Poll::Checked(Ok(None))) => step matches Step::Ready(
                    Err(e),
                ) && e@ == permission_denied(),
                (PermissionExtractFunc::Checking { info }, Poll::Checked(Err(e))) => step
                    == Step::<Extracted, Output>::Ready(Err(e)),
                _ => step == Step::<Extracted, Output>::Wait(self),
            },
    {
        match (self, event) {
            (state, Poll::Pending) => Step::Wait(state),
            (PermissionExtractFunc::Extracting, Poll::Extracted(Ok(info))) => Step::Check(
                PermissionExtractFunc::Checking { info },
            ),
            (PermissionExtractFunc::Extracting, Poll::Extracted(Err(e))) => Step::Ready(Err(e)),
            (PermissionExtractFunc::Checking { info }, Poll::Checked(Ok(Some(auth_info)))) => Step::Ready(
                Ok(APermission { extracted_info: info, auth_info }),
            ),
            (PermissionExtractFunc::Checking { info: _ }, Poll::Checked(Ok(None))) => Step::Ready(
                Err(forbidden("Permission denied")),
            ),
            (PermissionExtractFunc::Checking { info: _ }, Poll::Checked(Err(e))) => Step::Ready(Err(e)),
            (state, _) => Step::Wait(state),
        }
    }
}

} // verus!

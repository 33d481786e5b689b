//! The short status of an update, derived from its extended outcome.
use vstd::prelude::*;

verus! {

/// What an update did, as far as its short status needs to know: nothing,
/// or an install of the release with the given version tag.
#[derive(Debug)]
pub enum UpdateOutcome {
    /// The binary was already up to date.
    UpToDate,
    /// The binary was updated to the release with this version tag.
    Updated(String),
}

/// The short status of an update; the wrapped strings are version tags.
#[derive(Debug)]
pub enum Status {
    /// Up to date at this version.
    UpToDate(String),
    /// Updated to this version.
    Updated(String),
}

/// The status of `outcome`: the current version when nothing was installed,
/// else the version of the installed release.
pub open spec fn status_of(outcome: UpdateOutcome, current_version: String) -> Status {
    match outcome {
        UpdateOutcome::UpToDate => Status::UpToDate(current_version),
        UpdateOutcome::Updated(version) => Status::Updated(version),
    }
}

impl UpdateOutcome {
    /// Turn the extended outcome into the short status.
    pub fn into_status(self, current_version: String) -> (s: Status)
        ensures
            s == status_of(self, current_version),
            self is UpToDate ==> s == Status::UpToDate(current_version),
            forall|v: String| self == UpdateOutcome::Updated(v) ==> s == Status::Updated(v),
    {
        match self {
            UpdateOutcome::UpToDate => Status::UpToDate(current_version),
            UpdateOutcome::Updated(version) => Status::Updated(version),
        }
    }
}

/// The result of a plain update, from the result of the extended update and
/// the version that was current before it ran: an error is passed on
/// unchanged, an outcome becomes its status.
pub fn update_result<E>(extended: Result<UpdateOutcome, E>, current_version: String) -> (r: Result<
    Status,
    E,
>)
    ensures
        r == match extended {
            Ok(outcome) => Ok(status_of(outcome, current_version)),
            Err(e) => Err(e),
        },
        extended == Ok::<UpdateOutcome, E>(UpdateOutcome::UpToDate) ==> r == Ok::<Status, E>(
            Status::UpToDate(current_version),
        ),
        forall|v: String|
            extended == Ok::<UpdateOutcome, E>(UpdateOutcome::Updated(v)) ==> r == Ok::<Status, E>(
                Status::Updated(v),
            ),
        forall|e: E| extended == Err::<UpdateOutcome, E>(e) ==> r == Err::<Status, E>(e),
{
    match extended {
        Ok(outcome) => Ok(outcome.into_status(current_version)),
        Err(e) => Err(e),
    }
}

/// An installed release is reported as an update to that release's version,
/// whatever version was current before, and an update that installed
/// nothing is reported as up to date at the current version.
pub proof fn law_status_reports_installed_version(version: String, current_version: String)
    ensures
        status_of(UpdateOutcome::Updated(version), current_version) == Status::Updated(version),
        status_of(UpdateOutcome::UpToDate, current_version) == Status::UpToDate(current_version),
{
}

/// The short status is "updated" exactly when a release was installed, and
/// then names that release's version; otherwise it names the current version.
pub proof fn law_status_updated_iff_installed(outcome: UpdateOutcome, current_version: String)
    ensures
        (status_of(outcome, current_version) is Updated) == (outcome is Updated),
        status_of(outcome, current_version) is UpToDate ==> status_of(outcome, current_version)
            == Status::UpToDate(current_version),
        outcome is Updated ==> status_of(outcome, current_version) == Status::Updated(
            outcome->0,
        ),
{
}

} // verus!

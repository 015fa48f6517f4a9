//! Levels of log messages and the name of each build status.

use vstd::prelude::*;
use crate::state::BuildStatus;

verus! {

/// Log levels for build messages.
#[derive(Debug, Clone, Copy, PartialEq, Eq, Structural)]
pub enum LogLevel {
    Debug,
    Info,
    Warning,
    Error,
}

/// The name of a build status, as its `Debug` form writes it.
pub open spec fn status_name_spec(s: BuildStatus) -> Seq<char> {
    match s {
        BuildStatus::NotStarted => "NotStarted"@,
        BuildStatus::Extracting => "Extracting"@,
        BuildStatus::Building => "Building"@,
        BuildStatus::Completed => "Completed"@,
        BuildStatus::Failed => "Failed"@,
    }
}

/// The name of a build status.
pub fn status_name(s: BuildStatus) -> (n: String)
    ensures
        n@ == status_name_spec(s),
{
    match s {
        BuildStatus::NotStarted => String::from_str("NotStarted"),
        BuildStatus::Extracting => String::from_str("Extracting"),
        BuildStatus::Building => String::from_str("Building"),
        BuildStatus::Completed => String::from_str("Completed"),
        BuildStatus::Failed => String::from_str("Failed"),
    }
}

/// Each build status is named by its variant's identifier, as its `Debug`
/// form writes it, and no two statuses share a name.
pub proof fn law_status_names_are_the_variants(a: BuildStatus, b: BuildStatus)
    ensures
        status_name_spec(BuildStatus::NotStarted) =~= seq!['N', 'o', 't', 'S', 't', 'a', 'r', 't', 'e', 'd'],
        status_name_spec(BuildStatus::Extracting) =~= seq!['E', 'x', 't', 'r', 'a', 'c', 't', 'i', 'n', 'g'],
        status_name_spec(BuildStatus::Building) =~= seq!['B', 'u', 'i', 'l', 'd', 'i', 'n', 'g'],
        status_name_spec(BuildStatus::Completed) =~= seq!['C', 'o', 'm', 'p', 'l', 'e', 't', 'e', 'd'],
        status_name_spec(BuildStatus::Failed) =~= seq!['F', 'a', 'i', 'l', 'e', 'd'],
        a != b ==> status_name_spec(a) != status_name_spec(b),
{
    reveal_strlit("NotStarted");
    reveal_strlit("Extracting");
    reveal_strlit("Building");
    reveal_strlit("Completed");
    reveal_strlit("Failed");
    if a != b {
        assert(status_name_spec(a)[0] != status_name_spec(b)[0]);
    }
}

} // verus!

//! Default configuration paths of the programs.

use vstd::prelude::*;

use crate::config::{kind_at, kind_of, PathKind, PathSurvey};

verus! {

/// The system path where something stands there, the local one otherwise.
pub open spec fn default_path(
    system_path: Seq<char>,
    local_path: Seq<char>,
    survey: Map<Seq<char>, PathKind>,
) -> Seq<char> {
    if kind_at(survey, system_path) != PathKind::Missing {
        system_path
    } else {
        local_path
    }
}

/// The configuration that `taskd` and `taskctl` use unless told otherwise.
pub fn default_config_path(survey: &PathSurvey) -> (r: String)
    ensures
        r@ == default_path("/etc/taskd/tasks.yaml"@, "config/tasks.yaml"@, survey@),
{
    resolve_default_config_path("/etc/taskd/tasks.yaml", "config/tasks.yaml", survey)
}

/// The configuration that `artifactctl` uses unless told otherwise.
pub fn default_artifacts_config_path(survey: &PathSurvey) -> (r: String)
    ensures
        r@ == default_path("/etc/taskd/artifacts.yaml"@, "config/artifacts.yaml"@, survey@),
{
    resolve_default_config_path("/etc/taskd/artifacts.yaml", "config/artifacts.yaml", survey)
}

/// The system path where something stands there, the local one otherwise.
pub fn resolve_default_config_path(
    system_path: &str,
    local_path: &str,
    survey: &PathSurvey,
) -> (r: String)
    ensures
        r@ == default_path(system_path@, local_path@, survey@),
{
    if kind_of(survey, system_path) != PathKind::Missing {
        system_path.to_owned()
    } else {
        local_path.to_owned()
    }
}

} // verus!

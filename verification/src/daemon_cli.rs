//! The commands of `taskd`.

use vstd::prelude::*;

use crate::config::PathSurvey;
use crate::config_path::{default_config_path, default_path};

verus! {

/// A command of `taskd`.
#[derive(Debug, Clone, Copy, PartialEq, Eq, Structural)]
pub enum TaskdCommand {
    Daemon,
}

/// A command line of `taskd`.
#[derive(Debug)]
pub struct TaskdCli {
    pub config: String,
    pub command: TaskdCommand,
}

impl TaskdCli {
    /// A command line that names a configuration, or leaves it to where configurations are looked
    /// for.
    pub fn new(config: Option<String>, command: TaskdCommand, survey: &PathSurvey) -> (r: TaskdCli)
        ensures
            r.command == command,
            r.config@ == (match config {
                Some(path) => path@,
                None => default_path("/etc/taskd/tasks.yaml"@, "config/tasks.yaml"@, survey@),
            }),
    {
        let config = match config {
            Some(path) => path,
            None => default_config_path(survey),
        };
        TaskdCli { config, command }
    }
}

} // verus!

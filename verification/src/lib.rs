//! A single-host task scheduler: configuration rules, run bookkeeping, reload planning, reports
//! and artifact workflows. All decisions live here; processes, files and the network are left to
//! the program around the library.

pub mod text;
pub mod order;
pub mod text_map;
pub mod paths;
pub mod path_laws;
pub mod path_order;
pub mod failure;
pub mod calendar;
pub mod text_laws;
pub mod config;
pub mod config_laws;
pub mod settings_laws;
pub mod config_path;
pub mod runtime_paths;
pub mod task_runner;
pub mod state;
pub mod history;
pub mod reload;
pub mod scheduler;
pub mod run_laws;
pub mod reload_laws;
pub mod tally;
pub mod record_laws;
pub mod report;
pub mod report_laws;
pub mod display;
pub mod display_laws;
pub mod notifications;
pub mod notify_laws;
pub mod template;
pub mod template_laws;
pub mod json;
pub mod artifacts;
pub mod sorting;
pub mod artifact_records;
pub mod artifact_run;
pub mod artifact_runfile;
pub mod artifact_plan;
pub mod artifact_laws;
pub mod artifact_cli;
pub mod workflow_laws;
pub mod cli;
pub mod daemon_cli;
pub mod control;
pub mod control_laws;
pub mod view_laws;
pub mod message_laws;

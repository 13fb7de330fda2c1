use std::path::{Path, PathBuf};

use taskd::config::{PathKind, PathSurvey};
use taskd::config_path::{
    default_artifacts_config_path, default_config_path, resolve_default_config_path,
};
use taskd::daemon_cli::{TaskdCli, TaskdCommand};
use taskd::history::history_path_for_config;
use taskd::path_order::{holds_path, path_place, paths_not_in, sorted_paths};
use taskd::paths::{
    components_of, directory, file_stem_of, is_absolute, join_path, parent_of, same_path,
};
use taskd::order::Place;
use taskd::runtime_paths::{
    last_good_config_path_for_config, runtime_data_dir_for_config, runtime_data_path_for_config,
};
use taskd::state::state_path_for_config;

#[test]
fn prefers_system_config_when_present() {
    let dir = tempfile::tempdir().expect("tempdir");
    let system_path = dir.path().join("etc/taskd/tasks.yaml").display().to_string();
    let local_path = dir.path().join("config/tasks.yaml").display().to_string();
    let mut survey = PathSurvey::new();
    survey.insert(system_path.clone(), PathKind::Other);

    let resolved = resolve_default_config_path(&system_path, &local_path, &survey);

    assert_eq!(resolved, system_path);
}

#[test]
fn falls_back_to_local_config_when_system_config_is_missing() {
    let dir = tempfile::tempdir().expect("tempdir");
    let system_path = dir.path().join("etc/taskd/tasks.yaml").display().to_string();
    let local_path = dir.path().join("config/tasks.yaml").display().to_string();

    let resolved = resolve_default_config_path(&system_path, &local_path, &PathSurvey::new());

    assert_eq!(resolved, local_path);
}

#[test]
fn default_configs_look_in_two_places() {
    let mut survey = PathSurvey::new();
    assert_eq!(default_config_path(&survey), "config/tasks.yaml");
    assert_eq!(default_artifacts_config_path(&survey), "config/artifacts.yaml");
    survey.insert("/etc/taskd/tasks.yaml".to_string(), PathKind::Other);
    survey.insert("/etc/taskd/artifacts.yaml".to_string(), PathKind::Other);
    assert_eq!(default_config_path(&survey), "/etc/taskd/tasks.yaml");
    assert_eq!(default_artifacts_config_path(&survey), "/etc/taskd/artifacts.yaml");
}

#[test]
fn the_daemon_looks_where_the_control_program_looks() {
    let mut survey = PathSurvey::new();
    let local = TaskdCli::new(None, TaskdCommand::Daemon, &survey);
    assert_eq!(local.config, "config/tasks.yaml");
    survey.insert("/etc/taskd/tasks.yaml".to_string(), PathKind::Other);
    let system = TaskdCli::new(None, TaskdCommand::Daemon, &survey);
    assert_eq!(system.config, "/etc/taskd/tasks.yaml");
    let named = TaskdCli::new(Some("/tmp/t.yaml".to_string()), TaskdCommand::Daemon, &survey);
    assert_eq!(named.config, "/tmp/t.yaml");
    assert_eq!(named.command, TaskdCommand::Daemon);
}

#[test]
fn derives_history_path_from_config_path() {
    assert_eq!(
        history_path_for_config("/tmp/taskd/tasks.yaml"),
        "/tmp/taskd/tasks.history.db"
    );
}

#[test]
fn derives_history_path_from_system_config_path() {
    assert_eq!(
        history_path_for_config("/etc/taskd/tasks.yaml"),
        "/var/lib/taskd/tasks.history.db"
    );
}

#[test]
fn derives_state_path_from_config_path() {
    assert_eq!(state_path_for_config("/tmp/taskd/tasks.yaml"), "/tmp/taskd/tasks.state.yaml");
}

#[test]
fn derives_state_path_from_system_config_path() {
    assert_eq!(
        state_path_for_config("/etc/taskd/tasks.yaml"),
        "/var/lib/taskd/tasks.state.yaml"
    );
}

#[test]
fn uses_var_lib_for_default_system_config_dir() {
    let config_path = "/etc/taskd/tasks.yaml";
    assert_eq!(runtime_data_dir_for_config(config_path), "/var/lib/taskd");
    assert_eq!(
        runtime_data_path_for_config(config_path, "state.yaml"),
        "/var/lib/taskd/tasks.state.yaml"
    );
}

#[test]
fn uses_config_sibling_for_non_system_config_dir() {
    let config_path = "/tmp/taskd/tasks.yaml";
    assert_eq!(runtime_data_dir_for_config(config_path), "/tmp/taskd");
    assert_eq!(
        runtime_data_path_for_config(config_path, "history.db"),
        "/tmp/taskd/tasks.history.db"
    );
}

#[test]
fn derives_last_good_config_path() {
    assert_eq!(
        last_good_config_path_for_config("/etc/taskd/tasks.yaml"),
        "/var/lib/taskd/tasks.last-good.yaml"
    );
    assert_eq!(
        last_good_config_path_for_config("/tmp/taskd/tasks.yaml"),
        "/tmp/taskd/tasks.last-good.yaml"
    );
}

#[test]
fn runtime_files_of_one_config_differ() {
    let configs = [
        "/etc/taskd/tasks.yaml",
        "tasks.yaml",
        "./tasks",
        "/srv/a/b.c.yaml",
        "/srv/a/tasks.last-good.yaml",
        "/srv/a/tasks.state.yaml/",
        "/var/lib/taskd/tasks.history.db",
        "a/..x",
        "..",
        "/",
        "",
    ];
    for config in configs {
        let state = state_path_for_config(config);
        let history = history_path_for_config(config);
        let last_good = last_good_config_path_for_config(config);
        assert_ne!(state, history);
        assert_ne!(state, last_good);
        assert_ne!(history, last_good);
        for file in [&state, &history, &last_good] {
            assert_ne!(Path::new(file), Path::new(config));
            let dir = runtime_data_dir_for_config(config);
            assert_eq!(Path::new(file).parent(), Some(Path::new(&dir)));
        }
    }
    assert_eq!(runtime_data_dir_for_config("tasks.yaml"), "");
    assert_eq!(state_path_for_config("tasks.yaml"), "tasks.state.yaml");
    assert_eq!(state_path_for_config("/etc/taskd//tasks.yaml"), "/var/lib/taskd/tasks.state.yaml");
}

const SAMPLES: [&str; 22] = [
    "", "/", ".", "..", "a", "a/", "a/b", "/a", "/a/", "/a/b", "//a//b//", "./a", "a/./b", "a/..",
    "/.", "/..", "a.b.c", ".hidden", "dir/.hidden", "dir/x.tar.gz", "./", "a/.",
];

#[test]
fn paths_behave_like_those_of_the_system() {
    for sample in SAMPLES {
        let path = Path::new(sample);
        assert_eq!(is_absolute(sample), path.is_absolute(), "{sample:?}");
        assert_eq!(
            parent_of(sample).map(PathBuf::from),
            path.parent().map(|p| p.to_path_buf()),
            "{sample:?}"
        );
        assert_eq!(
            parent_of(sample).as_deref(),
            path.parent().map(|p| p.to_str().unwrap()),
            "{sample:?}"
        );
        assert_eq!(
            file_stem_of(sample).as_deref(),
            path.file_stem().map(|stem| stem.to_str().unwrap()),
            "{sample:?}"
        );
        assert_eq!(
            directory(sample),
            path.parent().unwrap_or_else(|| Path::new(".")).to_str().unwrap(),
            "{sample:?}"
        );
        for other in SAMPLES {
            assert_eq!(
                join_path(sample, other),
                path.join(other).to_str().unwrap(),
                "{sample:?} {other:?}"
            );
            assert_eq!(same_path(sample, other), path == Path::new(other), "{sample:?} {other:?}");
        }
    }
}

#[test]
fn paths_are_ordered_like_those_of_the_system() {
    for a in SAMPLES {
        for b in SAMPLES {
            let expected = if Path::new(a) < Path::new(b) {
                Place::Before
            } else if Path::new(a) == Path::new(b) {
                Place::Same
            } else {
                Place::After
            };
            assert_eq!(path_place(a, b), expected, "{a:?} {b:?}");
        }
    }
}

#[test]
fn sorted_paths_hold_each_path_once() {
    let paths: Vec<String> = ["/b", "/a/x", "/b/", "/a", "/a/./x", "c"]
        .iter()
        .map(|p| p.to_string())
        .collect();
    let mut expected: Vec<PathBuf> = paths.iter().map(PathBuf::from).collect();
    expected.sort();
    expected.dedup();
    let sorted = sorted_paths(&paths);
    assert_eq!(sorted.len(), expected.len());
    for (mine, theirs) in sorted.iter().zip(expected.iter()) {
        assert_eq!(Path::new(mine), theirs.as_path());
    }
    assert!(holds_path(&sorted, "/b//"));
    assert!(!holds_path(&sorted, "/c"));
    let rest = paths_not_in(&sorted, &vec!["/a".to_string(), "c/".to_string()]);
    assert_eq!(rest.len(), 2);
    assert!(holds_path(&rest, "/b") && holds_path(&rest, "/a/x"));
    assert_eq!(components_of("/a//b/./c"), vec!["/", "a", "b", "c"]);
    assert_eq!(components_of("./a/../b"), vec![".", "a", "..", "b"]);
}

//! Where runtime data of a configuration is kept.

use vstd::prelude::*;

use crate::path_laws::{
    law_joined_names_stand_in_their_directory, lemma_file_name, lemma_join_components,
    lemma_last_component, lemma_stem, lemma_stem_with_long_extension, no_separator, plain_name,
};
use crate::paths::{
    absolute, components, directory, directory_of, file_name, file_stem, file_stem_of, join,
    join_path, parent, parent_of, same, same_path,
};
use crate::text::concat3;

verus! {

/// The directory of runtime data: system data for a system configuration, the directory of the
/// configuration for any other.
pub open spec fn runtime_dir(config_path: Seq<char>) -> Seq<char> {
    if parent(config_path) is Some && same(parent(config_path)->0, "/etc/taskd"@) {
        "/var/lib/taskd"@
    } else {
        directory_of(config_path)
    }
}

/// The name that runtime data takes over from a configuration.
pub open spec fn runtime_stem(config_path: Seq<char>) -> Seq<char> {
    match file_stem(config_path) {
        Some(stem) => stem,
        None => "tasks"@,
    }
}

/// A file of runtime data.
pub open spec fn runtime_path(config_path: Seq<char>, extension: Seq<char>) -> Seq<char> {
    join(runtime_dir(config_path), runtime_stem(config_path) + "."@ + extension)
}

/// The directory of the runtime data of a configuration.
pub fn runtime_data_dir_for_config(config_path: &str) -> (r: String)
    ensures
        r@ == runtime_dir(config_path@),
{
    match parent_of(config_path) {
        Some(p) => {
            if same_path(&p, "/etc/taskd") {
                "/var/lib/taskd".to_owned()
            } else {
                p
            }
        },
        None => directory(config_path),
    }
}

/// The file of runtime data with that extension.
pub fn runtime_data_path_for_config(config_path: &str, extension: &str) -> (r: String)
    ensures
        r@ == runtime_path(config_path@, extension@),
{
    let stem = match file_stem_of(config_path) {
        Some(stem) => stem,
        None => "tasks".to_owned(),
    };
    join_path(&runtime_data_dir_for_config(config_path), &concat3(&stem, ".", extension))
}

/// The snapshot of the last configuration that was accepted.
pub fn last_good_config_path_for_config(config_path: &str) -> (r: String)
    ensures
        r@ == runtime_path(config_path@, "last-good.yaml"@),
{
    runtime_data_path_for_config(config_path, "last-good.yaml")
}

/// Files of runtime data with different extensions are different files.
pub proof fn law_runtime_files_differ(config_path: Seq<char>, a: Seq<char>, b: Seq<char>)
    requires
        a != b,
    ensures
        runtime_path(config_path, a) != runtime_path(config_path, b),
{
    let dir = runtime_dir(config_path);
    let head = runtime_stem(config_path) + "."@;
    let x = head + a;
    let y = head + b;
    reveal_strlit(".");
    assert(head.len() > 0);
    assert(x[0] == head[0] && y[0] == head[0]);
    assert(absolute(x) == absolute(y));
    if x == y {
        assert(a =~= x.subrange(head.len() as int, x.len() as int));
        assert(b =~= y.subrange(head.len() as int, y.len() as int));
    }
    let p = runtime_path(config_path, a);
    let q = runtime_path(config_path, b);
    if p == q && !absolute(x) {
        let before = if dir.len() == 0 || dir.last() == '/' {
            dir
        } else {
            dir + seq!['/']
        };
        assert(p =~= before + x);
        assert(q =~= before + y);
        assert(x =~= p.subrange(before.len() as int, p.len() as int));
        assert(y =~= q.subrange(before.len() as int, q.len() as int));
    }
}

/// An extension of a file of runtime data: one piece of a path.
pub open spec fn plain_extension(extension: Seq<char>) -> bool {
    extension.len() > 0 && no_separator(extension)
}

proof fn lemma_runtime_name(config_path: Seq<char>, extension: Seq<char>)
    requires
        plain_extension(extension),
    ensures
        plain_name(runtime_stem(config_path) + "."@ + extension),
{
    reveal_strlit(".");
    reveal_strlit("tasks");
    let stem = runtime_stem(config_path);
    if file_name(config_path) is Some {
        lemma_file_name(config_path);
        lemma_stem(file_name(config_path)->0);
    }
    assert(no_separator(stem) && stem.len() > 0);
    let name = stem + "."@ + extension;
    assert forall|i: int| 0 <= i < name.len() implies #[trigger] name[i] != '/' by {
        if i < stem.len() {
            assert(name[i] == stem[i]);
        } else if i > stem.len() {
            assert(name[i] == extension[i - stem.len() - 1]);
        }
    }
    assert(name.len() > 2);
}

/// Every file of runtime data stands in the directory of runtime data, under the name of the
/// configuration with its own extension.
pub proof fn law_runtime_files_stand_together(config_path: Seq<char>, extension: Seq<char>)
    requires
        plain_extension(extension),
    ensures
        same(directory_of(runtime_path(config_path, extension)), runtime_dir(config_path)),
        file_name(runtime_path(config_path, extension)) == Some(
            runtime_stem(config_path) + "."@ + extension,
        ),
{
    lemma_runtime_name(config_path, extension);
    law_joined_names_stand_in_their_directory(
        runtime_dir(config_path),
        runtime_stem(config_path) + "."@ + extension,
    );
}

/// Files of runtime data with different extensions are different files, however their paths are
/// spelled.
pub proof fn law_runtime_files_are_not_the_same(config_path: Seq<char>, a: Seq<char>, b: Seq<char>)
    requires
        plain_extension(a),
        plain_extension(b),
        a != b,
    ensures
        !same(runtime_path(config_path, a), runtime_path(config_path, b)),
{
    let head = runtime_stem(config_path) + "."@;
    let dir = runtime_dir(config_path);
    lemma_runtime_name(config_path, a);
    lemma_runtime_name(config_path, b);
    lemma_join_components(dir, head + a);
    lemma_join_components(dir, head + b);
    if same(runtime_path(config_path, a), runtime_path(config_path, b)) {
        assert(components(dir).push(head + a).last() == components(dir).push(head + b).last());
        assert(a =~= (head + a).subrange(head.len() as int, (head + a).len() as int));
        assert(b =~= (head + b).subrange(head.len() as int, (head + b).len() as int));
    }
}

/// A file of runtime data whose extension holds a `.` is never the configuration itself, however
/// the paths are spelled.
pub proof fn law_runtime_files_spare_the_configuration(config_path: Seq<char>, extension: Seq<char>)
    requires
        plain_extension(extension),
        extension.contains('.'),
    ensures
        !same(runtime_path(config_path, extension), config_path),
        runtime_path(config_path, extension) != config_path,
{
    reveal_strlit(".");
    let name = runtime_stem(config_path) + "."@ + extension;
    let dir = runtime_dir(config_path);
    lemma_runtime_name(config_path, extension);
    lemma_join_components(dir, name);
    if same(runtime_path(config_path, extension), config_path) {
        assert(components(config_path).last() == name);
        lemma_last_component(config_path, name);
        lemma_stem_with_long_extension(name, extension);
        assert("."@ =~= seq!['.']);
    }
}

/// The snapshot, the state and the history of a configuration are three different files of its
/// directory of runtime data, and none of them is the configuration itself.
pub proof fn law_runtime_files_of_a_configuration(config_path: Seq<char>)
    ensures
        ({
            let snapshot = runtime_path(config_path, "last-good.yaml"@);
            let state = runtime_path(config_path, "state.yaml"@);
            let history = runtime_path(config_path, "history.db"@);
            &&& snapshot != config_path && !same(snapshot, config_path)
            &&& state != config_path && !same(state, config_path)
            &&& history != config_path && !same(history, config_path)
            &&& !same(snapshot, state) && !same(snapshot, history) && !same(state, history)
            &&& same(directory_of(snapshot), runtime_dir(config_path))
            &&& same(directory_of(state), runtime_dir(config_path))
            &&& same(directory_of(history), runtime_dir(config_path))
        }),
{
    reveal_strlit("last-good.yaml");
    reveal_strlit("state.yaml");
    reveal_strlit("history.db");
    let a = "last-good.yaml"@;
    let b = "state.yaml"@;
    let c = "history.db"@;
    assert(a[9] == '.' && b[5] == '.' && c[7] == '.');
    assert(a.len() != b.len() && a.len() != c.len());
    assert(b[0] != c[0]);
    law_runtime_files_stand_together(config_path, a);
    law_runtime_files_stand_together(config_path, b);
    law_runtime_files_stand_together(config_path, c);
    law_runtime_files_are_not_the_same(config_path, a, b);
    law_runtime_files_are_not_the_same(config_path, a, c);
    law_runtime_files_are_not_the_same(config_path, b, c);
    law_runtime_files_spare_the_configuration(config_path, a);
    law_runtime_files_spare_the_configuration(config_path, b);
    law_runtime_files_spare_the_configuration(config_path, c);
}

} // verus!

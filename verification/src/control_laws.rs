//! What holds of the commands of `taskctl`: what each of them loads, changes, writes, says and ends
//! with.

use vstd::prelude::*;

use crate::cli::{env_entry, policy_of, Command, ConcurrencyPolicyArg, ReportCommand};
use crate::config::{
    config_failure, position_of, AppView, ConcurrencyPolicy, ConfigRead, FileWrite, PathKind,
    ScheduleView, TaskView,
};
use crate::config_laws::lemma_first_with_id;
use crate::config_path::default_path;
use crate::control::{
    add_result, adds_task, command_code, done_message, edits, env_from, load_and_check_failure,
    no_config_failure, opens, persist_failure, proceeds, CommandEnd, HistoryAsk, Opening, Proceed,
};
use crate::failure::{full_text, Failure, FailureView};
use crate::runtime_paths::runtime_path;
use crate::task_runner::ProcessExit;
use crate::text::opt_text;
use crate::text_map::map_of;

verus! {

/// Each policy on the command line is the policy of that name.
pub proof fn law_policies_keep_their_names()
    ensures
        policy_of(ConcurrencyPolicyArg::Allow) == ConcurrencyPolicy::Allow,
        policy_of(ConcurrencyPolicyArg::Forbid) == ConcurrencyPolicy::Forbid,
        policy_of(ConcurrencyPolicyArg::Replace) == ConcurrencyPolicy::Replace,
{
}

/// A variable on the command line is read exactly where there is an `=` behind its first character;
/// the first `=` parts its name from its value.
pub proof fn law_variables_are_read(text: Seq<char>)
    ensures
        env_entry(text) is Ok <==> text.len() > 0 && text[0] != '=' && text.contains('='),
        env_entry(text) matches Ok((key, value)) ==> {
            &&& text == key + seq!['='] + value
            &&& key.len() > 0
            &&& !key.contains('=')
        },
{
    crate::cli::lemma_first_equals(text, 0);
    if text.contains('=') {
        let k = choose|k: int| 0 <= k < text.len() && text[k] == '=';
    }
    match crate::cli::first_equals(text, 0) {
        Some(i) => {
            assert(text[i] == '=');
            let key = text.subrange(0, i);
            let value = text.subrange(i + 1, text.len() as int);
            assert(text =~= key + seq!['='] + value);
            if key.contains('=') {
                let k = choose|k: int| 0 <= k < key.len() && key[k] == '=';
                assert(text[k] == '=');
            }
        },
        None => {},
    }
}

/// A program without a named configuration takes the one of the system where there is one, and
/// otherwise the local one.
pub proof fn law_default_configurations(
    system_path: Seq<char>,
    local_path: Seq<char>,
    survey: Map<Seq<char>, PathKind>,
)
    ensures
        survey.dom().contains(system_path) && survey[system_path] != PathKind::Missing
            ==> default_path(system_path, local_path, survey) == system_path,
        !survey.dom().contains(system_path) || survey[system_path] == PathKind::Missing
            ==> default_path(system_path, local_path, survey) == local_path,
{
}

// ---------------------------------------------------------------------------------------------
// Loading
// ---------------------------------------------------------------------------------------------
/// Adding a task starts from an empty configuration where there is none; looking at runs, logs and
/// reports needs no configuration; every other command needs one that exists. Logs cannot be
/// followed as JSON, and nothing else fails here.
pub proof fn law_commands_open(command: Command, json: bool, r: Result<Opening, Failure>)
    requires
        opens(command, json, r),
    ensures
        r is Err <==> command is Logs && command->follow && json,
        r is Ok ==> match command {
            Command::List => r->Ok_0 is Load,
            Command::Show { .. } => r->Ok_0 is Load,
            Command::Validate => r->Ok_0 is Load,
            Command::AddCron { .. } => r->Ok_0 is LoadOrDefault,
            Command::AddInterval { .. } => r->Ok_0 is LoadOrDefault,
            Command::Remove { .. } => r->Ok_0 is Load,
            Command::Enable { .. } => r->Ok_0 is Load,
            Command::Disable { .. } => r->Ok_0 is Load,
            Command::RunNow { .. } => r->Ok_0 is Load,
            Command::History { id, limit } => r->Ok_0 matches Opening::History(
                HistoryAsk::OfTask { id: asked, limit: most },
            ) && asked@ == id@ && most == limit,
            Command::RecentFailures { limit } => r->Ok_0 matches Opening::History(
                HistoryAsk::Failures { limit: most },
            ) && most == limit,
            Command::Logs { lines, follow } => r->Ok_0 matches Opening::Logs {
                lines: shown,
                follow: followed,
                capture,
            } && shown == lines && followed == follow && capture == json,
            Command::Report {
                command: ReportCommand::Daily { date, timezone, output },
            } => r->Ok_0 matches Opening::DailyReport { date: day, timezone: zone, output: file }
                && day@ == date@ && zone@ == timezone@ && opt_text(file) == opt_text(output),
        },
{
}

/// A configuration is taken over exactly where it was read, parsed and accepted.
pub proof fn law_configurations_are_checked(
    path: Seq<char>,
    read: ConfigRead,
    survey: Map<Seq<char>, PathKind>,
)
    ensures
        load_and_check_failure(path, read, survey) is None <==> read is Parsed && config_failure(
            read->Parsed_0@,
            survey,
        ) is None,
{
}

/// Keeping a configuration as the last good one succeeds exactly where it was written.
pub proof fn law_last_good_configurations_are_written(path: Seq<char>, write: FileWrite)
    ensures
        persist_failure(path, write) is None <==> write is Written,
{
}

/// A daemon without any configuration names both files, and why the last good one was not taken.
pub proof fn law_daemons_without_configuration_say_why(path: Seq<char>, fallback: FailureView)
    ensures
        no_config_failure(path, fallback).message == "primary config '"@ + path
            + "' is invalid and no valid last-known-good config was found at '"@ + runtime_path(
            path,
            "last-good.yaml"@,
        ) + "'"@,
        no_config_failure(path, fallback).cause == Some(full_text(fallback)),
{
}

// ---------------------------------------------------------------------------------------------
// Changing
// ---------------------------------------------------------------------------------------------
/// The task that a command adds is as the command line says, part by part; of two variables with
/// one name the later one counts. It does not notify.
pub proof fn law_added_tasks_follow_the_command_line(command: Command, t: TaskView)
    requires
        adds_task(command, t),
    ensures
        t.notify is None,
        match command {
            Command::AddCron {
                id,
                name,
                expr,
                program,
                timezone,
                enabled,
                max_running,
                concurrency_policy,
                workdir,
                timeout_seconds,
                retry_max_attempts,
                retry_delay_seconds,
                env,
                args,
            } => {
                &&& t.id == id@
                &&& t.name == name@
                &&& t.enabled == enabled
                &&& t.concurrency.max_running == max_running
                &&& t.concurrency.policy == policy_of(concurrency_policy)
                &&& t.retry.max_attempts == retry_max_attempts
                &&& t.retry.delay_seconds == retry_delay_seconds
                &&& t.schedule matches ScheduleView::Cron { expr: asked, timezone: zone } && asked
                    == expr@ && (zone is Some <==> timezone is Some) && (timezone is Some ==> zone->0
                    == timezone->0@)
                &&& t.command.program == program@
                &&& t.command.args.len() == args@.len()
                &&& forall|i: int|
                    0 <= i < args@.len() ==> #[trigger] t.command.args[i] == args@[i]@
                &&& t.command.workdir is Some <==> workdir is Some
                &&& workdir is Some ==> t.command.workdir->0 == workdir->0@
                &&& t.command.timeout_seconds == timeout_seconds
                &&& map_of(t.command.env) == env_from(env@, env@.len() as int)
            },
            Command::AddInterval {
                id,
                name,
                seconds,
                program,
                enabled,
                max_running,
                concurrency_policy,
                workdir,
                timeout_seconds,
                retry_max_attempts,
                retry_delay_seconds,
                env,
                args,
            } => {
                &&& t.id == id@
                &&& t.name == name@
                &&& t.enabled == enabled
                &&& t.concurrency.max_running == max_running
                &&& t.concurrency.policy == policy_of(concurrency_policy)
                &&& t.retry.max_attempts == retry_max_attempts
                &&& t.retry.delay_seconds == retry_delay_seconds
                &&& t.schedule == (ScheduleView::Interval { seconds })
                &&& t.command.program == program@
                &&& t.command.args.len() == args@.len()
                &&& forall|i: int|
                    0 <= i < args@.len() ==> #[trigger] t.command.args[i] == args@[i]@
                &&& t.command.workdir is Some <==> workdir is Some
                &&& workdir is Some ==> t.command.workdir->0 == workdir->0@
                &&& t.command.timeout_seconds == timeout_seconds
                &&& map_of(t.command.env) == env_from(env@, env@.len() as int)
            },
            _ => false,
        },
{
}

/// The variables of a command line are those that it names, each with the value that it is given
/// last.
pub proof fn law_later_variables_count(list: Seq<(String, String)>, n: int, k: int)
    requires
        0 <= k < n <= list.len(),
        forall|j: int| k < j < n ==> (#[trigger] list[j]).0@ != list[k].0@,
    ensures
        env_from(list, n).dom().contains(list[k].0@),
        env_from(list, n)[list[k].0@] == list[k].1@,
    decreases n,
{
    if k < n - 1 {
        assert(list[n - 1].0@ != list[k].0@);
        law_later_variables_count(list, n - 1, k);
    }
}

/// No variable is there that the command line does not name.
pub proof fn law_only_named_variables(list: Seq<(String, String)>, n: int, name: Seq<char>)
    requires
        0 <= n <= list.len(),
        env_from(list, n).dom().contains(name),
    ensures
        exists|k: int| 0 <= k < n && (#[trigger] list[k]).0@ == name,
    decreases n,
{
    if n > 0 {
        if list[n - 1].0@ != name {
            law_only_named_variables(list, n - 1, name);
        }
    }
}

/// A task is added behind all others, which stay as they are, exactly where no task has its id.
pub proof fn law_adding(c: AppView, t: TaskView)
    ensures
        (forall|i: int| 0 <= i < c.tasks.len() ==> (#[trigger] c.tasks[i]).id != t.id)
            <==> add_result(c, t) is Ok,
        add_result(c, t) matches Ok(d) ==> {
            &&& d.version == c.version
            &&& d.notifications == c.notifications
            &&& d.tasks.len() == c.tasks.len() + 1
            &&& d.tasks[c.tasks.len() as int] == t
            &&& forall|i: int| 0 <= i < c.tasks.len() ==> #[trigger] d.tasks[i] == c.tasks[i]
        },
{
    lemma_first_with_id(c.tasks, t.id, c.tasks.len() as int);
}

/// Adding a task gives a configuration with the task at its end, or fails.
pub proof fn law_commands_add(command: Command, c: AppView, r: Result<AppView, FailureView>)
    requires
        edits(command, c, r),
        command is AddCron || command is AddInterval,
    ensures
        r matches Ok(d) ==> d.tasks.len() == c.tasks.len() + 1 && adds_task(
            command,
            d.tasks[c.tasks.len() as int],
        ) && forall|i: int| 0 <= i < c.tasks.len() ==> #[trigger] d.tasks[i] == c.tasks[i],
        r is Err ==> exists|t: TaskView, i: int|
            #[trigger] adds_task(command, t) && 0 <= i < c.tasks.len() && (
            #[trigger] c.tasks[i]).id == t.id,
{
    let t = choose|t: TaskView| #[trigger] adds_task(command, t) && r == add_result(c, t);
    law_adding(c, t);
    if r is Err {
        let i = choose|i: int| 0 <= i < c.tasks.len() && (#[trigger] c.tasks[i]).id == t.id;
        assert(adds_task(command, t) && c.tasks[i].id == t.id);
    }
}

/// Removing takes away the first task with the id and no other; the tasks behind it move up. It
/// fails exactly where no task has the id.
pub proof fn law_commands_remove(command: Command, c: AppView, r: Result<AppView, FailureView>)
    requires
        edits(command, c, r),
        command is Remove,
    ensures
        r is Err <==> forall|i: int|
            0 <= i < c.tasks.len() ==> (#[trigger] c.tasks[i]).id != command->Remove_id@,
        r matches Ok(d) ==> {
            &&& d.version == c.version
            &&& d.notifications == c.notifications
            &&& exists|i: int|
                {
                    &&& 0 <= i < c.tasks.len()
                    &&& (#[trigger] c.tasks[i]).id == command->Remove_id@
                    &&& d.tasks == c.tasks.subrange(0, i) + c.tasks.subrange(
                        i + 1,
                        c.tasks.len() as int,
                    )
                }
        },
{
    let id = command->Remove_id@;
    lemma_first_with_id(c.tasks, id, c.tasks.len() as int);
    if r is Ok {
        let i = position_of(c, id)->0;
        assert(c.tasks[i].id == id);
        assert(r->Ok_0.tasks =~= c.tasks.subrange(0, i) + c.tasks.subrange(
            i + 1,
            c.tasks.len() as int,
        ));
    }
}

/// Enabling a task leaves it enabled, disabling it leaves it disabled, and everything else stays.
/// Both fail exactly where no task has the id.
pub proof fn law_commands_switch(
    command: Command,
    c: AppView,
    r: Result<AppView, FailureView>,
    id: Seq<char>,
)
    requires
        edits(command, c, r),
        command is Enable || command is Disable,
        command is Enable ==> id == command->Enable_id@,
        command is Disable ==> id == command->Disable_id@,
    ensures
        r is Err <==> forall|i: int| 0 <= i < c.tasks.len() ==> (#[trigger] c.tasks[i]).id != id,
        r matches Ok(d) ==> {
            &&& d.version == c.version
            &&& d.notifications == c.notifications
            &&& d.tasks.len() == c.tasks.len()
            &&& exists|i: int|
                {
                    &&& 0 <= i < c.tasks.len()
                    &&& (#[trigger] c.tasks[i]).id == id
                    &&& d.tasks[i].enabled == (command is Enable)
                    &&& d.tasks[i] == (TaskView { enabled: command is Enable, ..c.tasks[i] })
                    &&& forall|k: int|
                        0 <= k < c.tasks.len() && k != i ==> #[trigger] d.tasks[k] == c.tasks[k]
                }
        },
{
    lemma_first_with_id(c.tasks, id, c.tasks.len() as int);
    if r is Ok {
        let i = position_of(c, id)->0;
        assert(c.tasks[i].id == id);
    }
}

/// All other commands leave the configuration as it is.
pub proof fn law_other_commands_change_nothing(
    command: Command,
    c: AppView,
    r: Result<AppView, FailureView>,
)
    requires
        edits(command, c, r),
        command is List || command is Show || command is Validate || command is RunNow || command
            is History || command is RecentFailures || command is Logs || command is Report,
    ensures
        r == Ok::<AppView, FailureView>(c),
{
}

// ---------------------------------------------------------------------------------------------
// Carrying out
// ---------------------------------------------------------------------------------------------
/// Commands that change the configuration write it, and no others do; showing and running a task
/// find it under its id, and fail exactly where no task has it.
pub proof fn law_commands_proceed(command: Command, c: AppView, r: Result<Proceed, Failure>)
    requires
        proceeds(command, c, r),
    ensures
        match command {
            Command::List => r == Ok::<Proceed, Failure>(Proceed::List),
            Command::Validate => r == Ok::<Proceed, Failure>(Proceed::Valid),
            Command::AddCron { .. } => r == Ok::<Proceed, Failure>(Proceed::Write),
            Command::AddInterval { .. } => r == Ok::<Proceed, Failure>(Proceed::Write),
            Command::Remove { .. } => r == Ok::<Proceed, Failure>(Proceed::Write),
            Command::Enable { .. } => r == Ok::<Proceed, Failure>(Proceed::Write),
            Command::Disable { .. } => r == Ok::<Proceed, Failure>(Proceed::Write),
            Command::Show { id } => match r {
                Ok(Proceed::Show(i)) => i < c.tasks.len() && c.tasks[i as int].id == id@,
                Ok(_) => false,
                Err(_) => forall|i: int|
                    0 <= i < c.tasks.len() ==> (#[trigger] c.tasks[i]).id != id@,
            },
            Command::RunNow { id } => match r {
                Ok(Proceed::Run(i)) => i < c.tasks.len() && c.tasks[i as int].id == id@,
                Ok(_) => false,
                Err(_) => forall|i: int|
                    0 <= i < c.tasks.len() ==> (#[trigger] c.tasks[i]).id != id@,
            },
            Command::History { .. } => r == Ok::<Proceed, Failure>(Proceed::Nothing),
            Command::RecentFailures { .. } => r == Ok::<Proceed, Failure>(Proceed::Nothing),
            Command::Logs { .. } => r == Ok::<Proceed, Failure>(Proceed::Nothing),
            Command::Report { .. } => r == Ok::<Proceed, Failure>(Proceed::Nothing),
        },
{
    match command {
        Command::Show { id } => lemma_first_with_id(c.tasks, id@, c.tasks.len() as int),
        Command::RunNow { id } => lemma_first_with_id(c.tasks, id@, c.tasks.len() as int),
        _ => {},
    }
}

/// Removing, enabling and disabling say so, with the id; other commands say nothing of the kind.
pub proof fn law_commands_say_what_they_did(command: Command)
    ensures
        match command {
            Command::Remove { id } => done_message(command) == Some(
                ("removed task "@ + id@, id@),
            ),
            Command::Enable { id } => done_message(command) == Some(
                ("enabled task "@ + id@, id@),
            ),
            Command::Disable { id } => done_message(command) == Some(
                ("disabled task "@ + id@, id@),
            ),
            _ => done_message(command) is None,
        },
{
}

/// A command ends with exit code 1 where it failed. Running a task ends with the code of the run:
/// the one that it was given, that of its process, or 128 and the signal that ended it. Showing logs
/// ends as `journalctl` did, and with 1 where that has no code. All else ends with 0.
pub proof fn law_commands_end(command: Command, end: Result<CommandEnd, Failure>)
    ensures
        end is Err ==> command_code(command, end) == 1,
        command is RunNow ==> (end matches Ok(CommandEnd::Ran(o)) ==> match (
            o@.explicit_exit_code,
            o@.exit,
        ) {
            (Some(code), _) => command_code(command, end) == code,
            (None, Some(ProcessExit::Code(code))) => command_code(command, end) == code,
            (None, Some(ProcessExit::Signal(signal))) => command_code(command, end) == 128
                + signal,
            _ => command_code(command, end) == 1,
        }),
        command is Logs ==> (end matches Ok(CommandEnd::Journal(ProcessExit::Code(code)))
            ==> command_code(command, end) == code),
        command is Logs ==> (end matches Ok(CommandEnd::Journal(exit)) ==> !(exit is Code)
            ==> command_code(command, end) == 1),
        end is Ok && !(command is RunNow) && !(command is Logs) ==> command_code(command, end) == 0,
{
}

} // verus!

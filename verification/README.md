# taskd

A single-host task scheduler. `taskd` runs commands on cron expressions or fixed intervals,
`taskctl` inspects, edits and runs the configured tasks, and `artifactctl` drives workflows that
collect, render and deliver artifacts.

The library under `src/` holds the rules, the plans and the state machines, and is verified with
Verus. The program under `app/` carries out what the library decides: it reads and writes files,
launches processes, talks to SQLite and to webhooks, waits for events, and chooses between JSON and
plain output.

## Layout

- `text`, `order`, `text_map`, `sorting`, `tally`, `json`: texts, ordered maps and lists.
- `paths`, `path_laws`, `path_order`: file system paths as text.
- `calendar`: cron expressions, time zones, dates and instants.
- `config`, `config_laws`, `config_path`, `runtime_paths`: task configurations and their rules.
- `task_runner`, `state`, `history`: runs, their outcomes, and what is kept of them.
- `reload`, `scheduler`: jobs, overlapping runs, and the daemon between two events.
- `notifications`: whether a finished run is reported, and how.
- `report`, `display`, `control`, `cli`, `daemon_cli`: what the control program does and says.
- `template`, `template_laws`, `artifacts`, `artifact_records`, `artifact_run`,
  `artifact_runfile`, `artifact_plan`, `artifact_laws`, `artifact_cli`: artifact workflows.

Functions whose names start with `law_` state what holds across functions.

## What is not proved

A few functions call other crates; their contracts are believed. They read cron expressions
(`cron`), time zone names (`chrono-tz`), dates and instants (`chrono`) and JSON texts
(`serde_json`), and write a list of texts the way `{:?}` does. Each is marked
`#[verifier::external_body]` and says in its comment what is believed of it. One function of the
standard library, `String::push`, is given a contract directly.

//! The commands of `taskctl`.

use vstd::prelude::*;
use vstd::std_specs::convert::FromSpecImpl;

use crate::config::ConcurrencyPolicy;
use crate::failure::{plain, Failure, FailureView};
use crate::text::{chars_of, concat3, text_range};

verus! {

/// A concurrency policy on the command line.
#[derive(Debug, Clone, Copy, PartialEq, Eq, Structural)]
pub enum ConcurrencyPolicyArg {
    Allow,
    Forbid,
    Replace,
}

/// The policy that an argument names.
pub open spec fn policy_of(value: ConcurrencyPolicyArg) -> ConcurrencyPolicy {
    match value {
        ConcurrencyPolicyArg::Allow => ConcurrencyPolicy::Allow,
        ConcurrencyPolicyArg::Forbid => ConcurrencyPolicy::Forbid,
        ConcurrencyPolicyArg::Replace => ConcurrencyPolicy::Replace,
    }
}

impl From<ConcurrencyPolicyArg> for ConcurrencyPolicy {
    fn from(value: ConcurrencyPolicyArg) -> (r: Self) {
        match value {
            ConcurrencyPolicyArg::Allow => ConcurrencyPolicy::Allow,
            ConcurrencyPolicyArg::Forbid => ConcurrencyPolicy::Forbid,
            ConcurrencyPolicyArg::Replace => ConcurrencyPolicy::Replace,
        }
    }
}

impl FromSpecImpl<ConcurrencyPolicyArg> for ConcurrencyPolicy {
    open spec fn obeys_from_spec() -> bool {
        true
    }

    open spec fn from_spec(value: ConcurrencyPolicyArg) -> Self {
        policy_of(value)
    }
}

/// A report to write.
#[derive(Debug)]
pub enum ReportCommand {
    Daily { date: String, timezone: String, output: Option<String> },
}

/// A command of `taskctl`.
#[derive(Debug)]
pub enum Command {
    List,
    Show { id: String },
    Validate,
    AddCron {
        id: String,
        name: String,
        expr: String,
        program: String,
        timezone: Option<String>,
        enabled: bool,
        max_running: u8,
        concurrency_policy: ConcurrencyPolicyArg,
        workdir: Option<String>,
        timeout_seconds: Option<u64>,
        retry_max_attempts: u8,
        retry_delay_seconds: u64,
        env: Vec<(String, String)>,
        args: Vec<String>,
    },
    AddInterval {
        id: String,
        name: String,
        seconds: u64,
        program: String,
        enabled: bool,
        max_running: u8,
        concurrency_policy: ConcurrencyPolicyArg,
        workdir: Option<String>,
        timeout_seconds: Option<u64>,
        retry_max_attempts: u8,
        retry_delay_seconds: u64,
        env: Vec<(String, String)>,
        args: Vec<String>,
    },
    Remove { id: String },
    Enable { id: String },
    Disable { id: String },
    History { id: String, limit: usize },
    RecentFailures { limit: usize },
    Logs { lines: usize, follow: bool },
    RunNow { id: String },
    Report { command: ReportCommand },
}

/// A command line of `taskctl`.
#[derive(Debug)]
pub struct Cli {
    pub config: String,
    pub json: bool,
    pub command: Command,
}

/// The position of the first `=` from position `i` on.
pub open spec fn first_equals(s: Seq<char>, i: int) -> Option<int>
    decreases s.len() - i,
{
    if i < 0 || i >= s.len() {
        None
    } else if s[i] == '=' {
        Some(i)
    } else {
        first_equals(s, i + 1)
    }
}

/// A variable of the form `KEY=VALUE`: the name before the first `=`, the value behind it.
pub open spec fn env_entry(value: Seq<char>) -> Result<(Seq<char>, Seq<char>), FailureView> {
    match first_equals(value, 0) {
        None => Err(plain("invalid env '"@ + value + "', expected KEY=VALUE"@)),
        Some(i) => if i == 0 {
            Err(plain("invalid env '"@ + value + "', key must not be empty"@))
        } else {
            Ok((value.subrange(0, i), value.subrange(i + 1, value.len() as int)))
        },
    }
}

/// A variable or a failure in views.
pub open spec fn entry_result(r: Result<(String, String), Failure>) -> Result<
    (Seq<char>, Seq<char>),
    FailureView,
> {
    match r {
        Ok(entry) => Ok((entry.0@, entry.1@)),
        Err(f) => Err(f@),
    }
}

/// Reads a variable of the form `KEY=VALUE`.
pub fn parse_env(value: &str) -> (r: Result<(String, String), Failure>)
    ensures
        entry_result(r) == env_entry(value@),
{
    let v = chars_of(value);
    let total: usize = v.len();
    let mut i: usize = 0;
    while i < total && v[i] != '='
        invariant
            i <= total == v@.len(),
            v@ == value@,
            first_equals(value@, 0) == first_equals(value@, i as int),
        decreases total - i,
    {
        i = i + 1;
    }
    if i == total {
        return Err(Failure::new(concat3("invalid env '", value, "', expected KEY=VALUE")));
    }
    if i == 0 {
        return Err(Failure::new(concat3("invalid env '", value, "', key must not be empty")));
    }
    Ok((text_range(&v, 0, i), text_range(&v, i + 1, total)))
}

pub proof fn lemma_first_equals(s: Seq<char>, i: int)
    requires
        0 <= i <= s.len(),
    ensures
        match first_equals(s, i) {
            Some(k) => i <= k < s.len() && s[k] == '=' && forall|j: int|
                i <= j < k ==> s[j] != '=',
            None => forall|j: int| i <= j < s.len() ==> s[j] != '=',
        },
    decreases s.len() - i,
{
    if i < s.len() && s[i] != '=' {
        lemma_first_equals(s, i + 1);
    }
}

/// Reading a variable that was written as a name without `=`, an `=` and a value gives both back.
pub proof fn law_env_entry_reads_back(key: Seq<char>, value: Seq<char>)
    requires
        key.len() > 0,
        forall|i: int| 0 <= i < key.len() ==> key[i] != '=',
    ensures
        env_entry(key + seq!['='] + value) == Ok::<(Seq<char>, Seq<char>), FailureView>(
            (key, value),
        ),
{
    let s = key + seq!['='] + value;
    lemma_first_equals(s, 0);
    assert(s[key.len() as int] == '=');
    assert(forall|i: int| 0 <= i < key.len() ==> s[i] == key[i]);
    assert(s.subrange(0, key.len() as int) =~= key);
    assert(s.subrange((key.len() + 1) as int, s.len() as int) =~= value);
}

} // verus!

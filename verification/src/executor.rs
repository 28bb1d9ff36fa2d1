//! Command execution model: the shape of a command's outcome, the tagging
//! of its output lines for the log sink and the log file, and a scripted
//! executor that replays pre-configured outcomes.

use vstd::prelude::*;
use vstd::string::StringExecFns;

use crate::strutil::{clone_string_vec, spec_u64_string, u64_to_string};

verus! {

/// Result of executing a command.
#[derive(Debug, Clone)]
pub struct CommandResult {
    pub success: bool,
    pub exit_code: Option<i32>,
    pub stdout_lines: Vec<String>,
    pub stderr_lines: Vec<String>,
}

/// Executor that spawns real processes; the spawning itself is I/O and
/// lives with the callers that perform it.
pub struct RealCommandExecutor;

impl RealCommandExecutor {
    pub fn new() -> (r: Self)
        ensures
            r == (RealCommandExecutor),
    {
        RealCommandExecutor
    }
}

/// One scripted outcome for the mock executor.
#[derive(Debug, Clone)]
pub struct MockResponse {
    pub program_pattern: String,
    pub success: bool,
    pub exit_code: i32,
    pub stdout_lines: Vec<String>,
    pub stderr_lines: Vec<String>,
    /// A delay the replayed command is meant to take, for callers that
    /// simulate slow commands.
    pub delay_ms: Option<u64>,
}

pub open spec fn spec_tag_stdout(line: Seq<char>) -> Seq<char> {
    ("stdout: ")@ + line
}

pub open spec fn spec_tag_stderr(line: Seq<char>) -> Seq<char> {
    ("stderr: ")@ + line
}

/// The sink messages for a command's output: every stdout line tagged, in
/// emission order, then every stderr line tagged, in emission order.
pub open spec fn spec_fan_out(stdout: Seq<Seq<char>>, stderr: Seq<Seq<char>>) -> Seq<Seq<char>> {
    stdout.map(|i: int, l: Seq<char>| spec_tag_stdout(l)) + stderr.map(
        |i: int, l: Seq<char>| spec_tag_stderr(l),
    )
}

pub fn tag_stdout_line(line: &str) -> (r: String)
    ensures
        r@ == spec_tag_stdout(line@),
{
    let mut s = "stdout: ".to_owned();
    s.append(line);
    s
}

pub fn tag_stderr_line(line: &str) -> (r: String)
    ensures
        r@ == spec_tag_stderr(line@),
{
    let mut s = "stderr: ".to_owned();
    s.append(line);
    s
}

/// The form a line takes in the log file: stderr lines carry an `ERR: `
/// prefix, stdout lines are written as they are.
pub fn log_file_line(line: &str, is_stderr: bool) -> (r: String)
    ensures
        r@ == if is_stderr {
            ("ERR: ")@ + line@
        } else {
            line@
        },
{
    if is_stderr {
        let mut s = "ERR: ".to_owned();
        s.append(line);
        s
    } else {
        line.to_owned()
    }
}

/// Tags both output streams for the sink.
pub fn fan_out_messages(stdout_lines: &Vec<String>, stderr_lines: &Vec<String>) -> (r: Vec<
    String,
>)
    ensures
        r.deep_view() == spec_fan_out(stdout_lines.deep_view(), stderr_lines.deep_view()),
{
    let mut r: Vec<String> = Vec::new();
    let n1: usize = stdout_lines.len();
    let mut i: usize = 0;
    while i < n1
        invariant
            0 <= i <= n1,
            n1 == stdout_lines@.len(),
            r@.len() == i,
            forall|j: int| 0 <= j < i ==> r@[j]@ == spec_tag_stdout(stdout_lines@[j]@),
        decreases n1 - i,
    {
        r.push(tag_stdout_line(stdout_lines[i].as_str()));
        i += 1;
    }
    let n2: usize = stderr_lines.len();
    let mut k: usize = 0;
    while k < n2
        invariant
            0 <= k <= n2,
            n1 == stdout_lines@.len(),
            n2 == stderr_lines@.len(),
            r@.len() == n1 + k,
            forall|j: int| 0 <= j < n1 ==> r@[j]@ == spec_tag_stdout(stdout_lines@[j]@),
            forall|j: int| 0 <= j < k ==> r@[n1 + j]@ == spec_tag_stderr(stderr_lines@[j]@),
        decreases n2 - k,
    {
        r.push(tag_stderr_line(stderr_lines[k].as_str()));
        k += 1;
    }
    proof {
        let goal = spec_fan_out(stdout_lines.deep_view(), stderr_lines.deep_view());
        assert(goal.len() == n1 + n2);
        assert forall|j: int| 0 <= j < r@.len() implies #[trigger] r.deep_view()[j]
            == goal[j] by {
            assert(r.deep_view()[j] == r@[j]@);
            if j < n1 {
                assert(goal[j] == spec_tag_stdout(stdout_lines.deep_view()[j]));
                assert(stdout_lines.deep_view()[j] == stdout_lines@[j]@);
            } else {
                assert(goal[j] == spec_tag_stderr(stderr_lines.deep_view()[j - n1]));
                assert(stderr_lines.deep_view()[j - n1] == stderr_lines@[j - n1]@);
            }
        }
        assert(r.deep_view() =~= goal);
    }
    r
}

/// Fan-out law: every line a command wrote appears exactly once among the
/// sink messages, tagged with its stream; stdout line `i` is message `i`,
/// stderr line `j` is message `stdout count + j`, and there are no other
/// messages.
pub proof fn lemma_fan_out_exact(stdout: Seq<Seq<char>>, stderr: Seq<Seq<char>>)
    ensures
        spec_fan_out(stdout, stderr).len() == stdout.len() + stderr.len(),
        forall|i: int|
            0 <= i < stdout.len() ==> #[trigger] spec_fan_out(stdout, stderr)[i] == ("stdout: ")@
                + stdout[i],
        forall|j: int|
            0 <= j < stderr.len() ==> #[trigger] spec_fan_out(stdout, stderr)[stdout.len() + j]
                == ("stderr: ")@ + stderr[j],
{
}

/// The marker appended to a log file when a build is cancelled.
pub fn cancelled_marker() -> (r: String)
    ensures
        r@ == ("\n--- BUILD CANCELLED ---\n")@,
{
    "\n--- BUILD CANCELLED ---\n".to_owned()
}

/// Replays scripted outcomes in order, one per call, without running
/// anything.
pub struct MockCommandExecutor {
    pub responses: Vec<MockResponse>,
    pub call_index: usize,
}

impl MockCommandExecutor {
    pub fn new() -> (r: MockCommandExecutor)
        ensures
            r.responses@.len() == 0,
            r.call_index == 0,
    {
        MockCommandExecutor { responses: Vec::new(), call_index: 0 }
    }

    pub fn add_response(&mut self, response: MockResponse)
        ensures
            final(self).responses@ == old(self).responses@.push(response),
            final(self).call_index == old(self).call_index,
    {
        self.responses.push(response);
    }

    /// Scripts a passing command: exit code zero, the given stdout, no
    /// stderr.
    pub fn add_success(&mut self, program_pattern: &str, stdout: Vec<String>)
        ensures
            final(self).responses@.len() == old(self).responses@.len() + 1,
            final(self).responses@.subrange(0, old(self).responses@.len() as int) == old(
                self,
            ).responses@,
            final(self).call_index == old(self).call_index,
            ({
                let last = final(self).responses@.last();
                &&& last.program_pattern@ == program_pattern@
                &&& last.success == true
                &&& last.exit_code == 0
                &&& last.stdout_lines == stdout
                &&& last.stderr_lines@.len() == 0
                &&& last.delay_ms is None
            }),
    {
        let ghost pre = self.responses@;
        self.responses.push(
            MockResponse {
                program_pattern: program_pattern.to_owned(),
                success: true,
                exit_code: 0,
                stdout_lines: stdout,
                stderr_lines: Vec::new(),
                delay_ms: None,
            },
        );
        proof {
            assert(self.responses@.subrange(0, pre.len() as int) =~= pre);
        }
    }

    /// Scripts a failing command: exit code one, no stdout, the given
    /// stderr.
    pub fn add_failure(&mut self, program_pattern: &str, stderr: Vec<String>)
        ensures
            final(self).responses@.len() == old(self).responses@.len() + 1,
            final(self).responses@.subrange(0, old(self).responses@.len() as int) == old(
                self,
            ).responses@,
            final(self).call_index == old(self).call_index,
            ({
                let last = final(self).responses@.last();
                &&& last.program_pattern@ == program_pattern@
                &&& last.success == false
                &&& last.exit_code == 1
                &&& last.stdout_lines@.len() == 0
                &&& last.stderr_lines == stderr
                &&& last.delay_ms is None
            }),
    {
        let ghost pre = self.responses@;
        self.responses.push(
            MockResponse {
                program_pattern: program_pattern.to_owned(),
                success: false,
                exit_code: 1,
                stdout_lines: Vec::new(),
                stderr_lines: stderr,
                delay_ms: None,
            },
        );
        proof {
            assert(self.responses@.subrange(0, pre.len() as int) =~= pre);
        }
    }

    /// Replays the next scripted outcome: the command result it holds,
    /// together with the tagged sink messages its output produces. Once
    /// the script is exhausted, every call reports an error and changes
    /// nothing.
    pub fn execute(&mut self, program: &str, args: &Vec<String>) -> (r: Result<
        (CommandResult, Vec<String>),
        String,
    >)
        ensures
            r is Ok <==> old(self).call_index < old(self).responses@.len(),
            final(self).responses@ == old(self).responses@,
            r matches Ok(out) ==> ({
                let resp = old(self).responses@[old(self).call_index as int];
                &&& final(self).call_index == old(self).call_index + 1
                &&& out.0.success == resp.success
                &&& out.0.exit_code == Some(resp.exit_code)
                &&& out.0.stdout_lines@ == resp.stdout_lines@
                &&& out.0.stderr_lines@ == resp.stderr_lines@
                &&& out.1.deep_view() == spec_fan_out(
                    resp.stdout_lines.deep_view(),
                    resp.stderr_lines.deep_view(),
                )
            }),
            r matches Err(msg) ==> *final(self) == *old(self) && msg@ == (
            "No mock response configured for call #")@ + spec_u64_string(
                old(self).call_index as int,
            ),
    {
        if self.call_index < self.responses.len() {
            let idx: usize = self.call_index;
            let messages = fan_out_messages(
                &self.responses[idx].stdout_lines,
                &self.responses[idx].stderr_lines,
            );
            let result = CommandResult {
                success: self.responses[idx].success,
                exit_code: Some(self.responses[idx].exit_code),
                stdout_lines: clone_string_vec(&self.responses[idx].stdout_lines),
                stderr_lines: clone_string_vec(&self.responses[idx].stderr_lines),
            };
            self.call_index = idx + 1;
            Ok((result, messages))
        } else {
            let mut msg = "No mock response configured for call #".to_owned();
            let num = u64_to_string(self.call_index as u64);
            msg.append(num.as_str());
            Err(msg)
        }
    }
}

} // verus!

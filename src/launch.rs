use vstd::prelude::*;

use crate::args::{child_working_dir, rewrite_args, rewritten, runs_in_install_dir};
use crate::strings::{join, joined, views};
use crate::FAILURE_EXIT_CODE;

verus! {

/// One call of the wrapper.
pub struct Invocation {
    /// Path of the toolchain binary.
    pub zig: String,
    /// The toolchain subcommand.
    pub tool: String,
    /// The tool's default arguments.
    pub defaults: Vec<String>,
    /// The arguments the wrapper was called with.
    pub caller: Vec<String>,
}

/// What the wrapper learned of its surroundings.
pub struct Host {
    /// Directory holding the wrapper's executable.
    pub install_dir: String,
    /// The caller's working directory.
    pub real_cwd: String,
    /// The inherited PATH.
    pub inherited_path: String,
    /// The platform's separator between PATH entries.
    pub path_separator: String,
    /// Directory holding the toolchain binary.
    pub zig_dir: String,
}

/// How the child is to be started.
pub struct LaunchPlan {
    /// Arguments after the subcommand.
    pub args: Vec<String>,
    /// The full command line, for the trace.
    pub command: String,
    /// Working directory of the child.
    pub cwd: String,
    /// PATH of the child.
    pub path: String,
}

/// PATH for the child: the toolchain's directory first, so that helper
/// binaries beside it are found.
pub open spec fn child_path_of(zig_dir: Seq<char>, sep: Seq<char>, inherited: Seq<char>) -> Seq<char> {
    zig_dir + sep + inherited
}

/// The command line `<zig> <tool> <args…>` with single spaces.
pub open spec fn command_of(zig: Seq<char>, tool: Seq<char>, args: Seq<Seq<char>>) -> Seq<char> {
    zig + " "@ + tool + " "@ + joined(args, " "@)
}

/// The PATH the child runs with.
pub fn child_path(zig_dir: &str, sep: &str, inherited: &str) -> (r: String)
    ensures
        r@ == child_path_of(zig_dir@, sep@, inherited@),
{
    let mut p = String::new();
    p.append(zig_dir);
    p.append(sep);
    p.append(inherited);
    assert(p@ =~= child_path_of(zig_dir@, sep@, inherited@));
    p
}

/// The command line of the child, as recorded in the trace.
pub fn command_line(zig: &str, tool: &str, args: &Vec<String>) -> (r: String)
    ensures
        r@ == command_of(zig@, tool@, views(args@)),
{
    let rest = join(args, " ");
    let mut c = String::new();
    c.append(zig);
    c.append(" ");
    c.append(tool);
    c.append(" ");
    c.append(rest.as_str());
    assert(c@ =~= command_of(zig@, tool@, views(args@)));
    c
}

/// Everything needed to start the child for `inv`, with `src` and `obj` the
/// generated source and object paths.
pub fn plan_launch(inv: &Invocation, host: &Host, src: &String, obj: &String) -> (r: LaunchPlan)
    ensures
        views(r.args@) == rewritten(inv.tool@, views(inv.defaults@), views(inv.caller@), src@, obj@),
        r.command@ == command_of(inv.zig@, inv.tool@, views(r.args@)),
        r.cwd@ == if runs_in_install_dir(views(inv.defaults@), views(inv.caller@), host.real_cwd@) {
            host.install_dir@
        } else {
            host.real_cwd@
        },
        r.path@ == child_path_of(host.zig_dir@, host.path_separator@, host.inherited_path@),
{
    let cwd = child_working_dir(&inv.defaults, &inv.caller, &host.real_cwd, &host.install_dir);
    let args = rewrite_args(inv.tool.as_str(), &inv.defaults, &inv.caller, src, obj);
    let command = command_line(inv.zig.as_str(), inv.tool.as_str(), &args);
    let path = child_path(
        host.zig_dir.as_str(),
        host.path_separator.as_str(),
        host.inherited_path.as_str(),
    );
    LaunchPlan { args, command, cwd, path }
}

/// How one call of the wrapper ended.
#[derive(PartialEq, Eq, Structural, Debug, Clone, Copy)]
pub enum Outcome {
    /// The child ran and exited with this code.
    Exited(i32),
    /// The configuration could not be loaded.
    ConfigFailed,
    /// The child could not be started.
    SpawnFailed,
    /// Waiting for the child failed.
    WaitFailed,
    /// The child ended without an exit code, e.g. by a signal.
    NoExitCode,
}

/// The outcome once the wait for the child has returned `code`.
pub open spec fn outcome_after_wait(code: Option<i32>) -> Outcome {
    match code {
        Some(n) => Outcome::Exited(n),
        None => Outcome::NoExitCode,
    }
}

/// The wrapper's own exit status for an outcome.
pub open spec fn status_of(o: Outcome) -> i32 {
    match o {
        Outcome::Exited(n) => n,
        _ => FAILURE_EXIT_CODE,
    }
}

/// The outcome once the wait for the child has returned `code`.
pub fn outcome_of_wait(code: Option<i32>) -> (r: Outcome)
    ensures
        r == outcome_after_wait(code),
{
    match code {
        Some(n) => Outcome::Exited(n),
        None => Outcome::NoExitCode,
    }
}

/// Whether a trace record is written: only when tracing is on and the child
/// exited with a code.
pub fn should_trace(trace_enabled: bool, o: Outcome) -> (r: bool)
    ensures
        r == (trace_enabled && o is Exited),
{
    trace_enabled && matches!(o, Outcome::Exited(_))
}

/// The wrapper's exit status: the child's exit code when it exited, the
/// failure code otherwise.
pub fn exit_status(o: Outcome) -> (r: i32)
    ensures
        r == status_of(o),
        o matches Outcome::Exited(n) ==> r == n,
        !(o is Exited) ==> r == FAILURE_EXIT_CODE,
{
    match o {
        Outcome::Exited(n) => n,
        _ => FAILURE_EXIT_CODE,
    }
}

/// The wrapper exits with the child's code when the child exited, and with
/// the failure code when the child could not be started, could not be waited
/// for, or ended without an exit code.
pub proof fn law_exit_status_follows_child(code: Option<i32>)
    ensures
        code matches Some(n) ==> status_of(outcome_after_wait(code)) == n,
        code is None ==> status_of(outcome_after_wait(code)) == FAILURE_EXIT_CODE,
        status_of(Outcome::SpawnFailed) == FAILURE_EXIT_CODE,
        status_of(Outcome::WaitFailed) == FAILURE_EXIT_CODE,
        status_of(Outcome::ConfigFailed) == FAILURE_EXIT_CODE,
{
}

} // verus!

//! Starting the service: the port, the command line, the environment, and
//! the wait until it is ready.

use vstd::prelude::*;
use crate::config::{DshEntry, PREFERRED_PORT, HEALTH_CHECK_TIMEOUT_SECS};
use crate::text::{decimal, u64_to_decimal};

verus! {

/// Chooses the port for a new service: the preferred one when nothing
/// listens there, else `None`, meaning that the system is to assign one.
pub fn pick_port(preferred_in_use: bool) -> (p: Option<u16>)
    ensures
        p == (if preferred_in_use { None } else { Some(PREFERRED_PORT) }),
{
    if !preferred_in_use {
        Some(PREFERRED_PORT)
    } else {
        None
    }
}

/// A command-line argument or environment value: a path, or text.
#[derive(Debug)]
pub enum CommandArg<P> {
    Path(P),
    Text(String),
}

/// This argument is the text `t`.
pub open spec fn is_text<P>(a: CommandArg<P>, t: Seq<char>) -> bool {
    a matches CommandArg::Text(s) && s@ == t
}

/// The command that starts the service.
#[derive(Debug)]
pub struct DshCommand<P> {
    pub program: P,
    pub args: Vec<CommandArg<P>>,
}

/// `args[from..]` is `web --host 127.0.0.1 --port <port>`.
pub open spec fn web_args_at<P>(args: Seq<CommandArg<P>>, from: int, port: u16) -> bool {
    &&& args.len() == from + 5
    &&& is_text(args[from], "web"@)
    &&& is_text(args[from + 1], "--host"@)
    &&& is_text(args[from + 2], "127.0.0.1"@)
    &&& is_text(args[from + 3], "--port"@)
    &&& is_text(args[from + 4], decimal(port as nat))
}

/// The command that starts the service on `port`, bound to the loopback
/// address: `node <script> web ...` for a script, `<executable> web ...`
/// otherwise.
pub fn dsh_command<P>(entry: DshEntry<P>, node: P, port: u16) -> (c: DshCommand<P>)
    ensures
        match entry {
            DshEntry::NodeScript(script) => {
                &&& c.program == node
                &&& c.args@[0] == CommandArg::Path(script)
                &&& web_args_at(c.args@, 1, port)
            },
            DshEntry::Executable(exe) => c.program == exe && web_args_at(c.args@, 0, port),
        },
{
    let mut args: Vec<CommandArg<P>> = Vec::new();
    let program = match entry {
        DshEntry::NodeScript(script) => {
            args.push(CommandArg::Path(script));
            node
        },
        DshEntry::Executable(exe) => exe,
    };
    let ghost from = args@.len() as int;
    args.push(CommandArg::Text("web".to_owned()));
    args.push(CommandArg::Text("--host".to_owned()));
    args.push(CommandArg::Text("127.0.0.1".to_owned()));
    args.push(CommandArg::Text("--port".to_owned()));
    args.push(CommandArg::Text(u64_to_decimal(port as u64)));
    assert(web_args_at(args@, from, port));
    DshCommand { program, args }
}

/// The environment given to the service, besides a `PATH` that starts with
/// the directory of `node`.
pub open spec fn dsh_env_matches<P>(env: Seq<(&'static str, CommandArg<P>)>, dsh_home: P, port: u16) -> bool {
    &&& env.len() == 4
    &&& env[0].0@ == "DSH_HOME"@ && env[0].1 == CommandArg::Path(dsh_home)
    &&& env[1].0@ == "DSH_TELEMETRY_DISABLED"@ && is_text(env[1].1, "1"@)
    &&& env[2].0@ == "NO_COLOR"@ && is_text(env[2].1, "1"@)
    &&& env[3].0@ == "DSH_WEB_PORT"@ && is_text(env[3].1, decimal(port as nat))
}

/// The environment given to the service: its home, telemetry and colours
/// off, and its port.
pub fn dsh_env<P>(dsh_home: P, port: u16) -> (env: Vec<(&'static str, CommandArg<P>)>)
    ensures
        dsh_env_matches(env@, dsh_home, port),
{
    let mut env: Vec<(&'static str, CommandArg<P>)> = Vec::new();
    env.push(("DSH_HOME", CommandArg::Path(dsh_home)));
    env.push(("DSH_TELEMETRY_DISABLED", CommandArg::Text("1".to_owned())));
    env.push(("NO_COLOR", CommandArg::Text("1".to_owned())));
    env.push(("DSH_WEB_PORT", CommandArg::Text(u64_to_decimal(port as u64))));
    env
}

/// The `PATH` of the service: the directory of `node` first, then the
/// current `PATH`, so that the service finds the same `node` for its own
/// children.
pub fn path_with_node_first<P>(node_dir: P, current: Vec<P>) -> (r: Vec<P>)
    ensures
        r@ == seq![node_dir] + current@,
{
    let mut r: Vec<P> = Vec::new();
    r.push(node_dir);
    let mut rest = current;
    r.append(&mut rest);
    r
}

/// What to do after a health probe of a freshly started service.
#[derive(Debug, Clone, Copy, PartialEq, Eq, Structural)]
pub enum HealthVerdict {
    /// Ready, after this many seconds.
    Ready(u64),
    /// Not yet; sleep a second and probe again.
    Wait,
    /// Given up.
    TimedOut,
}

/// The verdict after probe number `attempt` (counting from 0, one a second):
/// ready as soon as a probe succeeds; given up after the last allowed probe
/// failed.
pub fn health_verdict(attempt: u64, alive: bool) -> (v: HealthVerdict)
    requires
        attempt < HEALTH_CHECK_TIMEOUT_SECS,
    ensures
        alive ==> v == HealthVerdict::Ready(attempt),
        !alive && attempt + 1 < HEALTH_CHECK_TIMEOUT_SECS ==> v == HealthVerdict::Wait,
        !alive && attempt + 1 == HEALTH_CHECK_TIMEOUT_SECS ==> v == HealthVerdict::TimedOut,
{
    if alive {
        HealthVerdict::Ready(attempt)
    } else if attempt + 1 < HEALTH_CHECK_TIMEOUT_SECS {
        HealthVerdict::Wait
    } else {
        HealthVerdict::TimedOut
    }
}

/// The text of the error when the service did not become ready:
/// `等待 DSH 服务就绪超时（30s）。查看日志：<log>`.
pub fn timeout_message(log_path: &str) -> (m: String)
    ensures
        m@ == "等待 DSH 服务就绪超时（"@ + decimal(HEALTH_CHECK_TIMEOUT_SECS as nat) + "s）。查看日志："@ + log_path@,
{
    let mut m = "等待 DSH 服务就绪超时（".to_owned();
    let secs = u64_to_decimal(HEALTH_CHECK_TIMEOUT_SECS);
    m.append(secs.as_str());
    m.append("s）。查看日志：");
    m.append(log_path);
    m
}

} // verus!

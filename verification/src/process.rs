//! Stopping the service's process tree, and its log output.

use vstd::prelude::*;
use crate::text::{decimal, u64_to_decimal};

verus! {

/// The polite termination signal.
pub const SIGTERM: i32 = 15;

/// The forced termination signal.
pub const SIGKILL: i32 = 9;

/// Seconds between the polite and the forced signals, when stopping while
/// the application runs.
pub const KILL_GRACE_SECS: u64 = 2;

/// Milliseconds between the polite and the forced signals, when stopping on
/// exit.
pub const EXIT_KILL_GRACE_MILLIS: u64 = 500;

/// Seconds to wait for the stopped process to be reaped.
pub const REAP_TIMEOUT_SECS: u64 = 3;

/// The process group led by `pid` (as `kill` addresses it) and the process
/// itself.
pub open spec fn kill_targets(pid: u32) -> (i32, i32) {
    ((-(pid as i32)) as i32, pid as i32)
}

/// The two rounds of signals that stop the process tree of `pid` on Unix.
pub open spec fn kill_rounds(pid: u32) -> (Seq<(i32, i32)>, Seq<(i32, i32)>) {
    (
        seq![(kill_targets(pid).0, SIGTERM), (kill_targets(pid).1, SIGTERM)],
        seq![(kill_targets(pid).0, SIGKILL), (kill_targets(pid).1, SIGKILL)],
    )
}

/// The signals that stop a process tree on Unix, in two rounds separated by a
/// grace period: first the group and then the process get `SIGTERM`, then
/// both get `SIGKILL`. Each round is a list of `(target, signal)`.
pub fn unix_kill_rounds(pid: u32) -> (r: (Vec<(i32, i32)>, Vec<(i32, i32)>))
    requires
        pid as i32 != i32::MIN,
    ensures
        r.0@ == kill_rounds(pid).0,
        r.1@ == kill_rounds(pid).1,
{
    let p: i32 = pid as i32;
    let group: i32 = -p;
    let mut first: Vec<(i32, i32)> = Vec::new();
    first.push((group, SIGTERM));
    first.push((p, SIGTERM));
    let mut second: Vec<(i32, i32)> = Vec::new();
    second.push((group, SIGKILL));
    second.push((p, SIGKILL));
    (first, second)
}

/// Every process that gets the forced signal got the polite one in the
/// round before.
pub proof fn polite_signal_comes_first(pid: u32)
    ensures
        forall|i: int| 0 <= i < kill_rounds(pid).1.len() ==> exists|j: int|
            0 <= j < kill_rounds(pid).0.len() && (#[trigger] kill_rounds(pid).0[j]).0
                == (#[trigger] kill_rounds(pid).1[i]).0 && kill_rounds(pid).0[j].1 == SIGTERM,
        forall|i: int| 0 <= i < kill_rounds(pid).1.len() ==> (#[trigger] kill_rounds(pid).1[i]).1 == SIGKILL,
{
    let r = kill_rounds(pid);
    assert forall|i: int| 0 <= i < r.1.len() implies exists|j: int| 0 <= j < r.0.len()
        && (#[trigger] r.0[j]).0 == (#[trigger] r.1[i]).0 && r.0[j].1 == SIGTERM by {
        assert(r.0[i].0 == r.1[i].0);
    }
}

/// Each round signals the process group led by `pid` and then the process
/// itself: the first target is the negation of the second, which is the pid;
/// for every pid that fits an `i32`, the targets are exactly `-pid` and
/// `pid`. The first round sends `SIGTERM` (15), the second `SIGKILL` (9).
pub proof fn rounds_signal_group_then_process(pid: u32)
    requires
        pid as i32 != i32::MIN,
    ensures
        kill_rounds(pid).0.len() == 2 && kill_rounds(pid).1.len() == 2,
        kill_rounds(pid).0[0].0 == -(kill_rounds(pid).0[1].0),
        kill_rounds(pid).1[0].0 == -(kill_rounds(pid).1[1].0),
        kill_rounds(pid).0[1].0 == pid as i32 && kill_rounds(pid).1[1].0 == pid as i32,
        pid <= i32::MAX ==> kill_rounds(pid).0[0].0 == -(pid as int) && kill_rounds(pid).0[1].0 == pid as int
            && kill_rounds(pid).1[0].0 == -(pid as int) && kill_rounds(pid).1[1].0 == pid as int,
        kill_rounds(pid).0[0].1 == 15 && kill_rounds(pid).0[1].1 == 15,
        kill_rounds(pid).1[0].1 == 9 && kill_rounds(pid).1[1].1 == 9,
{
    assert(pid <= i32::MAX ==> pid as i32 == pid as int);
}

/// The arguments of `taskkill` that force-stop the process tree of `pid` on
/// Windows: `/T /F /PID <pid>`.
pub fn taskkill_args(pid: u32) -> (r: Vec<String>)
    ensures
        r@.len() == 4,
        r@[0]@ == "/T"@,
        r@[1]@ == "/F"@,
        r@[2]@ == "/PID"@,
        r@[3]@ == decimal(pid as nat),
{
    let mut v: Vec<String> = Vec::new();
    v.push("/T".to_owned());
    v.push("/F".to_owned());
    v.push("/PID".to_owned());
    v.push(u64_to_decimal(pid as u64));
    v
}

/// The output stream a log line came from.
#[derive(Debug, Clone, Copy, PartialEq, Eq, Structural)]
pub enum OutputStream {
    Stdout,
    Stderr,
}

/// The line written to the log file for a line of output: `[stdout] <line>`
/// or `[stderr] <line>`.
pub fn tagged_log_line(stream: OutputStream, line: &str) -> (r: String)
    ensures
        r@ == (match stream {
            OutputStream::Stdout => "[stdout] "@,
            OutputStream::Stderr => "[stderr] "@,
        }) + line@,
{
    let mut r = match stream {
        OutputStream::Stdout => "[stdout] ".to_owned(),
        OutputStream::Stderr => "[stderr] ".to_owned(),
    };
    r.append(line);
    r
}

} // verus!

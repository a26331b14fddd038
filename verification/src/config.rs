//! Runtime constants and the layout of the application data directory.

use vstd::prelude::*;

verus! {

/// The port tried first, both to find an already running service and to
/// start our own one.
pub const PREFERRED_PORT: u16 = 3080;

/// How many one-second health probes are made before a started service is
/// given up on.
pub const HEALTH_CHECK_TIMEOUT_SECS: u64 = 30;


/// The directories kept under the application data directory.
#[derive(Debug, Clone, Copy, PartialEq, Eq, Structural)]
pub enum AppDir {
    /// `dsh-home`: the service's home (profiles, settings, caches).
    DshHome,
    /// `dependencies/dsh`: the unpacked DeepSeek Harness runtime package.
    DshPkg,
    /// `runtime/node`: the unpacked Node.js runtime.
    NodeRuntime,
    /// `logs`: the service's output.
    Logs,
    /// `downloads`: archives while they are being installed.
    Downloads,
}

/// The path of a directory below the application data directory, one
/// component per element.
pub open spec fn app_dir_segments(dir: AppDir) -> Seq<Seq<char>> {
    match dir {
        AppDir::DshHome => seq!["dsh-home"@],
        AppDir::DshPkg => seq!["dependencies"@, "dsh"@],
        AppDir::NodeRuntime => seq!["runtime"@, "node"@],
        AppDir::Logs => seq!["logs"@],
        AppDir::Downloads => seq!["downloads"@],
    }
}

/// The views of a list of path components.
pub open spec fn views(v: Seq<&'static str>) -> Seq<Seq<char>> {
    v.map_values(|s: &'static str| s@)
}

impl AppDir {
    /// The path of this directory below the application data directory.
    pub fn segments(self) -> (r: Vec<&'static str>)
        ensures
            views(r@) == app_dir_segments(self),
    {
        let mut v: Vec<&'static str> = Vec::new();
        match self {
            AppDir::DshHome => v.push("dsh-home"),
            AppDir::DshPkg => {
                v.push("dependencies");
                v.push("dsh");
            },
            AppDir::NodeRuntime => {
                v.push("runtime");
                v.push("node");
            },
            AppDir::Logs => v.push("logs"),
            AppDir::Downloads => v.push("downloads"),
        }
        proof {
            assert(views(v@) =~= app_dir_segments(self));
        }
        v
    }
}

/// The file, in the logs directory, that receives the service's output.
pub const DSH_LOG_FILE: &'static str = "dsh-web.log";


/// How the service is started.
#[derive(Debug)]
pub enum DshEntry<P> {
    /// A script run as `node <script>`.
    NodeScript(P),
    /// An executable run directly.
    Executable(P),
}

/// A part of the runtime could not be found.
#[derive(Debug, Clone, Copy, PartialEq, Eq, Structural)]
pub enum ResolveError {
    /// No `node` in the bundled runtime nor on the `PATH`.
    NodeNotFound,
    /// No DeepSeek Harness in the bundled package nor on the `PATH`.
    DshNotFound,
}

impl ResolveError {
    /// The text shown for this error.
    pub open spec fn message_view(self) -> Seq<char> {
        match self {
            ResolveError::NodeNotFound => "找不到 node，可执行文件既不在内置 runtime 也不在系统 PATH。"@,
            ResolveError::DshNotFound => "找不到 DSH：请先运行 M3 的自动下载，或将 dsh 安装到系统 PATH。"@,
        }
    }

    /// The text shown for this error.
    pub fn message(&self) -> (m: &'static str)
        ensures
            m@ == self.message_view(),
    {
        match self {
            ResolveError::NodeNotFound => "找不到 node，可执行文件既不在内置 runtime 也不在系统 PATH。",
            ResolveError::DshNotFound => "找不到 DSH：请先运行 M3 的自动下载，或将 dsh 安装到系统 PATH。",
        }
    }
}

/// The place of the `node` executable inside an unpacked Node.js runtime
/// (or inside its single versioned top directory): `bin/node`, or `node.exe`
/// on Windows.
pub open spec fn node_binary_segments_view(windows: bool) -> Seq<Seq<char>> {
    if windows {
        seq!["node.exe"@]
    } else {
        seq!["bin"@, "node"@]
    }
}

/// The place of the `node` executable inside an unpacked Node.js runtime.
pub fn node_binary_segments(windows: bool) -> (r: Vec<&'static str>)
    ensures
        views(r@) == node_binary_segments_view(windows),
{
    let mut v: Vec<&'static str> = Vec::new();
    if windows {
        v.push("node.exe");
    } else {
        v.push("bin");
        v.push("node");
    }
    proof {
        assert(views(v@) =~= node_binary_segments_view(windows));
    }
    v
}

/// The places of the service's script inside the unpacked package, in the
/// order they are tried: `node_modules/@deepseek-ai/dsh/lib/bin.js`, then
/// `lib/bin.js`.
pub open spec fn dsh_script_candidates_view() -> Seq<Seq<Seq<char>>> {
    seq![
        seq!["node_modules"@, "@deepseek-ai"@, "dsh"@, "lib"@, "bin.js"@],
        seq!["lib"@, "bin.js"@],
    ]
}

/// The places of the service's script inside the unpacked package, in the
/// order they are tried.
pub fn dsh_script_candidates() -> (r: Vec<Vec<&'static str>>)
    ensures
        r@.len() == 2,
        forall|i: int| 0 <= i < 2 ==> views(#[trigger] r@[i]@) == dsh_script_candidates_view()[i],
{
    let mut nested: Vec<&'static str> = Vec::new();
    nested.push("node_modules");
    nested.push("@deepseek-ai");
    nested.push("dsh");
    nested.push("lib");
    nested.push("bin.js");
    let mut flat: Vec<&'static str> = Vec::new();
    flat.push("lib");
    flat.push("bin.js");
    proof {
        assert(views(nested@) =~= dsh_script_candidates_view()[0]);
        assert(views(flat@) =~= dsh_script_candidates_view()[1]);
    }
    let mut r: Vec<Vec<&'static str>> = Vec::new();
    r.push(nested);
    r.push(flat);
    r
}

/// Chooses the `node` executable: the bundled runtime's own (directly in it,
/// then inside a subdirectory of it) before one on the `PATH`.
pub fn choose_node<P>(bundled: Option<P>, bundled_nested: Option<P>, on_path: Option<P>) -> (r: Result<P, ResolveError>)
    ensures
        match (bundled, bundled_nested, on_path) {
            (Some(p), _, _) => r == Ok::<P, ResolveError>(p),
            (None, Some(p), _) => r == Ok::<P, ResolveError>(p),
            (None, None, Some(p)) => r == Ok::<P, ResolveError>(p),
            (None, None, None) => r == Err::<P, ResolveError>(ResolveError::NodeNotFound),
        },
{
    match bundled {
        Some(p) => Ok(p),
        None => match bundled_nested {
            Some(p) => Ok(p),
            None => match on_path {
                Some(p) => Ok(p),
                None => Err(ResolveError::NodeNotFound),
            },
        },
    }
}

/// Chooses how to start the service: a script of the bundled package (the
/// nested place, then the flat one), run by `node`, before a `dsh` executable
/// on the `PATH`.
pub fn choose_dsh_entry<P>(nested_script: Option<P>, flat_script: Option<P>, on_path: Option<P>) -> (r: Result<DshEntry<P>, ResolveError>)
    ensures
        match (nested_script, flat_script, on_path) {
            (Some(p), _, _) => r == Ok::<DshEntry<P>, ResolveError>(DshEntry::NodeScript(p)),
            (None, Some(p), _) => r == Ok::<DshEntry<P>, ResolveError>(DshEntry::NodeScript(p)),
            (None, None, Some(p)) => r == Ok::<DshEntry<P>, ResolveError>(DshEntry::Executable(p)),
            (None, None, None) => r == Err::<DshEntry<P>, ResolveError>(ResolveError::DshNotFound),
        },
{
    match nested_script {
        Some(p) => Ok(DshEntry::NodeScript(p)),
        None => match flat_script {
            Some(p) => Ok(DshEntry::NodeScript(p)),
            None => match on_path {
                Some(p) => Ok(DshEntry::Executable(p)),
                None => Err(ResolveError::DshNotFound),
            },
        },
    }
}

/// A program looked up on the `PATH`.
#[derive(Debug, Clone, Copy, PartialEq, Eq, Structural)]
pub enum Tool {
    Node,
    Dsh,
}

/// The file names under which a program is looked for in each `PATH`
/// directory, in order: on Windows `<name>.cmd`, `<name>.exe`, then `<name>`.
pub open spec fn tool_file_names_view(tool: Tool, windows: bool) -> Seq<Seq<char>> {
    let name = match tool {
        Tool::Node => "node"@,
        Tool::Dsh => "dsh"@,
    };
    if windows {
        seq![name + ".cmd"@, name + ".exe"@, name]
    } else {
        seq![name]
    }
}

/// Every program is looked for under the same file names built from its own
/// name (`node` or `dsh`): on Windows `<name>.cmd`, `<name>.exe`, then
/// `<name>`; elsewhere `<name>` alone.
pub proof fn tool_file_names_follow_the_name(tool: Tool)
    ensures
        ({
            let n = if tool == Tool::Node { "node"@ } else { "dsh"@ };
            &&& tool_file_names_view(tool, false) == seq![n]
            &&& tool_file_names_view(tool, true).len() == 3
            &&& tool_file_names_view(tool, true)[0] == n + ".cmd"@
            &&& tool_file_names_view(tool, true)[1] == n + ".exe"@
            &&& tool_file_names_view(tool, true)[2] == n
        }),
        tool_file_names_view(tool, true)[2] == tool_file_names_view(tool, false)[0],
{
}

/// The file names under which a program is looked for in each `PATH`
/// directory, in order.
pub fn tool_file_names(tool: Tool, windows: bool) -> (r: Vec<String>)
    ensures
        r@.len() == tool_file_names_view(tool, windows).len(),
        forall|i: int| 0 <= i < r@.len() ==> #[trigger] r@[i]@ == tool_file_names_view(tool, windows)[i],
{
    let name: &'static str = match tool {
        Tool::Node => "node",
        Tool::Dsh => "dsh",
    };
    let mut v: Vec<String> = Vec::new();
    if windows {
        let mut cmd = name.to_owned();
        cmd.append(".cmd");
        let mut exe = name.to_owned();
        exe.append(".exe");
        v.push(cmd);
        v.push(exe);
    }
    v.push(name.to_owned());
    v
}


/// The order in which `PATH` directories and file names are tried: every
/// name in the first directory, then every name in the second, and so on.
/// Element `d * names + n` is `(d, n)`.
pub fn path_search_order(dirs: usize, names: usize) -> (r: Vec<(usize, usize)>)
    requires
        dirs * names <= usize::MAX,
    ensures
        r@.len() == dirs * names,
        forall|d: int, n: int|
            0 <= d < dirs && 0 <= n < names ==> #[trigger] r@[d * names + n] == (d as usize, n as usize),
{
    let mut r: Vec<(usize, usize)> = Vec::new();
    let mut d: usize = 0;
    while d < dirs
        invariant
            d <= dirs,
            dirs * names <= usize::MAX,
            r@.len() == d * names,
            forall|d2: int, n: int|
                0 <= d2 < d && 0 <= n < names ==> #[trigger] r@[d2 * names + n] == (d2 as usize, n as usize),
        decreases dirs - d,
    {
        let mut n: usize = 0;
        while n < names
            invariant
                d < dirs,
                n <= names,
                dirs * names <= usize::MAX,
                r@.len() == d * names + n,
                forall|d2: int, n2: int|
                    0 <= d2 < d && 0 <= n2 < names ==> #[trigger] r@[d2 * names + n2] == (d2 as usize, n2 as usize),
                forall|n2: int| 0 <= n2 < n ==> #[trigger] r@[d * names + n2] == (d as usize, n2 as usize),
            decreases names - n,
        {
            proof {
                assert(d * names + n < dirs * names) by (nonlinear_arith)
                    requires d < dirs, n < names;
            }
            let ghost before = r@;
            r.push((d, n));
            proof {
                assert forall|d2: int, n2: int| 0 <= d2 < d && 0 <= n2 < names implies
                    #[trigger] r@[d2 * names + n2] == (d2 as usize, n2 as usize) by {
                    assert(d2 * names + n2 < d * names) by (nonlinear_arith)
                        requires d2 < d, n2 < names, 0 <= d2, 0 <= n2;
                    assert(r@[d2 * names + n2] == before[d2 * names + n2]);
                }
            }
            n = n + 1;
        }
        proof {
            assert((d + 1) * names == d * names + names) by (nonlinear_arith);
            assert forall|d2: int, n2: int| 0 <= d2 < d + 1 && 0 <= n2 < names implies
                #[trigger] r@[d2 * names + n2] == (d2 as usize, n2 as usize) by {
                if d2 == d {
                    assert(r@[d * names + n2] == (d as usize, n2 as usize));
                }
            }
        }
        d = d + 1;
    }
    r
}

} // verus!

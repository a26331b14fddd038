use dsh_desktop::bridge::{describe_entry, CmdError, RuntimeInfo};
use dsh_desktop::config::{
    choose_dsh_entry, choose_node, dsh_script_candidates, node_binary_segments, path_search_order,
    tool_file_names,
    AppDir, DshEntry, ResolveError, Tool, DSH_LOG_FILE, HEALTH_CHECK_TIMEOUT_SECS, PREFERRED_PORT,
};
use dsh_desktop::extract::{zip_entry_action, ZipEntryAction};
use dsh_desktop::launcher::{
    dsh_command, dsh_env, health_verdict, path_with_node_first, pick_port, timeout_message,
    CommandArg, HealthVerdict,
};
use dsh_desktop::probe::is_alive_status;
use dsh_desktop::process::{tagged_log_line, taskkill_args, unix_kill_rounds, OutputStream, SIGKILL, SIGTERM};
use dsh_desktop::text::{str_eq, u64_to_decimal};

fn texts(args: &[CommandArg<String>]) -> Vec<String> {
    args.iter()
        .map(|a| match a {
            CommandArg::Path(p) => format!("<{p}>"),
            CommandArg::Text(t) => t.clone(),
        })
        .collect()
}

#[test]
fn constants() {
    assert_eq!(PREFERRED_PORT, 3080);
    assert_eq!(HEALTH_CHECK_TIMEOUT_SECS, 30);
    assert_eq!(DSH_LOG_FILE, "dsh-web.log");
}

#[test]
fn data_directory_layout() {
    assert_eq!(AppDir::DshHome.segments(), vec!["dsh-home"]);
    assert_eq!(AppDir::DshPkg.segments(), vec!["dependencies", "dsh"]);
    assert_eq!(AppDir::NodeRuntime.segments(), vec!["runtime", "node"]);
    assert_eq!(AppDir::Logs.segments(), vec!["logs"]);
    assert_eq!(AppDir::Downloads.segments(), vec!["downloads"]);
}

#[test]
fn node_binary_places() {
    assert_eq!(node_binary_segments(false), vec!["bin", "node"]);
    assert_eq!(node_binary_segments(true), vec!["node.exe"]);
    let c = dsh_script_candidates();
    assert_eq!(c[0], vec!["node_modules", "@deepseek-ai", "dsh", "lib", "bin.js"]);
    assert_eq!(c[1], vec!["lib", "bin.js"]);
}

#[test]
fn tool_names_on_path() {
    assert_eq!(tool_file_names(Tool::Node, false), vec!["node".to_string()]);
    assert_eq!(tool_file_names(Tool::Dsh, true), vec!["dsh.cmd".to_string(), "dsh.exe".into(), "dsh".into()]);
}

#[test]
fn bundled_node_comes_before_path() {
    let s = |x: &str| Some(x.to_string());
    assert_eq!(choose_node(s("a"), s("b"), s("c")).unwrap(), "a");
    assert_eq!(choose_node(None, s("b"), s("c")).unwrap(), "b");
    assert_eq!(choose_node(None, None, s("c")).unwrap(), "c");
    let e = choose_node::<String>(None, None, None).unwrap_err();
    assert_eq!(e, ResolveError::NodeNotFound);
    assert_eq!(e.message(), "找不到 node，可执行文件既不在内置 runtime 也不在系统 PATH。");
}

#[test]
fn bundled_script_comes_before_path() {
    let s = |x: &str| Some(x.to_string());
    assert!(matches!(choose_dsh_entry(s("n"), s("f"), s("p")).unwrap(), DshEntry::NodeScript(p) if p == "n"));
    assert!(matches!(choose_dsh_entry(None, s("f"), s("p")).unwrap(), DshEntry::NodeScript(p) if p == "f"));
    assert!(matches!(choose_dsh_entry(None, None, s("p")).unwrap(), DshEntry::Executable(p) if p == "p"));
    let e = choose_dsh_entry::<String>(None, None, None).unwrap_err();
    assert_eq!(e, ResolveError::DshNotFound);
    assert_eq!(e.message(), "找不到 DSH：请先运行 M3 的自动下载，或将 dsh 安装到系统 PATH。");
}

#[test]
fn port_choice() {
    assert_eq!(pick_port(false), Some(3080));
    assert_eq!(pick_port(true), None);
}

#[test]
fn command_for_script_and_executable() {
    let c = dsh_command(DshEntry::NodeScript("bin.js".to_string()), "node".to_string(), 3080);
    assert_eq!(c.program, "node");
    assert_eq!(texts(&c.args), vec!["<bin.js>", "web", "--host", "127.0.0.1", "--port", "3080"]);
    let c = dsh_command(DshEntry::Executable("/usr/bin/dsh".to_string()), "node".to_string(), 51000);
    assert_eq!(c.program, "/usr/bin/dsh");
    assert_eq!(texts(&c.args), vec!["web", "--host", "127.0.0.1", "--port", "51000"]);
}

#[test]
fn service_environment() {
    let env = dsh_env("/home/x/dsh-home".to_string(), 4567);
    let names: Vec<&str> = env.iter().map(|(k, _)| *k).collect();
    assert_eq!(names, vec!["DSH_HOME", "DSH_TELEMETRY_DISABLED", "NO_COLOR", "DSH_WEB_PORT"]);
    let values: Vec<CommandArg<String>> = env.into_iter().map(|(_, v)| v).collect();
    assert_eq!(texts(&values), vec!["</home/x/dsh-home>", "1", "1", "4567"]);
    assert_eq!(path_with_node_first("n", vec!["a", "b"]), vec!["n", "a", "b"]);
    assert_eq!(path_with_node_first("n", vec![]), vec!["n"]);
}

#[test]
fn health_wait() {
    assert_eq!(health_verdict(0, true), HealthVerdict::Ready(0));
    assert_eq!(health_verdict(0, false), HealthVerdict::Wait);
    assert_eq!(health_verdict(28, false), HealthVerdict::Wait);
    assert_eq!(health_verdict(29, false), HealthVerdict::TimedOut);
    assert_eq!(health_verdict(29, true), HealthVerdict::Ready(29));
    let mut probes = 0;
    let outcome = loop {
        let v = health_verdict(probes, false);
        probes += 1;
        if v != HealthVerdict::Wait {
            break v;
        }
    };
    assert_eq!(outcome, HealthVerdict::TimedOut);
    assert_eq!(probes, 30);
    assert_eq!(
        timeout_message("/tmp/logs/dsh-web.log"),
        "等待 DSH 服务就绪超时（30s）。查看日志：/tmp/logs/dsh-web.log"
    );
}

#[test]
fn alive_codes() {
    assert!(is_alive_status(200));
    assert!(!is_alive_status(201));
    assert!(!is_alive_status(204));
    assert!(is_alive_status(300));
    assert!(is_alive_status(301));
    assert!(is_alive_status(399));
    assert!(!is_alive_status(199));
    assert!(!is_alive_status(400));
    assert!(!is_alive_status(503));
}

#[test]
fn kill_signals() {
    let (a, b) = unix_kill_rounds(1234);
    assert_eq!(a, vec![(-1234, SIGTERM), (1234, SIGTERM)]);
    assert_eq!(b, vec![(-1234, SIGKILL), (1234, SIGKILL)]);
    assert_eq!((SIGTERM, SIGKILL), (15, 9));
    let (a, _) = unix_kill_rounds(u32::MAX);
    assert_eq!(a, vec![(1, SIGTERM), (-1, SIGTERM)]);
    assert_eq!(taskkill_args(4321), vec!["/T", "/F", "/PID", "4321"]);
}

#[test]
fn log_lines() {
    assert_eq!(tagged_log_line(OutputStream::Stdout, "ready"), "[stdout] ready");
    assert_eq!(tagged_log_line(OutputStream::Stderr, ""), "[stderr] ");
}

#[test]
fn zip_entries() {
    assert_eq!(zip_entry_action(false, true), ZipEntryAction::Skip);
    assert_eq!(zip_entry_action(false, false), ZipEntryAction::Skip);
    assert_eq!(zip_entry_action(true, true), ZipEntryAction::CreateDir);
    assert_eq!(zip_entry_action(true, false), ZipEntryAction::WriteFile);
}

#[test]
fn entry_descriptions_and_errors() {
    assert_eq!(describe_entry(&DshEntry::NodeScript("/a/bin.js".to_string())), "node /a/bin.js");
    assert_eq!(describe_entry(&DshEntry::Executable("/usr/bin/dsh".to_string())), "/usr/bin/dsh");
    let e = CmdError::from_message("boom: cause".to_string());
    assert_eq!(e.message(), "boom: cause");
    let info = RuntimeInfo {
        app_data: Some("/d".into()),
        dsh_home: None,
        dsh_pkg: None,
        node_dir: None,
        logs: None,
        node_resolved: None,
        dsh_resolved: Some("node /d/lib/bin.js".into()),
    };
    assert_eq!(info.app_data.as_deref(), Some("/d"));
}

#[test]
fn decimal_text() {
    assert_eq!(u64_to_decimal(0), "0");
    assert_eq!(u64_to_decimal(9), "9");
    assert_eq!(u64_to_decimal(10), "10");
    assert_eq!(u64_to_decimal(3080), "3080");
    assert_eq!(u64_to_decimal(u64::MAX), "18446744073709551615");
    assert!(str_eq("macos", "macos"));
    assert!(!str_eq("macos", "macOS"));
    assert!(!str_eq("", "x"));
}

#[test]
fn path_directories_before_names() {
    assert_eq!(path_search_order(2, 3), vec![(0, 0), (0, 1), (0, 2), (1, 0), (1, 1), (1, 2)]);
    assert_eq!(path_search_order(3, 1), vec![(0, 0), (1, 0), (2, 0)]);
    assert!(path_search_order(0, 3).is_empty());
    assert!(path_search_order(4, 0).is_empty());
}

use dsh_desktop::config::AppDir;
use dsh_desktop::download::{
    download_status_ok, ensure_step, install_failed_message, install_plan, DownloadMeter,
    DownloadProgress, DshInstallable, EnsureAction, EnsureEvent, EnsurePhase, InstallTarget,
    Installable, NodeInstallable, Package, NODE_VERSION,
};

#[test]
fn node_triplets_per_platform() {
    assert_eq!(NodeInstallable::arch_triplet("macos", "aarch64").unwrap(), ("darwin", "arm64", true));
    assert_eq!(NodeInstallable::arch_triplet("macos", "x86_64").unwrap(), ("darwin", "x64", true));
    assert_eq!(NodeInstallable::arch_triplet("linux", "x86_64").unwrap(), ("linux", "x64", true));
    assert_eq!(NodeInstallable::arch_triplet("linux", "aarch64").unwrap(), ("linux", "arm64", true));
    assert_eq!(NodeInstallable::arch_triplet("windows", "x86_64").unwrap(), ("win", "x64", false));
}

#[test]
fn node_unsupported_platform() {
    let e = NodeInstallable::arch_triplet("windows", "aarch64").unwrap_err();
    assert_eq!(e.package, Package::NodeRuntime);
    assert_eq!(e.os, "windows");
    assert_eq!(e.arch, "aarch64");
    assert_eq!(e.message(), "不支持的平台 windows/aarch64");
    assert!(NodeInstallable::arch_triplet("freebsd", "x86_64").is_err());
    assert!(NodeInstallable::arch_triplet("linux", "riscv64").is_err());
}

#[test]
fn node_asset_and_url() {
    assert_eq!(NODE_VERSION, "v22.22.0");
    assert_eq!(NodeInstallable::asset_name("linux", "x86_64").unwrap(), "node-v22.22.0-linux-x64.tar.gz");
    assert_eq!(NodeInstallable::asset_name("windows", "x86_64").unwrap(), "node-v22.22.0-win-x64.zip");
    assert_eq!(NodeInstallable::asset_name("macos", "aarch64").unwrap(), "node-v22.22.0-darwin-arm64.tar.gz");
    let n = NodeInstallable;
    assert_eq!(
        n.download_url("macos", "x86_64").unwrap(),
        "https://nodejs.org/dist/v22.22.0/node-v22.22.0-darwin-x64.tar.gz"
    );
    assert_eq!(n.download_filename("linux", "aarch64"), "node-v22.22.0-linux-arm64.tar.gz");
    assert_eq!(n.download_filename("solaris", "sparc"), "node.tar.gz");
    assert!(n.is_targz("linux", "x86_64"));
    assert!(!n.is_targz("windows", "x86_64"));
    assert!(n.is_targz("solaris", "sparc"));
    assert_eq!(n.title(), "Node.js");
    assert_eq!(n.install_dir(), AppDir::NodeRuntime);
    assert!(n.wipe_before_extract());
    assert!(n.download_url("solaris", "sparc").is_err());
}

#[test]
fn dsh_tags_and_url() {
    assert_eq!(DshInstallable::platform_tag("macos", "aarch64").unwrap(), "macos-arm64");
    assert_eq!(DshInstallable::platform_tag("macos", "x86_64").unwrap(), "macos-x64");
    assert_eq!(DshInstallable::platform_tag("linux", "riscv64").unwrap(), "linux");
    assert_eq!(DshInstallable::platform_tag("windows", "aarch64").unwrap(), "windows");
    let e = DshInstallable::platform_tag("macos", "powerpc").unwrap_err();
    assert_eq!(e.package, Package::DshPkg);
    assert_eq!(e.message(), "dsh-pkg 不支持的平台 macos/powerpc");
    let d = DshInstallable;
    assert_eq!(
        d.download_url("linux", "x86_64").unwrap(),
        "https://github.com/hairyf/deepseek-harness-pkg/releases/latest/download/deepseek-harness-pkg-linux.zip"
    );
    assert_eq!(d.download_filename("macos", "aarch64"), "deepseek-harness-pkg-macos-arm64.zip");
    assert_eq!(d.download_filename("haiku", "x86_64"), "deepseek-harness-pkg-unknown.zip");
    assert!(!d.is_targz("linux", "x86_64"));
    assert_eq!(d.title(), "DeepSeek Harness");
    assert_eq!(d.install_dir(), AppDir::DshPkg);
    assert!(d.wipe_before_extract());
}

#[test]
fn archive_file_is_last_url_segment() {
    for (os, arch) in [("linux", "x86_64"), ("macos", "aarch64"), ("windows", "x86_64")] {
        let n = NodeInstallable;
        let url = n.download_url(os, arch).unwrap();
        assert!(url.ends_with(&format!("/{}", n.download_filename(os, arch))));
        let d = DshInstallable;
        let url = d.download_url(os, arch).unwrap();
        assert!(url.ends_with(&format!("/{}", d.download_filename(os, arch))));
    }
}

#[test]
fn install_plan_for_node() {
    let p = install_plan(&NodeInstallable, "linux", "x86_64").unwrap();
    assert_eq!(p.url, "https://nodejs.org/dist/v22.22.0/node-v22.22.0-linux-x64.tar.gz");
    assert_eq!(p.archive_name, "node-v22.22.0-linux-x64.tar.gz");
    assert_eq!(p.install_dir, AppDir::NodeRuntime);
    assert_eq!(p.download_stage, "下载 Node.js");
    assert_eq!(p.extract_stage, "解压 Node.js");
    assert_eq!(p.ready_stage, "Node.js 已就绪");
    assert!(p.wipe);
    assert!(p.targz);
}

#[test]
fn install_plan_for_dsh_and_errors() {
    let p = install_plan(&DshInstallable, "windows", "x86_64").unwrap();
    assert_eq!(p.archive_name, "deepseek-harness-pkg-windows.zip");
    assert_eq!(p.ready_stage, "DeepSeek Harness 已就绪");
    assert!(!p.targz);
    let e = install_plan(&DshInstallable, "android", "aarch64").err().unwrap();
    assert_eq!(e.package, Package::DshPkg);
    assert_eq!(install_failed_message("Node.js"), "安装 Node.js 失败");
}

#[test]
fn ensure_installs_missing_node_then_skips_installed_dsh() {
    let (ph, act) = ensure_step::<String>(EnsurePhase::Start, EnsureEvent::Begin);
    assert_eq!(ph, EnsurePhase::AwaitCheck(0));
    assert!(matches!(act, EnsureAction::Check(InstallTarget::Node)));
    let (ph, act) = ensure_step::<String>(ph, EnsureEvent::Checked(false));
    assert_eq!(ph, EnsurePhase::AwaitInstall(0));
    assert!(matches!(act, EnsureAction::Install(InstallTarget::Node)));
    let (ph, act) = ensure_step::<String>(ph, EnsureEvent::Installed(Ok(())));
    assert_eq!(ph, EnsurePhase::AwaitCheck(1));
    assert!(matches!(act, EnsureAction::Check(InstallTarget::Dsh)));
    let (ph, act) = ensure_step::<String>(ph, EnsureEvent::Checked(true));
    assert_eq!(ph, EnsurePhase::Finished);
    assert!(matches!(act, EnsureAction::Complete(Ok(()))));
}

#[test]
fn ensure_stops_at_first_failure() {
    let (ph, _) = ensure_step::<String>(EnsurePhase::Start, EnsureEvent::Begin);
    let (ph, _) = ensure_step::<String>(ph, EnsureEvent::Checked(true));
    let (ph, act) = ensure_step::<String>(ph, EnsureEvent::Checked(false));
    assert!(matches!(act, EnsureAction::Install(InstallTarget::Dsh)));
    let (ph, act) = ensure_step::<String>(ph, EnsureEvent::Installed(Err("disk full".into())));
    assert_eq!(ph, EnsurePhase::Finished);
    match act {
        EnsureAction::Complete(Err((t, e))) => {
            assert_eq!(t, InstallTarget::Dsh);
            assert_eq!(e, "disk full");
        }
        _ => panic!("expected failure"),
    }
}

#[test]
fn meter_reports_changes_only() {
    let (mut m, first) = DownloadMeter::start(1000);
    assert_eq!(first, 0);
    assert_eq!(m.record(5), Some(0));
    assert_eq!(m.record(4), None);
    assert_eq!(m.record(1), Some(1));
    assert_eq!(m.record(490), Some(50));
    assert_eq!(m.record(500), Some(100));
    assert_eq!(m.downloaded, 1000);
    assert_eq!(m.finish(), 100);
}

#[test]
fn meter_without_length_reports_nothing() {
    let (mut m, first) = DownloadMeter::start(0);
    assert_eq!(first, 0);
    assert_eq!(m.record(123), None);
    assert_eq!(m.record(1 << 20), None);
    assert_eq!(m.finish(), 100);
}

#[test]
fn meter_percentages_never_decrease_within_length() {
    let (mut m, _) = DownloadMeter::start(777);
    let mut last = 0;
    for _ in 0..111 {
        if let Some(p) = m.record(7) {
            assert!(p >= last && p <= 100);
            last = p;
        }
    }
    assert_eq!(last, 100);
}

#[test]
fn progress_report_and_status_codes() {
    let p = DownloadProgress::new("下载 Node.js", 42);
    assert_eq!(p.stage, "下载 Node.js");
    assert_eq!(p.percent, 42);
    assert!(download_status_ok(200));
    assert!(download_status_ok(299));
    assert!(!download_status_ok(199));
    assert!(!download_status_ok(302));
    assert!(!download_status_ok(404));
}

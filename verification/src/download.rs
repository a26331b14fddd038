//! First-run installation of the runtime: which archive each dependency is
//! fetched as, where it goes, in what order the dependencies are checked,
//! and how download progress is reported.

use vstd::prelude::*;
use crate::text::str_eq;
use crate::config::AppDir;
use vstd::arithmetic::div_mod::{
    lemma_div_is_ordered, lemma_div_multiples_vanish, lemma_fundamental_div_mod, lemma_mod_pos_bound,
};

verus! {

/// The pinned Node.js release.
pub const NODE_VERSION: &'static str = "v22.22.0";

/// Where Node.js releases are published.
pub const NODE_BASE_URL: &'static str = "https://nodejs.org/dist";

/// Where the prepackaged DeepSeek Harness runtime is published.
pub const DSH_PKG_BASE: &'static str = "https://github.com/hairyf/deepseek-harness-pkg/releases/latest/download";


/// A dependency that is installed on first run.
#[derive(Debug, Clone, Copy, PartialEq, Eq, Structural)]
pub enum Package {
    NodeRuntime,
    DshPkg,
}

/// The running platform has no build of a dependency.
#[derive(Debug)]
pub struct UnsupportedPlatform {
    pub package: Package,
    pub os: String,
    pub arch: String,
}

impl UnsupportedPlatform {
    /// This error is about `package` on `os`/`arch`.
    pub open spec fn describes(self, package: Package, os: Seq<char>, arch: Seq<char>) -> bool {
        self.package == package && self.os@ == os && self.arch@ == arch
    }

    /// The text shown for this error.
    pub open spec fn message_view(self) -> Seq<char> {
        let prefix = match self.package {
            Package::NodeRuntime => "不支持的平台 "@,
            Package::DshPkg => "dsh-pkg 不支持的平台 "@,
        };
        prefix + self.os@ + "/"@ + self.arch@
    }

    fn new(package: Package, os: &str, arch: &str) -> (e: UnsupportedPlatform)
        ensures
            e.describes(package, os@, arch@),
    {
        UnsupportedPlatform { package, os: os.to_owned(), arch: arch.to_owned() }
    }

    /// The text shown for this error.
    pub fn message(&self) -> (m: String)
        ensures
            m@ == self.message_view(),
    {
        let mut m = match self.package {
            Package::NodeRuntime => "不支持的平台 ".to_owned(),
            Package::DshPkg => "dsh-pkg 不支持的平台 ".to_owned(),
        };
        m.append(self.os.as_str());
        m.append("/");
        m.append(self.arch.as_str());
        m
    }
}

/// The Node.js build for a platform (`std::env::consts` names): the
/// distribution's os and arch names, and whether it is a `.tar.gz` (else a
/// `.zip`).
pub open spec fn node_target(os: Seq<char>, arch: Seq<char>) -> Option<(Seq<char>, Seq<char>, bool)> {
    if os == "macos"@ && arch == "aarch64"@ {
        Some(("darwin"@, "arm64"@, true))
    } else if os == "macos"@ && arch == "x86_64"@ {
        Some(("darwin"@, "x64"@, true))
    } else if os == "linux"@ && arch == "x86_64"@ {
        Some(("linux"@, "x64"@, true))
    } else if os == "linux"@ && arch == "aarch64"@ {
        Some(("linux"@, "arm64"@, true))
    } else if os == "windows"@ && arch == "x86_64"@ {
        Some(("win"@, "x64"@, false))
    } else {
        None
    }
}

/// The file name of the Node.js archive for a platform.
pub open spec fn node_asset(os: Seq<char>, arch: Seq<char>) -> Option<Seq<char>> {
    match node_target(os, arch) {
        Some(t) => Some(
            "node-"@ + NODE_VERSION@ + "-"@ + t.0 + "-"@ + t.1 + "."@ + (if t.2 {
                "tar.gz"@
            } else {
                "zip"@
            }),
        ),
        None => None,
    }
}

/// The DeepSeek Harness package tag for a platform.
pub open spec fn dsh_tag(os: Seq<char>, arch: Seq<char>) -> Option<Seq<char>> {
    if os == "macos"@ && arch == "aarch64"@ {
        Some("macos-arm64"@)
    } else if os == "macos"@ && arch == "x86_64"@ {
        Some("macos-x64"@)
    } else if os == "linux"@ {
        Some("linux"@)
    } else if os == "windows"@ {
        Some("windows"@)
    } else {
        None
    }
}

/// The file name of the DeepSeek Harness package for a tag.
pub open spec fn dsh_asset(tag: Seq<char>) -> Seq<char> {
    "deepseek-harness-pkg-"@ + tag + ".zip"@
}

/// A dependency that can be downloaded and unpacked.
pub trait Installable {
    /// The name shown to the user.
    spec fn title_view(&self) -> Seq<char>;

    /// Which dependency this is.
    spec fn package(&self) -> Package;

    /// The download address on a platform, if the platform is supported.
    spec fn url_view(&self, os: Seq<char>, arch: Seq<char>) -> Option<Seq<char>>;

    /// The name under which the archive is saved.
    spec fn filename_view(&self, os: Seq<char>, arch: Seq<char>) -> Seq<char>;

    /// Whether the archive is a `.tar.gz` (else a `.zip`).
    spec fn targz_view(&self, os: Seq<char>, arch: Seq<char>) -> bool;

    /// Where the archive is unpacked.
    spec fn dir_view(&self) -> AppDir;

    /// Whether the target directory is emptied before unpacking.
    spec fn wipe_view(&self) -> bool;

    fn title(&self) -> (t: &'static str)
        ensures
            t@ == self.title_view(),
    ;

    fn download_url(&self, os: &str, arch: &str) -> (r: Result<String, UnsupportedPlatform>)
        ensures
            match self.url_view(os@, arch@) {
                Some(u) => r matches Ok(s) && s@ == u,
                None => r matches Err(e) && e.describes(self.package(), os@, arch@),
            },
    ;

    fn download_filename(&self, os: &str, arch: &str) -> (r: String)
        ensures
            r@ == self.filename_view(os@, arch@),
    ;

    fn install_dir(&self) -> (d: AppDir)
        ensures
            d == self.dir_view(),
    ;

    fn is_targz(&self, os: &str, arch: &str) -> (b: bool)
        ensures
            b == self.targz_view(os@, arch@),
    ;

    fn wipe_before_extract(&self) -> (b: bool)
        ensures
            b == self.wipe_view(),
    ;
}

/// The Node.js runtime, fetched from nodejs.org.
pub struct NodeInstallable;

/// The prepackaged DeepSeek Harness runtime, fetched from GitHub releases.
pub struct DshInstallable;

impl NodeInstallable {
    /// The Node.js build for a platform: os name, arch name, and whether the
    /// archive is a `.tar.gz`.
    pub fn arch_triplet(os: &str, arch: &str) -> (r: Result<(&'static str, &'static str, bool), UnsupportedPlatform>)
        ensures
            match node_target(os@, arch@) {
                Some(t) => r matches Ok(x) && x.0@ == t.0 && x.1@ == t.1 && x.2 == t.2,
                None => r matches Err(e) && e.describes(Package::NodeRuntime, os@, arch@),
            },
    {
        let macos = str_eq(os, "macos");
        let linux = str_eq(os, "linux");
        let windows = str_eq(os, "windows");
        let aarch64 = str_eq(arch, "aarch64");
        let x86_64 = str_eq(arch, "x86_64");
        if macos && aarch64 {
            Ok(("darwin", "arm64", true))
        } else if macos && x86_64 {
            Ok(("darwin", "x64", true))
        } else if linux && x86_64 {
            Ok(("linux", "x64", true))
        } else if linux && aarch64 {
            Ok(("linux", "arm64", true))
        } else if windows && x86_64 {
            Ok(("win", "x64", false))
        } else {
            Err(UnsupportedPlatform::new(Package::NodeRuntime, os, arch))
        }
    }

    /// The file name of the Node.js archive, e.g. `node-v22.22.0-linux-x64.tar.gz`.
    pub fn asset_name(os: &str, arch: &str) -> (r: Result<String, UnsupportedPlatform>)
        ensures
            match node_asset(os@, arch@) {
                Some(a) => r matches Ok(s) && s@ == a,
                None => r matches Err(e) && e.describes(Package::NodeRuntime, os@, arch@),
            },
    {
        let (tos, tarch, targz) = match Self::arch_triplet(os, arch) {
            Ok(t) => t,
            Err(e) => return Err(e),
        };
        let mut s = "node-".to_owned();
        s.append(NODE_VERSION);
        s.append("-");
        s.append(tos);
        s.append("-");
        s.append(tarch);
        s.append(".");
        if targz {
            s.append("tar.gz");
        } else {
            s.append("zip");
        }
        Ok(s)
    }
}

impl Installable for NodeInstallable {
    open spec fn title_view(&self) -> Seq<char> {
        "Node.js"@
    }

    open spec fn package(&self) -> Package {
        Package::NodeRuntime
    }

    open spec fn url_view(&self, os: Seq<char>, arch: Seq<char>) -> Option<Seq<char>> {
        match node_asset(os, arch) {
            Some(a) => Some(NODE_BASE_URL@ + "/"@ + NODE_VERSION@ + "/"@ + a),
            None => None,
        }
    }

    open spec fn filename_view(&self, os: Seq<char>, arch: Seq<char>) -> Seq<char> {
        match node_asset(os, arch) {
            Some(a) => a,
            None => "node.tar.gz"@,
        }
    }

    open spec fn targz_view(&self, os: Seq<char>, arch: Seq<char>) -> bool {
        match node_target(os, arch) {
            Some(t) => t.2,
            None => true,
        }
    }

    open spec fn dir_view(&self) -> AppDir {
        AppDir::NodeRuntime
    }

    open spec fn wipe_view(&self) -> bool {
        true
    }

    fn title(&self) -> (t: &'static str) {
        "Node.js"
    }

    fn download_url(&self, os: &str, arch: &str) -> (r: Result<String, UnsupportedPlatform>) {
        let asset = match Self::asset_name(os, arch) {
            Ok(a) => a,
            Err(e) => return Err(e),
        };
        let mut s = NODE_BASE_URL.to_owned();
        s.append("/");
        s.append(NODE_VERSION);
        s.append("/");
        s.append(asset.as_str());
        Ok(s)
    }

    fn download_filename(&self, os: &str, arch: &str) -> (r: String) {
        match Self::asset_name(os, arch) {
            Ok(a) => a,
            Err(_) => "node.tar.gz".to_owned(),
        }
    }

    fn install_dir(&self) -> (d: AppDir) {
        AppDir::NodeRuntime
    }

    fn is_targz(&self, os: &str, arch: &str) -> (b: bool) {
        match Self::arch_triplet(os, arch) {
            Ok(t) => t.2,
            Err(_) => true,
        }
    }

    fn wipe_before_extract(&self) -> (b: bool) {
        true
    }
}

impl DshInstallable {
    /// The package tag of a platform, e.g. `macos-arm64` or `linux`.
    pub fn platform_tag(os: &str, arch: &str) -> (r: Result<&'static str, UnsupportedPlatform>)
        ensures
            match dsh_tag(os@, arch@) {
                Some(t) => r matches Ok(x) && x@ == t,
                None => r matches Err(e) && e.describes(Package::DshPkg, os@, arch@),
            },
    {
        let macos = str_eq(os, "macos");
        if macos && str_eq(arch, "aarch64") {
            Ok("macos-arm64")
        } else if macos && str_eq(arch, "x86_64") {
            Ok("macos-x64")
        } else if str_eq(os, "linux") {
            Ok("linux")
        } else if str_eq(os, "windows") {
            Ok("windows")
        } else {
            Err(UnsupportedPlatform::new(Package::DshPkg, os, arch))
        }
    }
}

fn dsh_asset_name(tag: &str) -> (s: String)
    ensures
        s@ == dsh_asset(tag@),
{
    let mut s = "deepseek-harness-pkg-".to_owned();
    s.append(tag);
    s.append(".zip");
    s
}

impl Installable for DshInstallable {
    open spec fn title_view(&self) -> Seq<char> {
        "DeepSeek Harness"@
    }

    open spec fn package(&self) -> Package {
        Package::DshPkg
    }

    open spec fn url_view(&self, os: Seq<char>, arch: Seq<char>) -> Option<Seq<char>> {
        match dsh_tag(os, arch) {
            Some(t) => Some(DSH_PKG_BASE@ + "/"@ + dsh_asset(t)),
            None => None,
        }
    }

    open spec fn filename_view(&self, os: Seq<char>, arch: Seq<char>) -> Seq<char> {
        match dsh_tag(os, arch) {
            Some(t) => dsh_asset(t),
            None => dsh_asset("unknown"@),
        }
    }

    open spec fn targz_view(&self, os: Seq<char>, arch: Seq<char>) -> bool {
        false
    }

    open spec fn dir_view(&self) -> AppDir {
        AppDir::DshPkg
    }

    open spec fn wipe_view(&self) -> bool {
        true
    }

    fn title(&self) -> (t: &'static str) {
        "DeepSeek Harness"
    }

    fn download_url(&self, os: &str, arch: &str) -> (r: Result<String, UnsupportedPlatform>) {
        let tag = match Self::platform_tag(os, arch) {
            Ok(t) => t,
            Err(e) => return Err(e),
        };
        let mut s = DSH_PKG_BASE.to_owned();
        s.append("/");
        let asset = dsh_asset_name(tag);
        s.append(asset.as_str());
        Ok(s)
    }

    fn download_filename(&self, os: &str, arch: &str) -> (r: String) {
        let tag = match Self::platform_tag(os, arch) {
            Ok(t) => t,
            Err(_) => "unknown",
        };
        dsh_asset_name(tag)
    }

    fn install_dir(&self) -> (d: AppDir) {
        AppDir::DshPkg
    }

    fn is_targz(&self, os: &str, arch: &str) -> (b: bool) {
        false
    }

    fn wipe_before_extract(&self) -> (b: bool) {
        true
    }
}


/// Everything needed to install one dependency: what to fetch, where to save
/// and unpack it, and the stage names reported to the user.
pub struct InstallPlan {
    pub url: String,
    /// The archive's file name in the downloads directory.
    pub archive_name: String,
    pub install_dir: AppDir,
    /// Reported while downloading: `下载 <title>`.
    pub download_stage: String,
    /// Reported while unpacking: `解压 <title>`.
    pub extract_stage: String,
    /// Reported, at 100%, once installed: `<title> 已就绪`.
    pub ready_stage: String,
    /// Empty the target directory first.
    pub wipe: bool,
    /// Unpack as `.tar.gz` (else as `.zip`).
    pub targz: bool,
}

/// The plan for installing `item` on `os`/`arch`.
pub open spec fn plan_matches<I: Installable>(p: InstallPlan, item: I, os: Seq<char>, arch: Seq<char>) -> bool {
    &&& item.url_view(os, arch) == Some(p.url@)
    &&& p.archive_name@ == item.filename_view(os, arch)
    &&& p.install_dir == item.dir_view()
    &&& p.download_stage@ == "下载 "@ + item.title_view()
    &&& p.extract_stage@ == "解压 "@ + item.title_view()
    &&& p.ready_stage@ == item.title_view() + " 已就绪"@
    &&& p.wipe == item.wipe_view()
    &&& p.targz == item.targz_view(os, arch)
}

/// Plans the installation of `item`; fails exactly when the platform has no
/// build of it.
pub fn install_plan<I: Installable>(item: &I, os: &str, arch: &str) -> (r: Result<InstallPlan, UnsupportedPlatform>)
    ensures
        match item.url_view(os@, arch@) {
            Some(_) => r matches Ok(p) && plan_matches(p, *item, os@, arch@),
            None => r matches Err(e) && e.describes(item.package(), os@, arch@),
        },
{
    let url = match item.download_url(os, arch) {
        Ok(u) => u,
        Err(e) => return Err(e),
    };
    let title = item.title();
    let mut download_stage = "下载 ".to_owned();
    download_stage.append(title);
    let mut extract_stage = "解压 ".to_owned();
    extract_stage.append(title);
    let mut ready_stage = title.to_owned();
    ready_stage.append(" 已就绪");
    Ok(InstallPlan {
        url,
        archive_name: item.download_filename(os, arch),
        install_dir: item.install_dir(),
        download_stage,
        extract_stage,
        ready_stage,
        wipe: item.wipe_before_extract(),
        targz: item.is_targz(os, arch),
    })
}

/// The text of the error when installing a dependency failed: `安装 <title> 失败`.
pub fn install_failed_message(title: &str) -> (m: String)
    ensures
        m@ == "安装 "@ + title@ + " 失败"@,
{
    let mut m = "安装 ".to_owned();
    m.append(title);
    m.append(" 失败");
    m
}

/// The dependencies, in the order in which they are checked and installed.
#[derive(Debug, Clone, Copy, PartialEq, Eq, Structural)]
pub enum InstallTarget {
    Node,
    Dsh,
}

/// The dependency checked at position `i`, Node.js before DeepSeek Harness.
pub open spec fn target_at(i: nat) -> Option<InstallTarget> {
    if i == 0 {
        Some(InstallTarget::Node)
    } else if i == 1 {
        Some(InstallTarget::Dsh)
    } else {
        None
    }
}

/// Where making sure of the runtime stands.
#[derive(Debug, Clone, Copy, PartialEq, Eq, Structural)]
pub enum EnsurePhase {
    /// Not begun.
    Start,
    /// Waiting to hear whether the dependency at this position is installed.
    AwaitCheck(usize),
    /// Waiting for the installation of the dependency at this position.
    AwaitInstall(usize),
    /// Done.
    Finished,
}

/// An answer handed back while making sure of the runtime.
pub enum EnsureEvent<E> {
    Begin,
    /// Whether the dependency asked about is installed.
    Checked(bool),
    /// The outcome of installing it.
    Installed(Result<(), E>),
}

/// What the application has to do next while making sure of the runtime.
pub enum EnsureAction<E> {
    /// Find out whether this dependency is installed and usable.
    Check(InstallTarget),
    /// Download and unpack this dependency.
    Install(InstallTarget),
    /// Done; on failure, the dependency whose installation failed.
    Complete(Result<(), (InstallTarget, E)>),
}

impl EnsurePhase {
    /// Whether `event` answers what this phase waits for.
    pub open spec fn accepts<E>(self, event: EnsureEvent<E>) -> bool {
        match self {
            EnsurePhase::Start => event is Begin,
            EnsurePhase::AwaitCheck(i) => event is Checked && i < 2,
            EnsurePhase::AwaitInstall(i) => event is Installed && i < 2,
            EnsurePhase::Finished => false,
        }
    }
}

/// The step that moves on to the dependency at position `i`, or finishes.
pub open spec fn advances_to<E>(next: (EnsurePhase, EnsureAction<E>), i: nat) -> bool {
    match target_at(i) {
        Some(t) => next.0 == EnsurePhase::AwaitCheck(i as usize) && next.1 == EnsureAction::<E>::Check(t),
        None => next.0 == EnsurePhase::Finished && next.1 == EnsureAction::<E>::Complete(Ok(())),
    }
}

fn target_of(i: usize) -> (t: InstallTarget)
    requires
        i < 2,
    ensures
        target_at(i as nat) == Some(t),
{
    if i == 0 {
        InstallTarget::Node
    } else {
        InstallTarget::Dsh
    }
}

fn advance<E>(i: usize) -> (next: (EnsurePhase, EnsureAction<E>))
    requires
        i <= 2,
    ensures
        advances_to(next, i as nat),
{
    if i < 2 {
        (EnsurePhase::AwaitCheck(i), EnsureAction::Check(target_of(i)))
    } else {
        (EnsurePhase::Finished, EnsureAction::Complete(Ok(())))
    }
}

/// One step of making sure that Node.js and then DeepSeek Harness are
/// installed: an installed dependency is skipped, a missing one installed,
/// and the first failure ends it, naming the dependency.
pub fn ensure_step<E>(phase: EnsurePhase, event: EnsureEvent<E>) -> (next: (EnsurePhase, EnsureAction<E>))
    requires
        phase.accepts(event),
    ensures
        match phase {
            EnsurePhase::Start => advances_to(next, 0),
            EnsurePhase::AwaitCheck(i) => match event {
                EnsureEvent::Checked(true) => advances_to(next, (i + 1) as nat),
                EnsureEvent::Checked(false) => next.0 == EnsurePhase::AwaitInstall(i)
                    && target_at(i as nat) == Some(next.1->Install_0)
                    && next.1 is Install,
                _ => false,
            },
            EnsurePhase::AwaitInstall(i) => match event {
                EnsureEvent::Installed(Ok(())) => advances_to(next, (i + 1) as nat),
                EnsureEvent::Installed(Err(e)) => next.0 == EnsurePhase::Finished
                    && next.1 == EnsureAction::Complete(Err((target_at(i as nat)->0, e))),
                _ => false,
            },
            EnsurePhase::Finished => false,
        },
{
    match phase {
        EnsurePhase::Start => advance(0),
        EnsurePhase::AwaitCheck(i) => match event {
            EnsureEvent::Checked(true) => advance(i + 1),
            _ => (EnsurePhase::AwaitInstall(i), EnsureAction::Install(target_of(i))),
        },
        EnsurePhase::AwaitInstall(i) => match event {
            EnsureEvent::Installed(Err(e)) => (
                EnsurePhase::Finished,
                EnsureAction::Complete(Err((target_of(i), e))),
            ),
            _ => advance(i + 1),
        },
        EnsurePhase::Finished => (EnsurePhase::Finished, EnsureAction::Complete(Ok(()))),
    }
}


/// `url` ends with `/<name>`.
pub open spec fn ends_with_file(url: Seq<char>, name: Seq<char>) -> bool {
    &&& url.len() > name.len()
    &&& url.subrange(url.len() - name.len(), url.len() as int) == name
    &&& url[url.len() - name.len() - 1] == '/'
}

/// On a supported platform, the archive of each dependency is saved under
/// the last path segment of its download address.
pub proof fn archive_is_named_after_url(os: Seq<char>, arch: Seq<char>)
    ensures
        NodeInstallable.url_view(os, arch) matches Some(u) ==> ends_with_file(u, NodeInstallable.filename_view(os, arch)),
        DshInstallable.url_view(os, arch) matches Some(u) ==> ends_with_file(u, DshInstallable.filename_view(os, arch)),
{
    reveal_strlit("/");
    if let Some(u) = NodeInstallable.url_view(os, arch) {
        let f = NodeInstallable.filename_view(os, arch);
        let pre = NODE_BASE_URL@ + "/"@ + NODE_VERSION@;
        assert(u =~= (pre + "/"@) + f);
        assert(u.subrange(u.len() - f.len(), u.len() as int) =~= f);
        assert(u[u.len() - f.len() - 1] == (pre + "/"@)[pre.len() as int]);
    }
    if let Some(u) = DshInstallable.url_view(os, arch) {
        let f = DshInstallable.filename_view(os, arch);
        assert(u =~= (DSH_PKG_BASE@ + "/"@) + f);
        assert(u.subrange(u.len() - f.len(), u.len() as int) =~= f);
        assert(u[u.len() - f.len() - 1] == (DSH_PKG_BASE@ + "/"@)[DSH_PKG_BASE@.len() as int]);
    }
}

/// The event that carries download progress to the front end.
pub const DOWNLOAD_EVENT: &'static str = "dsh://download";

/// A progress report for the front end.
#[derive(Debug)]
pub struct DownloadProgress {
    pub stage: String,
    pub percent: u32,
}

impl DownloadProgress {
    /// A report that `stage` is at `percent`.
    pub fn new(stage: &str, percent: u32) -> (p: DownloadProgress)
        ensures
            p.stage@ == stage@,
            p.percent == percent,
    {
        DownloadProgress { stage: stage.to_owned(), percent }
    }
}

/// The percentage reported after `downloaded` of `total` bytes.
pub open spec fn percent_of(downloaded: u64, total: u64) -> u32 {
    ((downloaded * 100) / (total as int)) as u32
}

/// Tracks the bytes of a download and decides which percentages to report.
pub struct DownloadMeter {
    /// The announced length; 0 when unknown.
    pub total: u64,
    pub downloaded: u64,
    /// The last reported percentage; `u32::MAX` before the first chunk.
    pub last_percent: u32,
}

impl DownloadMeter {
    /// Starts a download of `total` bytes (0 when the length is unknown);
    /// also returns the first report, 0%.
    pub fn start(total: u64) -> (r: (DownloadMeter, u32))
        ensures
            r.0.total == total,
            r.0.downloaded == 0,
            r.0.last_percent == u32::MAX,
            r.1 == 0,
    {
        (DownloadMeter { total, downloaded: 0, last_percent: u32::MAX }, 0)
    }

    /// Records a received chunk. Returns the percentage to report, if any:
    /// with a known length, the new percentage when it differs from the last
    /// one reported; otherwise nothing.
    pub fn record(&mut self, chunk_len: u64) -> (report: Option<u32>)
        requires
            old(self).downloaded + chunk_len <= u64::MAX,
            old(self).total > 0 ==> (old(self).downloaded + chunk_len) * 100 <= u64::MAX,
        ensures
            final(self).total == old(self).total,
            final(self).downloaded == old(self).downloaded + chunk_len,
            ({
                let p = percent_of(final(self).downloaded, old(self).total);
                if old(self).total > 0 && p != old(self).last_percent {
                    report == Some(p) && final(self).last_percent == p
                } else {
                    report is None && final(self).last_percent == old(self).last_percent
                }
            }),
    {
        self.downloaded = self.downloaded + chunk_len;
        if self.total > 0 {
            let p = ((self.downloaded * 100) / self.total) as u32;
            if p != self.last_percent {
                self.last_percent = p;
                return Some(p);
            }
        }
        None
    }

    /// The last report of a finished download, 100%.
    pub fn finish(&self) -> (p: u32)
        ensures
            p == 100,
    {
        100
    }
}

/// While no more than the announced length has arrived, the reported
/// percentage stays within 0..=100 and never decreases.
pub proof fn progress_is_monotone_and_bounded(d1: u64, d2: u64, total: u64)
    requires
        d1 <= d2 <= total,
        total > 0,
        d2 * 100 <= u64::MAX,
    ensures
        percent_of(d1, total) <= percent_of(d2, total) <= 100,
        percent_of(total, total) == 100,
{
    lemma_div_is_ordered(d1 * 100, d2 * 100, total as int);
    lemma_div_is_ordered(d2 * 100, total * 100, total as int);
    lemma_div_multiples_vanish(100, total as int);
    assert((total as int) * 100 == total * 100) by (nonlinear_arith);
    assert(((d1 * 100) / (total as int)) <= 100);
}

/// Whether an HTTP status code is a success (2xx).
pub open spec fn is_success_code(code: u16) -> bool {
    200 <= code <= 299
}

/// Whether an HTTP status code is a redirection (3xx).
pub open spec fn is_redirection_code(code: u16) -> bool {
    300 <= code <= 399
}

/// Whether a download response can be saved: only a success is.
pub fn download_status_ok(code: u16) -> (ok: bool)
    ensures
        ok == is_success_code(code),
{
    200 <= code && code <= 299
}


/// `s` ends with `suffix`.
pub open spec fn ends_with(s: Seq<char>, suffix: Seq<char>) -> bool {
    s.len() >= suffix.len() && s.subrange(s.len() - suffix.len(), s.len() as int) =~= suffix
}

/// The DeepSeek Harness package is split by architecture only on macOS: on
/// Linux every architecture uses the tag `linux` (archive
/// `deepseek-harness-pkg-linux.zip`), on Windows every architecture uses
/// `windows`, and on any other system the tag does not depend on the
/// architecture.
pub proof fn dsh_tag_depends_on_arch_only_on_macos(os: Seq<char>, arch: Seq<char>, other_arch: Seq<char>)
    ensures
        dsh_tag("linux"@, arch) == Some("linux"@),
        dsh_tag("windows"@, arch) == Some("windows"@),
        DshInstallable.filename_view("linux"@, arch) == "deepseek-harness-pkg-linux.zip"@,
        DshInstallable.filename_view("windows"@, arch) == "deepseek-harness-pkg-windows.zip"@,
        os != "macos"@ ==> dsh_tag(os, arch) == dsh_tag(os, other_arch),
{
    reveal_strlit("linux");
    reveal_strlit("macos");
    reveal_strlit("windows");
    reveal_strlit("deepseek-harness-pkg-");
    reveal_strlit(".zip");
    reveal_strlit("deepseek-harness-pkg-linux.zip");
    reveal_strlit("deepseek-harness-pkg-windows.zip");
    assert("linux"@[0] != "macos"@[0]);
    assert("windows"@[0] != "macos"@[0]);
    assert("windows"@[0] != "linux"@[0]);
    assert(dsh_asset("linux"@) =~= "deepseek-harness-pkg-linux.zip"@);
    assert(dsh_asset("windows"@) =~= "deepseek-harness-pkg-windows.zip"@);
}

/// Every archive is unpacked in the format its name says: a dependency is
/// unpacked as `.tar.gz` exactly when its archive name ends with `.tar.gz`,
/// and otherwise its archive name ends with `.zip`.
pub proof fn unpack_format_matches_archive_name(os: Seq<char>, arch: Seq<char>)
    ensures
        NodeInstallable.targz_view(os, arch) ==> ends_with(NodeInstallable.filename_view(os, arch), ".tar.gz"@),
        !NodeInstallable.targz_view(os, arch) ==> ends_with(NodeInstallable.filename_view(os, arch), ".zip"@),
        !DshInstallable.targz_view(os, arch) && ends_with(DshInstallable.filename_view(os, arch), ".zip"@),
{
    reveal_strlit(".");
    reveal_strlit("tar.gz");
    reveal_strlit(".tar.gz");
    reveal_strlit("zip");
    reveal_strlit(".zip");
    reveal_strlit("node.tar.gz");
    let f = NodeInstallable.filename_view(os, arch);
    match node_target(os, arch) {
        Some(t) => {
            let pre = "node-"@ + NODE_VERSION@ + "-"@ + t.0 + "-"@ + t.1;
            if t.2 {
                assert(f =~= pre + ("."@ + "tar.gz"@));
                assert("."@ + "tar.gz"@ =~= ".tar.gz"@);
            } else {
                assert(f =~= pre + ("."@ + "zip"@));
                assert("."@ + "zip"@ =~= ".zip"@);
            }
        },
        None => {
            reveal_strlit("node");
            assert("node.tar.gz"@.subrange(4, 11) =~= ".tar.gz"@);
        },
    }
    let g = DshInstallable.filename_view(os, arch);
    let tag = match dsh_tag(os, arch) {
        Some(t) => t,
        None => "unknown"@,
    };
    assert(g =~= ("deepseek-harness-pkg-"@ + tag) + ".zip"@);
}

/// The reported percentage is the whole-number share of the bytes received:
/// with `0 < total` and `downloaded <= total`, it is the largest `p` with
/// `p * total <= downloaded * 100`.
pub proof fn percent_is_floor_of_share(downloaded: u64, total: u64)
    requires
        0 < total,
        downloaded <= total,
        total * 100 <= u64::MAX,
    ensures
        percent_of(downloaded, total) * total <= downloaded * 100,
        downloaded * 100 < (percent_of(downloaded, total) + 1) * total,
{
    let x = downloaded * 100;
    let t = total as int;
    lemma_fundamental_div_mod(x, t);
    lemma_mod_pos_bound(x, t);
    let q = x / t;
    lemma_div_is_ordered(x, total * 100, t);
    lemma_div_multiples_vanish(100, t);
    assert(t * 100 == total * 100) by (nonlinear_arith)
        requires t == total;
    assert(0 <= q) by (nonlinear_arith)
        requires x >= 0, t > 0, q == x / t;
    assert(q <= 100);
    assert(percent_of(downloaded, total) == q);
    assert(q * t <= x) by (nonlinear_arith)
        requires x == t * q + x % t, 0 <= x % t;
    assert(x < (q + 1) * t) by (nonlinear_arith)
        requires x == t * q + x % t, x % t < t;
}


/// The Node.js platform table: the archive of each supported platform
/// (`std::env::consts` names), its download address below
/// `https://nodejs.org/dist/v22.22.0/`, and that every other system is
/// refused.
pub proof fn node_platform_table(os: Seq<char>, arch: Seq<char>)
    ensures
        NodeInstallable.filename_view("macos"@, "aarch64"@) == "node-v22.22.0-darwin-arm64.tar.gz"@,
        NodeInstallable.filename_view("macos"@, "x86_64"@) == "node-v22.22.0-darwin-x64.tar.gz"@,
        NodeInstallable.filename_view("linux"@, "x86_64"@) == "node-v22.22.0-linux-x64.tar.gz"@,
        NodeInstallable.filename_view("linux"@, "aarch64"@) == "node-v22.22.0-linux-arm64.tar.gz"@,
        NodeInstallable.filename_view("windows"@, "x86_64"@) == "node-v22.22.0-win-x64.zip"@,
        NodeInstallable.url_view(os, arch) matches Some(u)
            ==> u == "https://nodejs.org/dist/v22.22.0/"@ + NodeInstallable.filename_view(os, arch),
        os != "macos"@ && os != "linux"@ && os != "windows"@ ==> NodeInstallable.url_view(os, arch) is None,
{
    reveal_strlit("macos");
    reveal_strlit("linux");
    reveal_strlit("windows");
    reveal_strlit("aarch64");
    reveal_strlit("x86_64");
    reveal_strlit("darwin");
    reveal_strlit("arm64");
    reveal_strlit("x64");
    reveal_strlit("win");
    reveal_strlit("node-");
    reveal_strlit("v22.22.0");
    reveal_strlit("-");
    reveal_strlit(".");
    reveal_strlit("/");
    reveal_strlit("tar.gz");
    reveal_strlit("zip");
    reveal_strlit("https://nodejs.org/dist");
    reveal_strlit("https://nodejs.org/dist/v22.22.0/");
    reveal_strlit("node-v22.22.0-darwin-arm64.tar.gz");
    reveal_strlit("node-v22.22.0-darwin-x64.tar.gz");
    reveal_strlit("node-v22.22.0-linux-x64.tar.gz");
    reveal_strlit("node-v22.22.0-linux-arm64.tar.gz");
    reveal_strlit("node-v22.22.0-win-x64.zip");
    assert("linux"@[0] != "macos"@[0]);
    assert("windows"@[0] != "macos"@[0]);
    assert("windows"@[0] != "linux"@[0]);
    assert("aarch64"@[0] != "x86_64"@[0]);
    assert(NodeInstallable.filename_view("macos"@, "aarch64"@) =~= "node-v22.22.0-darwin-arm64.tar.gz"@);
    assert(NodeInstallable.filename_view("macos"@, "x86_64"@) =~= "node-v22.22.0-darwin-x64.tar.gz"@);
    assert(NodeInstallable.filename_view("linux"@, "x86_64"@) =~= "node-v22.22.0-linux-x64.tar.gz"@);
    assert(NodeInstallable.filename_view("linux"@, "aarch64"@) =~= "node-v22.22.0-linux-arm64.tar.gz"@);
    assert(NodeInstallable.filename_view("windows"@, "x86_64"@) =~= "node-v22.22.0-win-x64.zip"@);
    if let Some(u) = NodeInstallable.url_view(os, arch) {
        assert(u =~= "https://nodejs.org/dist/v22.22.0/"@ + NodeInstallable.filename_view(os, arch));
    }
}

/// The DeepSeek Harness tags on macOS: `macos-arm64` on Apple silicon,
/// `macos-x64` on Intel, and no package for any other macOS architecture.
pub proof fn dsh_macos_tags(arch: Seq<char>)
    ensures
        dsh_tag("macos"@, "aarch64"@) == Some("macos-arm64"@),
        dsh_tag("macos"@, "x86_64"@) == Some("macos-x64"@),
        arch != "aarch64"@ && arch != "x86_64"@ ==> dsh_tag("macos"@, arch) is None,
        DshInstallable.filename_view("macos"@, "aarch64"@) == "deepseek-harness-pkg-macos-arm64.zip"@,
        DshInstallable.url_view("macos"@, arch) matches Some(u)
            ==> u == "https://github.com/hairyf/deepseek-harness-pkg/releases/latest/download/"@
                + DshInstallable.filename_view("macos"@, arch),
{
    reveal_strlit("macos");
    reveal_strlit("linux");
    reveal_strlit("windows");
    reveal_strlit("aarch64");
    reveal_strlit("x86_64");
    reveal_strlit("deepseek-harness-pkg-");
    reveal_strlit("macos-arm64");
    reveal_strlit(".zip");
    reveal_strlit("/");
    reveal_strlit("deepseek-harness-pkg-macos-arm64.zip");
    reveal_strlit("https://github.com/hairyf/deepseek-harness-pkg/releases/latest/download");
    reveal_strlit("https://github.com/hairyf/deepseek-harness-pkg/releases/latest/download/");
    assert("linux"@[0] != "macos"@[0]);
    assert("windows"@[0] != "macos"@[0]);
    assert("aarch64"@[0] != "x86_64"@[0]);
    assert(dsh_asset("macos-arm64"@) =~= "deepseek-harness-pkg-macos-arm64.zip"@);
    if let Some(u) = DshInstallable.url_view("macos"@, arch) {
        assert(u =~= "https://github.com/hairyf/deepseek-harness-pkg/releases/latest/download/"@
            + DshInstallable.filename_view("macos"@, arch));
    }
}

} // verus!

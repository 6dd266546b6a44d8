use starter_tauri_app::artifact::{node_artifact, ArchiveKind};
use starter_tauri_app::checksum::ArchiveHasher;
use starter_tauri_app::error::RuntimeError;
use starter_tauri_app::install::{InstallAction, InstallEvent, InstallFlow, InstallPhase};
use starter_tauri_app::menu::{
    handle_menu_event, refresh_node_runtime_menu_label, setup_menu, MenuCommand, MenuEntry,
    MenuLayout, MenuLeaf, PredefinedItem,
};
use starter_tauri_app::server::{
    assess_child, AutoStartFlow, ChildPoll, ServerAction, ServerEvent, StartFlow, StartPhase,
    StopFlow, UninstallFlow,
};
use starter_tauri_app::status::DEFAULT_SERVER_PORT;

fn leaf_text(l: &MenuLeaf) -> String {
    match l {
        MenuLeaf::About { copyright } => format!("About({})", copyright),
        MenuLeaf::Predefined(p) => format!("{:?}", p),
        MenuLeaf::Item { id, label } => format!("{}={}", id, label),
    }
}

fn layout_text(m: &MenuLayout) -> String {
    let mut out = String::new();
    for sub in &m.menus {
        out.push_str(&format!("[{}]", sub.label));
        for e in &sub.entries {
            match e {
                MenuEntry::Leaf(l) => out.push_str(&format!(" {}", leaf_text(l))),
                MenuEntry::Submenu { label, items } => {
                    let inner: Vec<String> = items.iter().map(leaf_text).collect();
                    out.push_str(&format!(" {}{{{}}}", label, inner.join(",")));
                }
            }
        }
        out.push('\n');
    }
    out
}

#[test]
fn startup_menu_layout() {
    let m = setup_menu("starter-tauri-app");
    let expected = "\
[starter-tauri-app] About(© 2026 OSpoon) Separator Theme{theme_light=Light,theme_dark=Dark,theme_system=System} Node Runtime{open_node_runtime=Open…,Separator,node_server_start=Start Service} check_updates=Check for Updates… Separator Services Separator Hide HideOthers ShowAll Separator Quit
[File] CloseWindow
[Edit] Undo Redo Separator Cut Copy Paste Separator SelectAll
[View] Fullscreen
[Window] Minimize Maximize
[Help] help_github=GitHub help_issues=Issues
";
    assert_eq!(layout_text(&m), expected);
}

#[test]
fn startup_menu_equals_stopped_menu() {
    let a = setup_menu("App");
    let b = refresh_node_runtime_menu_label("App", None, false);
    assert_eq!(layout_text(&a), layout_text(&b));
}

#[test]
fn running_menu_shows_port_and_stop() {
    let m = refresh_node_runtime_menu_label("App", Some(3179), true);
    match &m.menus[0].entries[3] {
        MenuEntry::Submenu { label, items } => {
            assert_eq!(label, "Node Runtime (3179)");
            assert_eq!(leaf_text(&items[2]), "node_server_stop=Stop Service");
        }
        _ => panic!("node submenu expected"),
    }
    match &m.menus[0].entries[0] {
        MenuEntry::Leaf(MenuLeaf::About { copyright }) => assert_eq!(copyright, "© 2026 OSpoon"),
        _ => panic!("About entry expected first"),
    }
    assert!(matches!(m.menus[0].entries[1], MenuEntry::Leaf(MenuLeaf::Predefined(PredefinedItem::Separator))));
}

fn command_text(c: &MenuCommand) -> String {
    match c {
        MenuCommand::Emit { event, payload } => format!("emit {} {:?}", event, payload),
        MenuCommand::OpenUrl { url } => format!("open {}", url),
        MenuCommand::Nothing => "nothing".to_string(),
    }
}

#[test]
fn menu_events_map_to_commands() {
    let cases = [
        ("check_updates", "emit app://check-updates None"),
        ("theme_light", "emit app://set-theme Some(\"light\")"),
        ("theme_dark", "emit app://set-theme Some(\"dark\")"),
        ("theme_system", "emit app://set-theme Some(\"auto\")"),
        ("open_node_runtime", "emit app://open-node-runtime None"),
        ("node_server_start", "emit app://node-server-start None"),
        ("node_server_stop", "emit app://node-server-stop None"),
        ("help_github", "open https://github.com/OSpoon/starter-tauri-app"),
        ("help_issues", "open https://github.com/OSpoon/starter-tauri-app/issues"),
        ("quit", "nothing"),
        ("", "nothing"),
    ];
    for (id, want) in cases {
        assert_eq!(command_text(&handle_menu_event(id)), want);
    }
}

#[test]
fn every_item_of_the_menus_has_a_command() {
    for m in [
        setup_menu("A"),
        refresh_node_runtime_menu_label("A", Some(1), true),
        refresh_node_runtime_menu_label("A", None, false),
    ] {
        for sub in &m.menus {
            for e in &sub.entries {
                let leaves: Vec<&MenuLeaf> = match e {
                    MenuEntry::Leaf(l) => vec![l],
                    MenuEntry::Submenu { items, .. } => items.iter().collect(),
                };
                for l in leaves {
                    if let MenuLeaf::Item { id, .. } = l {
                        assert!(!matches!(handle_menu_event(id), MenuCommand::Nothing), "{}", id);
                    }
                }
            }
        }
    }
}

#[test]
fn child_poll_assessment() {
    let a = assess_child(ChildPoll::StillRunning);
    assert!(a.running && !a.forget);
    let a = assess_child(ChildPoll::Exited);
    assert!(!a.running && a.forget);
    let a = assess_child(ChildPoll::QueryFailed);
    assert!(!a.running && !a.forget);
    let a = assess_child(ChildPoll::NoChild);
    assert!(!a.running && !a.forget);
}

fn server_action_text(a: &ServerAction) -> String {
    match a {
        ServerAction::Log(m) => format!("log {}", m),
        ServerAction::PollServer => "poll".into(),
        ServerAction::LocateNode => "locate-node".into(),
        ServerAction::WriteServerEntry => "write-entry".into(),
        ServerAction::ProbePort(p) => format!("probe {}", p),
        ServerAction::ReadPid => "read-pid".into(),
        ServerAction::KillPid(p) => format!("kill {}", p),
        ServerAction::ClearPid => "clear-pid".into(),
        ServerAction::Spawn { node_path, entry, port } => format!("spawn {} {} {}", node_path, entry, port),
        ServerAction::WritePid(p) => format!("write-pid {}", p),
        ServerAction::RefreshMenu { shown_port, running } => format!("menu {:?} {}", shown_port, running),
        ServerAction::KeepChild => "keep-child".into(),
        ServerAction::KillChild => "kill-child".into(),
        ServerAction::StopServer => "stop-server".into(),
        ServerAction::LocateRoot => "locate-root".into(),
        ServerAction::RemoveRoot => "remove-root".into(),
        ServerAction::StartServer => "start-server".into(),
        ServerAction::ReportStatus => "report".into(),
        ServerAction::Finish => "finish".into(),
        ServerAction::Fail(e) => format!("fail {}", e.message()),
    }
}

fn texts(v: &[ServerAction]) -> Vec<String> {
    v.iter().map(server_action_text).collect()
}

#[test]
fn start_reports_a_running_server() {
    let mut f = StartFlow::new(DEFAULT_SERVER_PORT);
    assert_eq!(texts(&f.step(ServerEvent::Start)), ["poll"]);
    assert_eq!(texts(&f.step(ServerEvent::Running(true))), ["log 服务器已在运行", "report"]);
    assert_eq!(f.phase(), StartPhase::Finished);
    assert!(f.step(ServerEvent::PortAvailable(true)).is_empty());
}

#[test]
fn start_without_node_fails() {
    let mut f = StartFlow::new(3179);
    f.step(ServerEvent::Start);
    assert_eq!(texts(&f.step(ServerEvent::Running(false))), ["locate-node"]);
    let acts = f.step(ServerEvent::NodeBinary { exists: false, path: "/n".into() });
    assert_eq!(texts(&acts), ["fail node runtime not installed"]);
    assert!(matches!(acts[0], ServerAction::Fail(RuntimeError::NotInstalled)));
}

#[test]
fn start_cleans_up_a_leftover_process_then_launches() {
    let mut f = StartFlow::new(3179);
    f.step(ServerEvent::Start);
    f.step(ServerEvent::Running(false));
    assert_eq!(texts(&f.step(ServerEvent::NodeBinary { exists: true, path: "/rt/bin/node".into() })), ["write-entry"]);
    assert_eq!(texts(&f.step(ServerEvent::EntryWritten { path: "/rt/server/server.mjs".into() })), ["probe 3179"]);
    assert_eq!(texts(&f.step(ServerEvent::PortAvailable(false))),
        ["log 端口 3179 已被占用：尝试清理遗留进程…", "read-pid"]);
    assert_eq!(texts(&f.step(ServerEvent::Pid(Some(77)))), ["kill 77"]);
    assert_eq!(texts(&f.step(ServerEvent::KillFailed("denied".into()))),
        ["log 按 PID 结束进程失败：77 (denied)", "clear-pid", "probe 3179"]);
    assert_eq!(texts(&f.step(ServerEvent::PortAvailable(true))),
        ["log 启动服务器：/rt/bin/node /rt/server/server.mjs --port 3179",
         "spawn /rt/bin/node /rt/server/server.mjs 3179"]);
    assert_eq!(texts(&f.step(ServerEvent::Spawned(4321))),
        ["write-pid 4321", "menu Some(3179) true", "keep-child", "report"]);
    assert_eq!(f.phase(), StartPhase::Finished);
}

#[test]
fn start_with_free_port_and_kill_success() {
    let mut f = StartFlow::new(3179);
    f.step(ServerEvent::Start);
    f.step(ServerEvent::Running(false));
    f.step(ServerEvent::NodeBinary { exists: true, path: "n".into() });
    f.step(ServerEvent::EntryWritten { path: "e".into() });
    assert_eq!(texts(&f.step(ServerEvent::PortAvailable(true))), ["probe 3179"]);
    assert_eq!(f.phase(), StartPhase::AwaitSecondPort);
    let mut g = StartFlow::new(3179);
    g.step(ServerEvent::Start);
    g.step(ServerEvent::Running(false));
    g.step(ServerEvent::NodeBinary { exists: true, path: "n".into() });
    g.step(ServerEvent::EntryWritten { path: "e".into() });
    g.step(ServerEvent::PortAvailable(false));
    g.step(ServerEvent::Pid(Some(5)));
    assert_eq!(texts(&g.step(ServerEvent::Killed)), ["log 已按 PID 结束进程：5", "clear-pid", "probe 3179"]);
    let mut h = StartFlow::new(3179);
    h.step(ServerEvent::Start);
    h.step(ServerEvent::Running(false));
    h.step(ServerEvent::NodeBinary { exists: true, path: "n".into() });
    h.step(ServerEvent::EntryWritten { path: "e".into() });
    h.step(ServerEvent::PortAvailable(false));
    assert_eq!(texts(&h.step(ServerEvent::Pid(None))), ["probe 3179"]);
}

#[test]
fn start_gives_up_on_busy_port() {
    let mut f = StartFlow::new(3179);
    f.step(ServerEvent::Start);
    f.step(ServerEvent::Running(false));
    f.step(ServerEvent::NodeBinary { exists: true, path: "n".into() });
    f.step(ServerEvent::EntryWritten { path: "e".into() });
    f.step(ServerEvent::PortAvailable(true));
    assert_eq!(texts(&f.step(ServerEvent::PortAvailable(false))),
        ["log 端口 3179 仍被占用，启动取消", "fail port 3179 is already in use"]);
}

#[test]
fn start_passes_spawn_failure_on() {
    let mut f = StartFlow::new(3179);
    f.step(ServerEvent::Start);
    f.step(ServerEvent::Running(false));
    f.step(ServerEvent::NodeBinary { exists: true, path: "n".into() });
    f.step(ServerEvent::EntryWritten { path: "e".into() });
    f.step(ServerEvent::PortAvailable(true));
    f.step(ServerEvent::PortAvailable(true));
    let acts = f.step(ServerEvent::Failed(RuntimeError::Io { message: "no such file".into() }));
    assert_eq!(texts(&acts), ["fail no such file"]);
}

#[test]
fn stop_kills_and_cleans_up() {
    let stopped = "log 已停止（如仍可访问 /health，通常是历史遗留进程占用端口）";
    let mut f = StopFlow::new();
    assert_eq!(texts(&f.step(ServerEvent::Start)), ["log 停止服务器…", "kill-child", "read-pid"]);
    assert_eq!(texts(&f.step(ServerEvent::Pid(Some(9)))), ["kill 9"]);
    assert_eq!(texts(&f.step(ServerEvent::Killed)),
        ["log 已按 PID 结束进程：9", "clear-pid", "menu None false", stopped, "report"]);
    let mut g = StopFlow::new();
    g.step(ServerEvent::Start);
    assert_eq!(texts(&g.step(ServerEvent::Pid(None))), ["clear-pid", "menu None false", stopped, "report"]);
}

#[test]
fn uninstall_removes_the_root() {
    let mut f = UninstallFlow::new();
    assert_eq!(texts(&f.step(ServerEvent::Start)), ["log Uninstall: stopping service (best-effort)...", "stop-server"]);
    assert_eq!(texts(&f.step(ServerEvent::Done)), ["locate-root"]);
    assert_eq!(texts(&f.step(ServerEvent::Root { exists: true, path: "/data/node-runtime".into() })),
        ["log Uninstall: removing /data/node-runtime", "remove-root"]);
    assert_eq!(texts(&f.step(ServerEvent::Done)), ["log Uninstall: done", "report"]);
    let mut g = UninstallFlow::new();
    g.step(ServerEvent::Start);
    g.step(ServerEvent::Done);
    assert_eq!(texts(&g.step(ServerEvent::Root { exists: false, path: "/x".into() })),
        ["log Uninstall: nothing to remove", "report"]);
}

#[test]
fn auto_start_decisions() {
    let mut f = AutoStartFlow::new();
    assert_eq!(texts(&f.step(ServerEvent::Start)), ["locate-node"]);
    assert_eq!(texts(&f.step(ServerEvent::NodeBinary { exists: false, path: "n".into() })),
        ["log 应用启动：未安装私有 Node，跳过自动启动（请先安装 Node）", "finish"]);
    let mut g = AutoStartFlow::new();
    g.step(ServerEvent::Start);
    assert_eq!(texts(&g.step(ServerEvent::NodeBinary { exists: true, path: "n".into() })), ["poll"]);
    assert_eq!(texts(&g.step(ServerEvent::Running(true))), ["log 应用启动：服务已在运行，跳过自动启动", "finish"]);
    let mut h = AutoStartFlow::new();
    h.step(ServerEvent::Start);
    h.step(ServerEvent::NodeBinary { exists: true, path: "n".into() });
    assert_eq!(texts(&h.step(ServerEvent::Running(false))), ["log 应用启动：自动启动服务…", "start-server"]);
}

fn install_text(a: &InstallAction) -> String {
    match a {
        InstallAction::Log(m) => format!("log {}", m),
        InstallAction::PrepareDownloads => "prepare".into(),
        InstallAction::Fetch(u) => format!("fetch {}", u),
        InstallAction::CreateArchive => "create".into(),
        InstallAction::ReadChunk => "read".into(),
        InstallAction::WriteChunk => "write".into(),
        InstallAction::Progress(p) => format!("progress {} {:?}", p.downloaded, p.total),
        InstallAction::FlushArchive => "flush".into(),
        InstallAction::FetchChecksums(u) => format!("checksums {}", u),
        InstallAction::HashArchive => "hash".into(),
        InstallAction::RemoveArchive => "remove-archive".into(),
        InstallAction::ResetInstallDir => "reset".into(),
        InstallAction::Extract(k) => format!("extract {:?}", k),
        InstallAction::LocateNode => "locate-node".into(),
        InstallAction::QueryVersion => "version".into(),
        InstallAction::Finish(s) => format!("finish {} {:?} {:?} {} {}", s.installed, s.node_path, s.version, s.server_running, s.server_port),
        InstallAction::Fail(e) => format!("fail {}", e.message()),
    }
}

fn itexts(v: &[InstallAction]) -> Vec<String> {
    v.iter().map(install_text).collect()
}

fn sha_of(data: &[u8]) -> String {
    let mut h = ArchiveHasher::new();
    h.update(data);
    h.finish_hex()
}

fn downloaded_flow() -> InstallFlow {
    let mut f = InstallFlow::new(node_artifact("linux", "x86_64").ok().unwrap());
    assert_eq!(itexts(&f.step(InstallEvent::Start)), ["log Download Node v20.18.1 (linux-x64)", "prepare"]);
    assert_eq!(itexts(&f.step(InstallEvent::Done)),
        ["fetch https://nodejs.org/dist/v20.18.1/node-v20.18.1-linux-x64.tar.xz"]);
    assert_eq!(itexts(&f.step(InstallEvent::Response { total: Some(5) })),
        ["log Downloading: https://nodejs.org/dist/v20.18.1/node-v20.18.1-linux-x64.tar.xz (5 bytes)", "create"]);
    assert_eq!(itexts(&f.step(InstallEvent::Done)), ["read"]);
    assert_eq!(itexts(&f.step(InstallEvent::Chunk { len: 3 })), ["write"]);
    assert_eq!(itexts(&f.step(InstallEvent::Done)), ["progress 3 Some(5)", "read"]);
    f.step(InstallEvent::Chunk { len: 2 });
    assert_eq!(itexts(&f.step(InstallEvent::Done)), ["progress 5 Some(5)", "read"]);
    assert_eq!(itexts(&f.step(InstallEvent::EndOfBody)), ["flush"]);
    assert_eq!(itexts(&f.step(InstallEvent::Done)),
        ["log Download done: 5 bytes", "log Resolve SHA256 from SHASUMS256.txt…",
         "checksums https://nodejs.org/dist/v20.18.1/SHASUMS256.txt"]);
    f
}

#[test]
fn install_happy_path() {
    let sha = sha_of(b"hello");
    let mut f = downloaded_flow();
    let list = format!("0000  node-v20.18.1-darwin-x64.tar.gz\n{}  node-v20.18.1-linux-x64.tar.xz\n", sha.to_uppercase());
    assert_eq!(itexts(&f.step(InstallEvent::ChecksumList(list))),
        [format!("log Verify SHA256… expected={}", sha.to_uppercase()), "hash".to_string()]);
    assert_eq!(itexts(&f.step(InstallEvent::ArchiveHash(sha.clone()))), ["log SHA256 OK", "reset"]);
    assert_eq!(itexts(&f.step(InstallEvent::Done)), ["log Extracting…", "extract TarXz"]);
    assert_eq!(itexts(&f.step(InstallEvent::Done)), ["log Extract done", "locate-node"]);
    assert_eq!(itexts(&f.step(InstallEvent::NodeBinary { exists: true, path: "/rt/bin/node".into() })), ["version"]);
    assert_eq!(itexts(&f.step(InstallEvent::Version(Some("v20.18.1".into())))),
        ["log Installed: v20.18.1 (/rt/bin/node)", "version"]);
    assert_eq!(itexts(&f.step(InstallEvent::Version(Some("v20.18.1".into())))),
        ["finish true Some(\"/rt/bin/node\") Some(\"v20.18.1\") false 3179"]);
    assert_eq!(f.phase(), InstallPhase::Finished);
}

#[test]
fn install_rejects_corrupt_archive() {
    let mut f = downloaded_flow();
    f.step(InstallEvent::ChecksumList("abcd  node-v20.18.1-linux-x64.tar.xz\n".into()));
    let acts = f.step(InstallEvent::ArchiveHash("abce".into()));
    assert_eq!(itexts(&acts), ["remove-archive", "log SHA256 mismatch, expected=abcd got=abce",
        "fail node archive sha256 mismatch: expected abcd, got abce"]);
    assert!(f.step(InstallEvent::Done).is_empty());
}

#[test]
fn install_without_published_checksum_fails() {
    let mut f = downloaded_flow();
    let acts = f.step(InstallEvent::ChecksumList("abcd  other.tar.xz\n".into()));
    assert_eq!(itexts(&acts), ["fail sha256 not found in SHASUMS256.txt for node-v20.18.1-linux-x64.tar.xz"]);
}

#[test]
fn install_fails_when_binary_missing_or_io_fails() {
    let mut f = downloaded_flow();
    f.step(InstallEvent::ChecksumList("abcd  node-v20.18.1-linux-x64.tar.xz".into()));
    f.step(InstallEvent::ArchiveHash("ABCD".into()));
    f.step(InstallEvent::Done);
    f.step(InstallEvent::Done);
    assert_eq!(itexts(&f.step(InstallEvent::NodeBinary { exists: false, path: "/rt/bin/node".into() })),
        ["fail node binary not found after extract: /rt/bin/node"]);
    let mut g = InstallFlow::new(node_artifact("windows", "x86_64").ok().unwrap());
    g.step(InstallEvent::Start);
    let acts = g.step(InstallEvent::Failed(RuntimeError::Io { message: "permission denied".into() }));
    assert_eq!(itexts(&acts), ["fail permission denied"]);
    assert!(g.step(InstallEvent::Done).is_empty());
}

#[test]
fn install_without_announced_size() {
    let mut f = InstallFlow::new(node_artifact("windows", "aarch64").ok().unwrap());
    f.step(InstallEvent::Start);
    f.step(InstallEvent::Done);
    assert_eq!(itexts(&f.step(InstallEvent::Response { total: None })),
        ["log Downloading: https://nodejs.org/dist/v20.18.1/node-v20.18.1-win-arm64.zip (unknown size)", "create"]);
    let _ = ArchiveKind::Zip;
}

/// A small stand-in for the application's side of the server flows.
#[derive(Clone, Debug, PartialEq)]
struct World {
    kept: Option<u32>,
    launched: Option<u32>,
    pid_file: Option<u32>,
    port_free: bool,
    next_pid: u32,
    menu: Option<(Option<u16>, bool)>,
}

fn perform(w: &mut World, a: &ServerAction) -> Option<ServerEvent> {
    match a {
        ServerAction::PollServer => Some(ServerEvent::Running(w.kept.is_some())),
        ServerAction::LocateNode => Some(ServerEvent::NodeBinary { exists: true, path: "/rt/node".into() }),
        ServerAction::WriteServerEntry => Some(ServerEvent::EntryWritten { path: "/rt/server.mjs".into() }),
        ServerAction::ProbePort(_) => Some(ServerEvent::PortAvailable(w.port_free)),
        ServerAction::ReadPid => Some(ServerEvent::Pid(w.pid_file)),
        ServerAction::KillPid(p) => {
            if w.kept == Some(*p) {
                w.kept = None;
            }
            Some(ServerEvent::Killed)
        }
        ServerAction::ClearPid => { w.pid_file = None; None }
        ServerAction::Spawn { .. } => { w.launched = Some(w.next_pid); Some(ServerEvent::Spawned(w.next_pid)) }
        ServerAction::WritePid(p) => { w.pid_file = Some(*p); None }
        ServerAction::RefreshMenu { shown_port, running } => { w.menu = Some((*shown_port, *running)); None }
        ServerAction::KeepChild => { w.kept = w.launched.take(); w.port_free = false; None }
        ServerAction::KillChild => { w.kept = None; None }
        _ => None,
    }
}

fn start_call(w: &mut World) -> Vec<String> {
    let mut f = StartFlow::new(3179);
    let mut ev = ServerEvent::Start;
    let mut all = Vec::new();
    loop {
        let acts = f.step(ev);
        let mut next = None;
        for a in &acts {
            if let Some(e) = perform(w, a) { next = Some(e); }
        }
        all.extend(texts(&acts));
        match next { Some(e) => ev = e, None => return all }
    }
}

fn stop_call(w: &mut World) -> Vec<String> {
    let mut f = StopFlow::new();
    let mut ev = ServerEvent::Start;
    let mut all = Vec::new();
    loop {
        let acts = f.step(ev);
        let mut next = None;
        for a in &acts {
            if let Some(e) = perform(w, a) { next = Some(e); }
        }
        all.extend(texts(&acts));
        match next { Some(e) => ev = e, None => return all }
    }
}

#[test]
fn start_twice_launches_once() {
    let mut w = World { kept: None, launched: None, pid_file: None, port_free: true, next_pid: 500, menu: None };
    let first = start_call(&mut w);
    assert!(first.iter().any(|a| a.starts_with("spawn")));
    assert_eq!(w.kept, Some(500));
    assert_eq!(w.pid_file, Some(500));
    let before = w.clone();
    let second = start_call(&mut w);
    assert_eq!(second, ["poll", "log 服务器已在运行", "report"]);
    assert_eq!(w, before);
}

#[test]
fn stop_twice_kills_once() {
    let mut w = World { kept: Some(500), launched: None, pid_file: Some(500), port_free: false, next_pid: 501, menu: None };
    let first = stop_call(&mut w);
    assert!(first.contains(&"kill 500".to_string()));
    assert_eq!((w.kept, w.pid_file, w.menu), (None, None, Some((None, false))));
    let before = w.clone();
    let second = stop_call(&mut w);
    assert!(!second.iter().any(|a| a.starts_with("kill ")));
    assert_eq!(w, before);
}

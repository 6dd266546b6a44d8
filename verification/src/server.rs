//! Decisions of the bundled server's life cycle: starting it (with clean-up of a process
//! left over from an earlier run), stopping it, starting it when the application
//! launches, and uninstalling the runtime. Each flow is a state machine: the application
//! performs the actions it asks for and answers with the outcome as the next event.
use vstd::prelude::*;
use crate::error::{RuntimeError, RuntimeErrorView};
use crate::text::{decimal, push_decimal};

verus! {

/// What a server flow asks the application to do. Only the last action of a step may
/// await an answer; logging, pid-file clearing, menu refreshes and the like do not.
pub enum ServerAction {
    /// Show a line in the runtime log.
    Log(String),
    /// Report whether the server process is alive (answer: `Running`).
    PollServer,
    /// Look for the node binary (answer: `NodeBinary`).
    LocateNode,
    /// Write the server script to its place (answer: `EntryWritten` or `Failed`).
    WriteServerEntry,
    /// Report whether the port can be bound (answer: `PortAvailable`).
    ProbePort(u16),
    /// Read the pid file (answer: `Pid`).
    ReadPid,
    /// Kill the process with this pid (answer: `Killed` or `KillFailed`).
    KillPid(u32),
    /// Remove the pid file.
    ClearPid,
    /// Launch `node_path entry --port port` in the server directory (answer: `Spawned` or `Failed`).
    Spawn { node_path: String, entry: String, port: u16 },
    /// Write this pid to the pid file.
    WritePid(u32),
    /// Rebuild the menu for the server's port and state.
    RefreshMenu { shown_port: Option<u16>, running: bool },
    /// Keep the launched process and forward its output to the log.
    KeepChild,
    /// Kill the kept server process, if any, and forget it.
    KillChild,
    /// Run the stop flow, whatever its outcome (answer: `Done`).
    StopServer,
    /// Look for the runtime's root directory (answer: `Root`).
    LocateRoot,
    /// Remove the runtime's root directory (answer: `Done` or `Failed`).
    RemoveRoot,
    /// Finish by running the start flow and returning its outcome.
    StartServer,
    /// Finish by reporting the runtime's status.
    ReportStatus,
    /// Finish successfully with nothing to report.
    Finish,
    /// Finish with this error.
    Fail(RuntimeError),
}

/// The value of a [`ServerAction`].
pub enum ServerActionView {
    Log(Seq<char>),
    PollServer,
    LocateNode,
    WriteServerEntry,
    ProbePort(u16),
    ReadPid,
    KillPid(u32),
    ClearPid,
    Spawn { node_path: Seq<char>, entry: Seq<char>, port: u16 },
    WritePid(u32),
    RefreshMenu { shown_port: Option<u16>, running: bool },
    KeepChild,
    KillChild,
    StopServer,
    LocateRoot,
    RemoveRoot,
    StartServer,
    ReportStatus,
    Finish,
    Fail(RuntimeErrorView),
}

impl View for ServerAction {
    type V = ServerActionView;

    open spec fn view(&self) -> ServerActionView {
        match self {
            ServerAction::Log(m) => ServerActionView::Log(m@),
            ServerAction::PollServer => ServerActionView::PollServer,
            ServerAction::LocateNode => ServerActionView::LocateNode,
            ServerAction::WriteServerEntry => ServerActionView::WriteServerEntry,
            ServerAction::ProbePort(p) => ServerActionView::ProbePort(*p),
            ServerAction::ReadPid => ServerActionView::ReadPid,
            ServerAction::KillPid(p) => ServerActionView::KillPid(*p),
            ServerAction::ClearPid => ServerActionView::ClearPid,
            ServerAction::Spawn { node_path, entry, port } => ServerActionView::Spawn {
                node_path: node_path@,
                entry: entry@,
                port: *port,
            },
            ServerAction::WritePid(p) => ServerActionView::WritePid(*p),
            ServerAction::RefreshMenu { shown_port, running } => ServerActionView::RefreshMenu {
                shown_port: *shown_port,
                running: *running,
            },
            ServerAction::KeepChild => ServerActionView::KeepChild,
            ServerAction::KillChild => ServerActionView::KillChild,
            ServerAction::StopServer => ServerActionView::StopServer,
            ServerAction::LocateRoot => ServerActionView::LocateRoot,
            ServerAction::RemoveRoot => ServerActionView::RemoveRoot,
            ServerAction::StartServer => ServerActionView::StartServer,
            ServerAction::ReportStatus => ServerActionView::ReportStatus,
            ServerAction::Finish => ServerActionView::Finish,
            ServerAction::Fail(e) => ServerActionView::Fail(e@),
        }
    }
}

/// The values of a list of actions.
pub open spec fn action_views(v: Seq<ServerAction>) -> Seq<ServerActionView> {
    v.map_values(|a: ServerAction| a@)
}

/// What the application reports back after performing an action.
pub enum ServerEvent {
    /// The flow begins.
    Start,
    /// The action was carried out.
    Done,
    Running(bool),
    NodeBinary { exists: bool, path: String },
    EntryWritten { path: String },
    PortAvailable(bool),
    Pid(Option<u32>),
    Killed,
    KillFailed(String),
    Spawned(u32),
    Root { exists: bool, path: String },
    /// The action failed with this error.
    Failed(RuntimeError),
}

/// The value of a [`ServerEvent`].
pub enum ServerEventView {
    Start,
    Done,
    Running(bool),
    NodeBinary { exists: bool, path: Seq<char> },
    EntryWritten { path: Seq<char> },
    PortAvailable(bool),
    Pid(Option<u32>),
    Killed,
    KillFailed(Seq<char>),
    Spawned(u32),
    Root { exists: bool, path: Seq<char> },
    Failed(RuntimeErrorView),
}

impl View for ServerEvent {
    type V = ServerEventView;

    open spec fn view(&self) -> ServerEventView {
        match self {
            ServerEvent::Start => ServerEventView::Start,
            ServerEvent::Done => ServerEventView::Done,
            ServerEvent::Running(b) => ServerEventView::Running(*b),
            ServerEvent::NodeBinary { exists, path } => ServerEventView::NodeBinary {
                exists: *exists,
                path: path@,
            },
            ServerEvent::EntryWritten { path } => ServerEventView::EntryWritten { path: path@ },
            ServerEvent::PortAvailable(b) => ServerEventView::PortAvailable(*b),
            ServerEvent::Pid(p) => ServerEventView::Pid(*p),
            ServerEvent::Killed => ServerEventView::Killed,
            ServerEvent::KillFailed(m) => ServerEventView::KillFailed(m@),
            ServerEvent::Spawned(p) => ServerEventView::Spawned(*p),
            ServerEvent::Root { exists, path } => ServerEventView::Root {
                exists: *exists,
                path: path@,
            },
            ServerEvent::Failed(e) => ServerEventView::Failed(e@),
        }
    }
}

/// Whether the action ends its flow.
pub open spec fn is_terminal(a: ServerActionView) -> bool {
    ||| a is StartServer
    ||| a is ReportStatus
    ||| a is Finish
    ||| a is Fail
}

/// Whether the application answers the action with an event.
pub open spec fn awaits_answer(a: ServerActionView) -> bool {
    ||| a is PollServer
    ||| a is LocateNode
    ||| a is WriteServerEntry
    ||| a is ProbePort
    ||| a is ReadPid
    ||| a is KillPid
    ||| a is Spawn
    ||| a is StopServer
    ||| a is LocateRoot
    ||| a is RemoveRoot
}

/// The actions of one step are well formed: they end with one action that awaits an answer
/// or ends the flow, and no other action does either.
pub open spec fn well_formed_step(acts: Seq<ServerActionView>) -> bool {
    &&& acts.len() > 0
    &&& awaits_answer(acts.last()) || is_terminal(acts.last())
    &&& forall|i: int|
        0 <= i < acts.len() - 1 ==> !awaits_answer(#[trigger] acts[i]) && !is_terminal(acts[i])
}

// ---------------------------------------------------------------------------------------
// Log lines
// ---------------------------------------------------------------------------------------

/// Log line when the port is taken at the first check.
pub open spec fn port_busy_text(port: u16) -> Seq<char> {
    "端口 "@ + decimal(port as nat) + " 已被占用：尝试清理遗留进程…"@
}

/// Log line after the leftover process was killed.
pub open spec fn killed_text(pid: u32) -> Seq<char> {
    "已按 PID 结束进程："@ + decimal(pid as nat)
}

/// Log line when killing the leftover process failed.
pub open spec fn kill_failed_text(pid: u32, err: Seq<char>) -> Seq<char> {
    "按 PID 结束进程失败："@ + decimal(pid as nat) + " ("@ + err + ")"@
}

/// Log line when the port is still taken and the start is given up.
pub open spec fn port_still_busy_text(port: u16) -> Seq<char> {
    "端口 "@ + decimal(port as nat) + " 仍被占用，启动取消"@
}

/// Log line announcing the server's command line.
pub open spec fn launch_text(node: Seq<char>, entry: Seq<char>, port: u16) -> Seq<char> {
    "启动服务器："@ + node + " "@ + entry + " --port "@ + decimal(port as nat)
}

fn log_lit(m: &str) -> (r: ServerAction)
    ensures
        r@ == ServerActionView::Log(m@),
{
    ServerAction::Log(String::from_str(m))
}

fn port_busy_log(port: u16) -> (r: ServerAction)
    ensures
        r@ == ServerActionView::Log(port_busy_text(port)),
{
    let mut m = String::from_str("端口 ");
    push_decimal(&mut m, port as u64);
    m.append(" 已被占用：尝试清理遗留进程…");
    ServerAction::Log(m)
}

fn killed_log(pid: u32) -> (r: ServerAction)
    ensures
        r@ == ServerActionView::Log(killed_text(pid)),
{
    let mut m = String::from_str("已按 PID 结束进程：");
    push_decimal(&mut m, pid as u64);
    ServerAction::Log(m)
}

fn kill_failed_log(pid: u32, err: &str) -> (r: ServerAction)
    ensures
        r@ == ServerActionView::Log(kill_failed_text(pid, err@)),
{
    let mut m = String::from_str("按 PID 结束进程失败：");
    push_decimal(&mut m, pid as u64);
    m.append(" (");
    m.append(err);
    m.append(")");
    ServerAction::Log(m)
}

fn port_still_busy_log(port: u16) -> (r: ServerAction)
    ensures
        r@ == ServerActionView::Log(port_still_busy_text(port)),
{
    let mut m = String::from_str("端口 ");
    push_decimal(&mut m, port as u64);
    m.append(" 仍被占用，启动取消");
    ServerAction::Log(m)
}

fn launch_log(node: &str, entry: &str, port: u16) -> (r: ServerAction)
    ensures
        r@ == ServerActionView::Log(launch_text(node@, entry@, port)),
{
    let mut m = String::from_str("启动服务器：");
    m.append(node);
    m.append(" ");
    m.append(entry);
    m.append(" --port ");
    push_decimal(&mut m, port as u64);
    ServerAction::Log(m)
}

// ---------------------------------------------------------------------------------------
// Polling the kept server process
// ---------------------------------------------------------------------------------------

/// What asking the kept server process for its exit status gave.
#[derive(Clone, Copy, PartialEq, Eq, Structural, Debug)]
pub enum ChildPoll {
    /// No process is kept.
    NoChild,
    /// The process has exited.
    Exited,
    /// The process is still running.
    StillRunning,
    /// The status could not be queried.
    QueryFailed,
}

/// Whether the server runs, and whether the kept process is to be forgotten.
#[derive(Clone, Copy, PartialEq, Eq, Structural, Debug)]
pub struct ChildAssessment {
    pub running: bool,
    pub forget: bool,
}

/// The server runs only while its process is kept and has not exited; an exited process
/// is forgotten, one whose status cannot be queried is kept but counted as not running.
pub fn assess_child(poll: ChildPoll) -> (r: ChildAssessment)
    ensures
        r.running == (poll == ChildPoll::StillRunning),
        r.forget == (poll == ChildPoll::Exited),
{
    match poll {
        ChildPoll::NoChild => ChildAssessment { running: false, forget: false },
        ChildPoll::Exited => ChildAssessment { running: false, forget: true },
        ChildPoll::StillRunning => ChildAssessment { running: true, forget: false },
        ChildPoll::QueryFailed => ChildAssessment { running: false, forget: false },
    }
}


// ---------------------------------------------------------------------------------------
// Starting the server
// ---------------------------------------------------------------------------------------

/// Where the start flow stands: what it waits for.
#[derive(Clone, Copy, PartialEq, Eq, Structural, Debug)]
pub enum StartPhase {
    Begin,
    AwaitRunning,
    AwaitNode,
    AwaitEntry,
    AwaitFirstPort,
    AwaitPid,
    AwaitKill(u32),
    AwaitSecondPort,
    AwaitSpawn,
    Finished,
}

/// The flow that starts the server on `port`.
pub struct StartFlow {
    phase: StartPhase,
    port: u16,
    node_path: String,
    entry: String,
}

/// The value of a [`StartFlow`]: its phase, port, and the node binary and server script
/// found so far.
pub struct StartFlowView {
    pub phase: StartPhase,
    pub port: u16,
    pub node_path: Seq<char>,
    pub entry: Seq<char>,
}

impl View for StartFlow {
    type V = StartFlowView;

    closed spec fn view(&self) -> StartFlowView {
        StartFlowView {
            phase: self.phase,
            port: self.port,
            node_path: self.node_path@,
            entry: self.entry@,
        }
    }
}

/// `s` in phase `p`.
pub open spec fn start_in(s: StartFlowView, p: StartPhase) -> StartFlowView {
    StartFlowView { phase: p, ..s }
}

/// One step of the start flow: the next state and the actions for event `ev`. An event
/// that the phase does not wait for changes nothing and asks for nothing.
pub open spec fn start_step(s: StartFlowView, ev: ServerEventView) -> (StartFlowView, Seq<
    ServerActionView,
>) {
    match (s.phase, ev) {
        (StartPhase::Begin, ServerEventView::Start) => (
            start_in(s, StartPhase::AwaitRunning),
            seq![ServerActionView::PollServer],
        ),
        (StartPhase::AwaitRunning, ServerEventView::Running(running)) => if running {
            (
                start_in(s, StartPhase::Finished),
                seq![ServerActionView::Log("服务器已在运行"@), ServerActionView::ReportStatus],
            )
        } else {
            (start_in(s, StartPhase::AwaitNode), seq![ServerActionView::LocateNode])
        },
        (StartPhase::AwaitNode, ServerEventView::NodeBinary { exists, path }) => if exists {
            (
                StartFlowView { phase: StartPhase::AwaitEntry, node_path: path, ..s },
                seq![ServerActionView::WriteServerEntry],
            )
        } else {
            (
                start_in(s, StartPhase::Finished),
                seq![ServerActionView::Fail(RuntimeErrorView::NotInstalled)],
            )
        },
        (StartPhase::AwaitNode, ServerEventView::Failed(e)) => (
            start_in(s, StartPhase::Finished),
            seq![ServerActionView::Fail(e)],
        ),
        (StartPhase::AwaitEntry, ServerEventView::EntryWritten { path }) => (
            StartFlowView { phase: StartPhase::AwaitFirstPort, entry: path, ..s },
            seq![ServerActionView::ProbePort(s.port)],
        ),
        (StartPhase::AwaitEntry, ServerEventView::Failed(e)) => (
            start_in(s, StartPhase::Finished),
            seq![ServerActionView::Fail(e)],
        ),
        (StartPhase::AwaitFirstPort, ServerEventView::PortAvailable(free)) => if free {
            (start_in(s, StartPhase::AwaitSecondPort), seq![ServerActionView::ProbePort(s.port)])
        } else {
            (
                start_in(s, StartPhase::AwaitPid),
                seq![
                    ServerActionView::Log(port_busy_text(s.port)),
                    ServerActionView::ReadPid,
                ],
            )
        },
        (StartPhase::AwaitPid, ServerEventView::Pid(pid)) => match pid {
            Some(p) => (start_in(s, StartPhase::AwaitKill(p)), seq![ServerActionView::KillPid(p)]),
            None => (
                start_in(s, StartPhase::AwaitSecondPort),
                seq![ServerActionView::ProbePort(s.port)],
            ),
        },
        (StartPhase::AwaitKill(p), ServerEventView::Killed) => (
            start_in(s, StartPhase::AwaitSecondPort),
            seq![
                ServerActionView::Log(killed_text(p)),
                ServerActionView::ClearPid,
                ServerActionView::ProbePort(s.port),
            ],
        ),
        (StartPhase::AwaitKill(p), ServerEventView::KillFailed(m)) => (
            start_in(s, StartPhase::AwaitSecondPort),
            seq![
                ServerActionView::Log(kill_failed_text(p, m)),
                ServerActionView::ClearPid,
                ServerActionView::ProbePort(s.port),
            ],
        ),
        (StartPhase::AwaitSecondPort, ServerEventView::PortAvailable(free)) => if free {
            (
                start_in(s, StartPhase::AwaitSpawn),
                seq![
                    ServerActionView::Log(launch_text(s.node_path, s.entry, s.port)),
                    ServerActionView::Spawn { node_path: s.node_path, entry: s.entry, port: s.port },
                ],
            )
        } else {
            (
                start_in(s, StartPhase::Finished),
                seq![
                    ServerActionView::Log(port_still_busy_text(s.port)),
                    ServerActionView::Fail(RuntimeErrorView::PortInUse { port: s.port }),
                ],
            )
        },
        (StartPhase::AwaitSpawn, ServerEventView::Spawned(pid)) => (
            start_in(s, StartPhase::Finished),
            seq![
                ServerActionView::WritePid(pid),
                ServerActionView::RefreshMenu { shown_port: Some(s.port), running: true },
                ServerActionView::KeepChild,
                ServerActionView::ReportStatus,
            ],
        ),
        (StartPhase::AwaitSpawn, ServerEventView::Failed(e)) => (
            start_in(s, StartPhase::Finished),
            seq![ServerActionView::Fail(e)],
        ),
        _ => (s, seq![]),
    }
}

impl StartFlow {
    /// A start flow for the server on `port`, not yet begun.
    pub fn new(port: u16) -> (r: StartFlow)
        ensures
            r@.phase == StartPhase::Begin,
            r@.port == port,
    {
        StartFlow { phase: StartPhase::Begin, port, node_path: String::new(), entry: String::new() }
    }

    /// The flow's phase.
    pub fn phase(&self) -> (r: StartPhase)
        ensures
            r == self@.phase,
    {
        self.phase
    }

    /// Takes the answer `ev` and gives the actions to perform next.
    pub fn step(&mut self, ev: ServerEvent) -> (r: Vec<ServerAction>)
        ensures
            final(self)@ == start_step(old(self)@, ev@).0,
            action_views(r@) == start_step(old(self)@, ev@).1,
    {
        let mut acts: Vec<ServerAction> = Vec::new();
        let port = self.port;
        match (self.phase, ev) {
            (StartPhase::Begin, ServerEvent::Start) => {
                self.phase = StartPhase::AwaitRunning;
                acts.push(ServerAction::PollServer);
            },
            (StartPhase::AwaitRunning, ServerEvent::Running(running)) => {
                if running {
                    self.phase = StartPhase::Finished;
                    acts.push(log_lit("服务器已在运行"));
                    acts.push(ServerAction::ReportStatus);
                } else {
                    self.phase = StartPhase::AwaitNode;
                    acts.push(ServerAction::LocateNode);
                }
            },
            (StartPhase::AwaitNode, ServerEvent::NodeBinary { exists, path }) => {
                if exists {
                    self.phase = StartPhase::AwaitEntry;
                    self.node_path = path;
                    acts.push(ServerAction::WriteServerEntry);
                } else {
                    self.phase = StartPhase::Finished;
                    acts.push(ServerAction::Fail(RuntimeError::NotInstalled));
                }
            },
            (StartPhase::AwaitNode, ServerEvent::Failed(e)) => {
                self.phase = StartPhase::Finished;
                acts.push(ServerAction::Fail(e));
            },
            (StartPhase::AwaitEntry, ServerEvent::EntryWritten { path }) => {
                self.phase = StartPhase::AwaitFirstPort;
                self.entry = path;
                acts.push(ServerAction::ProbePort(port));
            },
            (StartPhase::AwaitEntry, ServerEvent::Failed(e)) => {
                self.phase = StartPhase::Finished;
                acts.push(ServerAction::Fail(e));
            },
            (StartPhase::AwaitFirstPort, ServerEvent::PortAvailable(free)) => {
                if free {
                    self.phase = StartPhase::AwaitSecondPort;
                    acts.push(ServerAction::ProbePort(port));
                } else {
                    self.phase = StartPhase::AwaitPid;
                    acts.push(port_busy_log(port));
                    acts.push(ServerAction::ReadPid);
                }
            },
            (StartPhase::AwaitPid, ServerEvent::Pid(pid)) => {
                match pid {
                    Some(p) => {
                        self.phase = StartPhase::AwaitKill(p);
                        acts.push(ServerAction::KillPid(p));
                    },
                    None => {
                        self.phase = StartPhase::AwaitSecondPort;
                        acts.push(ServerAction::ProbePort(port));
                    },
                }
            },
            (StartPhase::AwaitKill(p), ServerEvent::Killed) => {
                self.phase = StartPhase::AwaitSecondPort;
                acts.push(killed_log(p));
                acts.push(ServerAction::ClearPid);
                acts.push(ServerAction::ProbePort(port));
            },
            (StartPhase::AwaitKill(p), ServerEvent::KillFailed(m)) => {
                self.phase = StartPhase::AwaitSecondPort;
                acts.push(kill_failed_log(p, m.as_str()));
                acts.push(ServerAction::ClearPid);
                acts.push(ServerAction::ProbePort(port));
            },
            (StartPhase::AwaitSecondPort, ServerEvent::PortAvailable(free)) => {
                if free {
                    self.phase = StartPhase::AwaitSpawn;
                    acts.push(launch_log(self.node_path.as_str(), self.entry.as_str(), port));
                    acts.push(
                        ServerAction::Spawn {
                            node_path: self.node_path.clone(),
                            entry: self.entry.clone(),
                            port,
                        },
                    );
                } else {
                    self.phase = StartPhase::Finished;
                    acts.push(port_still_busy_log(port));
                    acts.push(ServerAction::Fail(RuntimeError::PortInUse { port }));
                }
            },
            (StartPhase::AwaitSpawn, ServerEvent::Spawned(pid)) => {
                self.phase = StartPhase::Finished;
                acts.push(ServerAction::WritePid(pid));
                acts.push(ServerAction::RefreshMenu { shown_port: Some(port), running: true });
                acts.push(ServerAction::KeepChild);
                acts.push(ServerAction::ReportStatus);
            },
            (StartPhase::AwaitSpawn, ServerEvent::Failed(e)) => {
                self.phase = StartPhase::Finished;
                acts.push(ServerAction::Fail(e));
            },
            _ => {},
        }
        acts
    }
}


/// The start flow from `s` through the events `evs`: the final state and all actions.
pub open spec fn start_run(s: StartFlowView, evs: Seq<ServerEventView>) -> (StartFlowView, Seq<
    ServerActionView,
>)
    decreases evs.len(),
{
    if evs.len() == 0 {
        (s, seq![])
    } else {
        let (s1, a1) = start_step(s, evs[0]);
        let (s2, a2) = start_run(s1, evs.drop_first());
        (s2, a1 + a2)
    }
}

/// Whether `acts` launches the server.
pub open spec fn launches(acts: Seq<ServerActionView>) -> bool {
    exists|i: int| 0 <= i < acts.len() && (#[trigger] acts[i]) is Spawn
}

proof fn lemma_start_finished_absorbs(s: StartFlowView, evs: Seq<ServerEventView>)
    requires
        s.phase == StartPhase::Finished,
    ensures
        start_run(s, evs) == (s, Seq::<ServerActionView>::empty()),
    decreases evs.len(),
{
    if evs.len() > 0 {
        lemma_start_finished_absorbs(s, evs.drop_first());
        assert(start_step(s, evs[0]).1 =~= Seq::<ServerActionView>::empty());
    }
}

/// Every step of the start flow either ignores its event, changing nothing, or asks for
/// a well-formed list of actions.
pub proof fn law_start_steps_well_formed(s: StartFlowView, ev: ServerEventView)
    ensures
        start_step(s, ev).1.len() == 0 ==> start_step(s, ev).0 == s,
        start_step(s, ev).1.len() > 0 ==> well_formed_step(start_step(s, ev).1),
{
}

/// Once the start flow has finished, no event makes it do anything.
pub proof fn law_start_finished_is_final(s: StartFlowView, evs: Seq<ServerEventView>)
    requires
        s.phase == StartPhase::Finished,
    ensures
        start_run(s, evs).1.len() == 0,
        start_run(s, evs).0 == s,
{
    lemma_start_finished_absorbs(s, evs);
}

/// The server is launched only when the last port check found the port free, with the
/// node binary and server script that were found.
pub proof fn law_start_launches_only_on_free_port(s: StartFlowView, ev: ServerEventView)
    ensures
        launches(start_step(s, ev).1) ==> s.phase == StartPhase::AwaitSecondPort && ev
            == ServerEventView::PortAvailable(true) && start_step(s, ev).1.last()
            == (ServerActionView::Spawn { node_path: s.node_path, entry: s.entry, port: s.port }),
{
}

/// A server that is already running is reported, not started again, whatever follows.
pub proof fn law_start_keeps_running_server(s: StartFlowView, evs: Seq<ServerEventView>)
    requires
        s.phase == StartPhase::AwaitRunning,
    ensures
        start_run(s, seq![ServerEventView::Running(true)] + evs).1 == seq![
            ServerActionView::Log("服务器已在运行"@),
            ServerActionView::ReportStatus,
        ],
{
    let all = seq![ServerEventView::Running(true)] + evs;
    assert(all.drop_first() =~= evs);
    lemma_start_finished_absorbs(start_step(s, all[0]).0, evs);
}

/// Without an installed node binary the start fails as not installed, and nothing else
/// happens.
pub proof fn law_start_needs_installed_node(
    s: StartFlowView,
    path: Seq<char>,
    evs: Seq<ServerEventView>,
)
    requires
        s.phase == StartPhase::AwaitNode,
    ensures
        start_run(s, seq![ServerEventView::NodeBinary { exists: false, path }] + evs).1 == seq![
            ServerActionView::Fail(RuntimeErrorView::NotInstalled),
        ],
{
    let all = seq![ServerEventView::NodeBinary { exists: false, path }] + evs;
    assert(all.drop_first() =~= evs);
    lemma_start_finished_absorbs(start_step(s, all[0]).0, evs);
}

/// A port that is still taken at the last check cancels the start with a port error, and
/// nothing else happens.
pub proof fn law_start_gives_up_on_busy_port(s: StartFlowView, evs: Seq<ServerEventView>)
    requires
        s.phase == StartPhase::AwaitSecondPort,
    ensures
        start_run(s, seq![ServerEventView::PortAvailable(false)] + evs).1 == seq![
            ServerActionView::Log(port_still_busy_text(s.port)),
            ServerActionView::Fail(RuntimeErrorView::PortInUse { port: s.port }),
        ],
{
    let all = seq![ServerEventView::PortAvailable(false)] + evs;
    assert(all.drop_first() =~= evs);
    lemma_start_finished_absorbs(start_step(s, all[0]).0, evs);
}


// ---------------------------------------------------------------------------------------
// Stopping the server
// ---------------------------------------------------------------------------------------

/// Log line once the server is stopped.
pub open spec fn stopped_text() -> Seq<char> {
    "已停止（如仍可访问 /health，通常是历史遗留进程占用端口）"@
}

/// Where the stop flow stands.
#[derive(Clone, Copy, PartialEq, Eq, Structural, Debug)]
pub enum StopPhase {
    Begin,
    AwaitPid,
    AwaitKill(u32),
    Finished,
}

/// The closing actions of every stop: clear the pid file, show the menu of a stopped
/// server, log, and report the status.
pub open spec fn stop_tail() -> Seq<ServerActionView> {
    seq![
        ServerActionView::ClearPid,
        ServerActionView::RefreshMenu { shown_port: None, running: false },
        ServerActionView::Log(stopped_text()),
        ServerActionView::ReportStatus,
    ]
}

/// One step of the stop flow. The kept process is killed first; a process named in the
/// pid file (left over from an earlier run) is killed as well.
pub open spec fn stop_step(p: StopPhase, ev: ServerEventView) -> (StopPhase, Seq<ServerActionView>) {
    match (p, ev) {
        (StopPhase::Begin, ServerEventView::Start) => (
            StopPhase::AwaitPid,
            seq![
                ServerActionView::Log("停止服务器…"@),
                ServerActionView::KillChild,
                ServerActionView::ReadPid,
            ],
        ),
        (StopPhase::AwaitPid, ServerEventView::Pid(pid)) => match pid {
            Some(q) => (StopPhase::AwaitKill(q), seq![ServerActionView::KillPid(q)]),
            None => (StopPhase::Finished, stop_tail()),
        },
        (StopPhase::AwaitKill(q), ServerEventView::Killed) => (
            StopPhase::Finished,
            seq![ServerActionView::Log(killed_text(q))] + stop_tail(),
        ),
        (StopPhase::AwaitKill(q), ServerEventView::KillFailed(m)) => (
            StopPhase::Finished,
            seq![ServerActionView::Log(kill_failed_text(q, m))] + stop_tail(),
        ),
        _ => (p, seq![]),
    }
}

/// The flow that stops the server.
pub struct StopFlow {
    phase: StopPhase,
}

impl View for StopFlow {
    type V = StopPhase;

    closed spec fn view(&self) -> StopPhase {
        self.phase
    }
}

fn push_stop_tail(acts: &mut Vec<ServerAction>)
    ensures
        action_views(final(acts)@) == action_views(old(acts)@) + stop_tail(),
{
    let ghost before = acts@;
    acts.push(ServerAction::ClearPid);
    acts.push(ServerAction::RefreshMenu { shown_port: None, running: false });
    acts.push(log_lit("已停止（如仍可访问 /health，通常是历史遗留进程占用端口）"));
    acts.push(ServerAction::ReportStatus);
    assert(action_views(acts@) =~= action_views(before) + stop_tail());
}

impl StopFlow {
    /// A stop flow, not yet begun.
    pub fn new() -> (r: StopFlow)
        ensures
            r@ == StopPhase::Begin,
    {
        StopFlow { phase: StopPhase::Begin }
    }

    /// The flow's phase.
    pub fn phase(&self) -> (r: StopPhase)
        ensures
            r == self@,
    {
        self.phase
    }

    /// Takes the answer `ev` and gives the actions to perform next.
    pub fn step(&mut self, ev: ServerEvent) -> (r: Vec<ServerAction>)
        ensures
            final(self)@ == stop_step(old(self)@, ev@).0,
            action_views(r@) == stop_step(old(self)@, ev@).1,
    {
        let mut acts: Vec<ServerAction> = Vec::new();
        match (self.phase, ev) {
            (StopPhase::Begin, ServerEvent::Start) => {
                self.phase = StopPhase::AwaitPid;
                acts.push(log_lit("停止服务器…"));
                acts.push(ServerAction::KillChild);
                acts.push(ServerAction::ReadPid);
            },
            (StopPhase::AwaitPid, ServerEvent::Pid(pid)) => match pid {
                Some(q) => {
                    self.phase = StopPhase::AwaitKill(q);
                    acts.push(ServerAction::KillPid(q));
                },
                None => {
                    self.phase = StopPhase::Finished;
                    push_stop_tail(&mut acts);
                },
            },
            (StopPhase::AwaitKill(q), ServerEvent::Killed) => {
                self.phase = StopPhase::Finished;
                acts.push(killed_log(q));
                push_stop_tail(&mut acts);
            },
            (StopPhase::AwaitKill(q), ServerEvent::KillFailed(m)) => {
                self.phase = StopPhase::Finished;
                acts.push(kill_failed_log(q, m.as_str()));
                push_stop_tail(&mut acts);
            },
            _ => {},
        }
        acts
    }
}

/// Every step of the stop flow ignores its event or asks for well-formed actions, and a
/// step that finishes the flow ends it by clearing the pid file, showing the menu of a
/// stopped server and reporting the status, whatever the kill gave.
pub proof fn law_stop_always_cleans_up(p: StopPhase, ev: ServerEventView)
    ensures
        stop_step(p, ev).1.len() == 0 ==> stop_step(p, ev).0 == p,
        stop_step(p, ev).1.len() > 0 ==> well_formed_step(stop_step(p, ev).1),
        p != StopPhase::Finished && stop_step(p, ev).0 == StopPhase::Finished ==> {
            let acts = stop_step(p, ev).1;
            acts.len() >= 4 && acts.subrange(acts.len() - 4, acts.len() as int) == stop_tail()
        },
{
    let acts = stop_step(p, ev).1;
    if acts.len() >= 4 {
        assert(acts.subrange(acts.len() - 4, acts.len() as int) =~= stop_tail());
    }
}

// ---------------------------------------------------------------------------------------
// Uninstalling the runtime
// ---------------------------------------------------------------------------------------

/// Where the uninstall flow stands.
#[derive(Clone, Copy, PartialEq, Eq, Structural, Debug)]
pub enum UninstallPhase {
    Begin,
    AwaitStop,
    AwaitRoot,
    AwaitRemove,
    Finished,
}

/// One step of the uninstall flow: stop the server (whatever that gives), then remove the
/// runtime's root directory if there is one, then report the status.
pub open spec fn uninstall_step(p: UninstallPhase, ev: ServerEventView) -> (UninstallPhase, Seq<
    ServerActionView,
>) {
    match (p, ev) {
        (UninstallPhase::Begin, ServerEventView::Start) => (
            UninstallPhase::AwaitStop,
            seq![
                ServerActionView::Log("Uninstall: stopping service (best-effort)..."@),
                ServerActionView::StopServer,
            ],
        ),
        (UninstallPhase::AwaitStop, ServerEventView::Done) => (
            UninstallPhase::AwaitRoot,
            seq![ServerActionView::LocateRoot],
        ),
        (UninstallPhase::AwaitRoot, ServerEventView::Root { exists, path }) => if exists {
            (
                UninstallPhase::AwaitRemove,
                seq![
                    ServerActionView::Log("Uninstall: removing "@ + path),
                    ServerActionView::RemoveRoot,
                ],
            )
        } else {
            (
                UninstallPhase::Finished,
                seq![
                    ServerActionView::Log("Uninstall: nothing to remove"@),
                    ServerActionView::ReportStatus,
                ],
            )
        },
        (UninstallPhase::AwaitRoot, ServerEventView::Failed(e)) => (
            UninstallPhase::Finished,
            seq![ServerActionView::Fail(e)],
        ),
        (UninstallPhase::AwaitRemove, ServerEventView::Done) => (
            UninstallPhase::Finished,
            seq![ServerActionView::Log("Uninstall: done"@), ServerActionView::ReportStatus],
        ),
        (UninstallPhase::AwaitRemove, ServerEventView::Failed(e)) => (
            UninstallPhase::Finished,
            seq![ServerActionView::Fail(e)],
        ),
        _ => (p, seq![]),
    }
}

/// The flow that uninstalls the runtime.
pub struct UninstallFlow {
    phase: UninstallPhase,
}

impl View for UninstallFlow {
    type V = UninstallPhase;

    closed spec fn view(&self) -> UninstallPhase {
        self.phase
    }
}

impl UninstallFlow {
    /// An uninstall flow, not yet begun.
    pub fn new() -> (r: UninstallFlow)
        ensures
            r@ == UninstallPhase::Begin,
    {
        UninstallFlow { phase: UninstallPhase::Begin }
    }

    /// The flow's phase.
    pub fn phase(&self) -> (r: UninstallPhase)
        ensures
            r == self@,
    {
        self.phase
    }

    /// Takes the answer `ev` and gives the actions to perform next.
    pub fn step(&mut self, ev: ServerEvent) -> (r: Vec<ServerAction>)
        ensures
            final(self)@ == uninstall_step(old(self)@, ev@).0,
            action_views(r@) == uninstall_step(old(self)@, ev@).1,
    {
        let mut acts: Vec<ServerAction> = Vec::new();
        match (self.phase, ev) {
            (UninstallPhase::Begin, ServerEvent::Start) => {
                self.phase = UninstallPhase::AwaitStop;
                acts.push(log_lit("Uninstall: stopping service (best-effort)..."));
                acts.push(ServerAction::StopServer);
            },
            (UninstallPhase::AwaitStop, ServerEvent::Done) => {
                self.phase = UninstallPhase::AwaitRoot;
                acts.push(ServerAction::LocateRoot);
            },
            (UninstallPhase::AwaitRoot, ServerEvent::Root { exists, path }) => {
                if exists {
                    self.phase = UninstallPhase::AwaitRemove;
                    let mut m = String::from_str("Uninstall: removing ");
                    m.append(path.as_str());
                    acts.push(ServerAction::Log(m));
                    acts.push(ServerAction::RemoveRoot);
                } else {
                    self.phase = UninstallPhase::Finished;
                    acts.push(log_lit("Uninstall: nothing to remove"));
                    acts.push(ServerAction::ReportStatus);
                }
            },
            (UninstallPhase::AwaitRoot, ServerEvent::Failed(e)) => {
                self.phase = UninstallPhase::Finished;
                acts.push(ServerAction::Fail(e));
            },
            (UninstallPhase::AwaitRemove, ServerEvent::Done) => {
                self.phase = UninstallPhase::Finished;
                acts.push(log_lit("Uninstall: done"));
                acts.push(ServerAction::ReportStatus);
            },
            (UninstallPhase::AwaitRemove, ServerEvent::Failed(e)) => {
                self.phase = UninstallPhase::Finished;
                acts.push(ServerAction::Fail(e));
            },
            _ => {},
        }
        acts
    }
}

/// Every step of the uninstall flow ignores its event or asks for well-formed actions;
/// the root directory is removed only after the server was stopped and the directory
/// was found.
pub proof fn law_uninstall_removes_only_found_root(p: UninstallPhase, ev: ServerEventView)
    ensures
        uninstall_step(p, ev).1.len() == 0 ==> uninstall_step(p, ev).0 == p,
        uninstall_step(p, ev).1.len() > 0 ==> well_formed_step(uninstall_step(p, ev).1),
        uninstall_step(p, ev).1.len() > 0 && uninstall_step(p, ev).1.last()
            is RemoveRoot ==> p == UninstallPhase::AwaitRoot && ev matches ServerEventView::Root {
            exists: true,
            ..
        },
{
}

// ---------------------------------------------------------------------------------------
// Starting the server when the application launches
// ---------------------------------------------------------------------------------------

/// Where the launch-time start stands.
#[derive(Clone, Copy, PartialEq, Eq, Structural, Debug)]
pub enum AutoStartPhase {
    Begin,
    AwaitNode,
    AwaitRunning,
    Finished,
}

/// One step of the launch-time start: skip it without an installed runtime or with a
/// server already running, else run the start flow.
pub open spec fn auto_start_step(p: AutoStartPhase, ev: ServerEventView) -> (AutoStartPhase, Seq<
    ServerActionView,
>) {
    match (p, ev) {
        (AutoStartPhase::Begin, ServerEventView::Start) => (
            AutoStartPhase::AwaitNode,
            seq![ServerActionView::LocateNode],
        ),
        (AutoStartPhase::AwaitNode, ServerEventView::NodeBinary { exists, .. }) => if exists {
            (AutoStartPhase::AwaitRunning, seq![ServerActionView::PollServer])
        } else {
            (
                AutoStartPhase::Finished,
                seq![
                    ServerActionView::Log("应用启动：未安装私有 Node，跳过自动启动（请先安装 Node）"@),
                    ServerActionView::Finish,
                ],
            )
        },
        (AutoStartPhase::AwaitNode, ServerEventView::Failed(e)) => (
            AutoStartPhase::Finished,
            seq![ServerActionView::Fail(e)],
        ),
        (AutoStartPhase::AwaitRunning, ServerEventView::Running(running)) => if running {
            (
                AutoStartPhase::Finished,
                seq![
                    ServerActionView::Log("应用启动：服务已在运行，跳过自动启动"@),
                    ServerActionView::Finish,
                ],
            )
        } else {
            (
                AutoStartPhase::Finished,
                seq![
                    ServerActionView::Log("应用启动：自动启动服务…"@),
                    ServerActionView::StartServer,
                ],
            )
        },
        _ => (p, seq![]),
    }
}

/// The flow that starts the server when the application launches.
pub struct AutoStartFlow {
    phase: AutoStartPhase,
}

impl View for AutoStartFlow {
    type V = AutoStartPhase;

    closed spec fn view(&self) -> AutoStartPhase {
        self.phase
    }
}

impl AutoStartFlow {
    /// A launch-time start, not yet begun.
    pub fn new() -> (r: AutoStartFlow)
        ensures
            r@ == AutoStartPhase::Begin,
    {
        AutoStartFlow { phase: AutoStartPhase::Begin }
    }

    /// The flow's phase.
    pub fn phase(&self) -> (r: AutoStartPhase)
        ensures
            r == self@,
    {
        self.phase
    }

    /// Takes the answer `ev` and gives the actions to perform next.
    pub fn step(&mut self, ev: ServerEvent) -> (r: Vec<ServerAction>)
        ensures
            final(self)@ == auto_start_step(old(self)@, ev@).0,
            action_views(r@) == auto_start_step(old(self)@, ev@).1,
    {
        let mut acts: Vec<ServerAction> = Vec::new();
        match (self.phase, ev) {
            (AutoStartPhase::Begin, ServerEvent::Start) => {
                self.phase = AutoStartPhase::AwaitNode;
                acts.push(ServerAction::LocateNode);
            },
            (AutoStartPhase::AwaitNode, ServerEvent::NodeBinary { exists, .. }) => {
                if exists {
                    self.phase = AutoStartPhase::AwaitRunning;
                    acts.push(ServerAction::PollServer);
                } else {
                    self.phase = AutoStartPhase::Finished;
                    acts.push(log_lit("应用启动：未安装私有 Node，跳过自动启动（请先安装 Node）"));
                    acts.push(ServerAction::Finish);
                }
            },
            (AutoStartPhase::AwaitNode, ServerEvent::Failed(e)) => {
                self.phase = AutoStartPhase::Finished;
                acts.push(ServerAction::Fail(e));
            },
            (AutoStartPhase::AwaitRunning, ServerEvent::Running(running)) => {
                self.phase = AutoStartPhase::Finished;
                if running {
                    acts.push(log_lit("应用启动：服务已在运行，跳过自动启动"));
                    acts.push(ServerAction::Finish);
                } else {
                    acts.push(log_lit("应用启动：自动启动服务…"));
                    acts.push(ServerAction::StartServer);
                }
            },
            _ => {},
        }
        acts
    }
}

/// Every step of the launch-time start ignores its event or asks for well-formed actions,
/// and the server is started only when the runtime is installed and no server runs: the
/// start is asked for only from the phase reached by finding the node binary, on the
/// report that no server runs.
pub proof fn law_auto_start_only_when_installed_and_stopped(p: AutoStartPhase, ev: ServerEventView)
    ensures
        auto_start_step(p, ev).1.len() == 0 ==> auto_start_step(p, ev).0 == p,
        auto_start_step(p, ev).1.len() > 0 ==> well_formed_step(auto_start_step(p, ev).1),
        auto_start_step(p, ev).1.len() > 0 && auto_start_step(p, ev).1.last()
            is StartServer ==> p == AutoStartPhase::AwaitRunning && ev
            == ServerEventView::Running(false),
        auto_start_step(p, ev).0 == AutoStartPhase::AwaitRunning && p != AutoStartPhase::AwaitRunning
            ==> p == AutoStartPhase::AwaitNode && ev matches ServerEventView::NodeBinary {
            exists: true,
            ..
        },
{
}


// ---------------------------------------------------------------------------------------
// Repeated calls
// ---------------------------------------------------------------------------------------

/// What the start and stop flows observe and change outside the library, as the
/// application carries out their actions: the server process it keeps (by pid, counted
/// alive while kept), a process just launched and not yet kept, the pid file, the node
/// binary, the server script, whether the port is free, the pid the next launch gets, and
/// the menu last shown (port and running flag).
pub struct ServerWorld {
    pub kept: Option<u32>,
    pub launched: Option<u32>,
    pub pid_file: Option<u32>,
    pub node_installed: bool,
    pub node_path: Seq<char>,
    pub entry_path: Seq<char>,
    pub port_free: bool,
    pub next_pid: u32,
    pub menu: Option<(Option<u16>, bool)>,
}

/// Carrying out action `a` in `w`: the world afterwards and the answer, if the action
/// awaits one. Killing a pid ends the kept process if it is that one; the application
/// keeps the launched process, which then holds the port; a kill is answered as done.
pub open spec fn perform(w: ServerWorld, a: ServerActionView) -> (ServerWorld, Option<ServerEventView>) {
    match a {
        ServerActionView::PollServer => (w, Some(ServerEventView::Running(w.kept is Some))),
        ServerActionView::LocateNode => (
            w,
            Some(ServerEventView::NodeBinary { exists: w.node_installed, path: w.node_path }),
        ),
        ServerActionView::WriteServerEntry => (
            w,
            Some(ServerEventView::EntryWritten { path: w.entry_path }),
        ),
        ServerActionView::ProbePort(_) => (w, Some(ServerEventView::PortAvailable(w.port_free))),
        ServerActionView::ReadPid => (w, Some(ServerEventView::Pid(w.pid_file))),
        ServerActionView::KillPid(p) => (
            ServerWorld {
                kept: if w.kept == Some(p) {
                    None
                } else {
                    w.kept
                },
                ..w
            },
            Some(ServerEventView::Killed),
        ),
        ServerActionView::ClearPid => (ServerWorld { pid_file: None, ..w }, None),
        ServerActionView::Spawn { .. } => (
            ServerWorld { launched: Some(w.next_pid), ..w },
            Some(ServerEventView::Spawned(w.next_pid)),
        ),
        ServerActionView::WritePid(p) => (ServerWorld { pid_file: Some(p), ..w }, None),
        ServerActionView::RefreshMenu { shown_port, running } => (
            ServerWorld { menu: Some((shown_port, running)), ..w },
            None,
        ),
        ServerActionView::KeepChild => (
            ServerWorld { kept: w.launched, launched: None, port_free: false, ..w },
            None,
        ),
        ServerActionView::KillChild => (ServerWorld { kept: None, ..w }, None),
        _ => (w, None),
    }
}

/// Carrying out the actions of one step in order: the world afterwards and the answer to
/// the last action that awaits one.
pub open spec fn perform_all(w: ServerWorld, acts: Seq<ServerActionView>) -> (ServerWorld, Option<
    ServerEventView,
>)
    decreases acts.len(),
{
    if acts.len() == 0 {
        (w, None)
    } else {
        let (w1, e1) = perform(w, acts[0]);
        let (w2, e2) = perform_all(w1, acts.drop_first());
        (
            w2,
            if e2 is Some {
                e2
            } else {
                e1
            },
        )
    }
}

/// A start call carried out in `w`: at most `fuel` steps from state `s` and event `ev`,
/// each step's actions performed and the answer fed back. Gives the final flow state,
/// the final world and all actions.
pub open spec fn start_session(s: StartFlowView, w: ServerWorld, ev: ServerEventView, fuel: nat) -> (
    StartFlowView,
    ServerWorld,
    Seq<ServerActionView>,
)
    decreases fuel,
{
    if fuel == 0 {
        (s, w, seq![])
    } else {
        let (s1, acts) = start_step(s, ev);
        let (w1, next) = perform_all(w, acts);
        match next {
            None => (s1, w1, acts),
            Some(e) => {
                let (s2, w2, more) = start_session(s1, w1, e, (fuel - 1) as nat);
                (s2, w2, acts + more)
            },
        }
    }
}

/// A stop call carried out in `w`, as [`start_session`] for the stop flow.
pub open spec fn stop_session(p: StopPhase, w: ServerWorld, ev: ServerEventView, fuel: nat) -> (
    StopPhase,
    ServerWorld,
    Seq<ServerActionView>,
)
    decreases fuel,
{
    if fuel == 0 {
        (p, w, seq![])
    } else {
        let (p1, acts) = stop_step(p, ev);
        let (w1, next) = perform_all(w, acts);
        match next {
            None => (p1, w1, acts),
            Some(e) => {
                let (p2, w2, more) = stop_session(p1, w1, e, (fuel - 1) as nat);
                (p2, w2, acts + more)
            },
        }
    }
}

/// Starting the server again while the kept server process runs launches nothing: the
/// call polls, logs that the server runs and reports the status, the world (kept process,
/// pid file, menu, port) stays as it was, and the server is reported running.
pub proof fn law_start_again_keeps_running_server(s: StartFlowView, w: ServerWorld, fuel: nat)
    requires
        s.phase == StartPhase::Begin,
        w.kept is Some,
        fuel >= 2,
    ensures
        ({
            let (s2, w2, acts) = start_session(s, w, ServerEventView::Start, fuel);
            &&& s2.phase == StartPhase::Finished
            &&& w2 == w
            &&& acts == seq![
                ServerActionView::PollServer,
                ServerActionView::Log("服务器已在运行"@),
                ServerActionView::ReportStatus,
            ]
            &&& !launches(acts)
            &&& w2.kept is Some
        }),
{
    reveal_with_fuel(perform_all, 4);
    reveal_with_fuel(start_session, 3);
    let (s1, a1) = start_step(s, ServerEventView::Start);
    let (w1, e1) = perform_all(w, a1);
    assert(w1 == w);
    assert(e1 == Some(ServerEventView::Running(true)));
    let (s2, a2) = start_step(s1, ServerEventView::Running(true));
    let (w2, e2) = perform_all(w1, a2);
    assert(w2 == w);
    assert(e2 is None);
    let acts = start_session(s, w, ServerEventView::Start, fuel).2;
    assert(acts =~= a1 + a2);
    assert(acts =~= seq![
        ServerActionView::PollServer,
        ServerActionView::Log("服务器已在运行"@),
        ServerActionView::ReportStatus,
    ]);
    assert(!launches(acts)) by {
        assert forall|i: int| 0 <= i < acts.len() implies !((#[trigger] acts[i]) is Spawn) by {}
    }
}

/// Where a start call stands relative to the world `w0` it began in: before the poll the
/// world is untouched; after learning that no server runs, no process is kept; at the end
/// the kept process is the one it began with, unless there was none.
pub open spec fn start_session_inv(s: StartFlowView, w: ServerWorld, ev: ServerEventView, w0: ServerWorld) -> bool {
    match s.phase {
        StartPhase::Begin => w == w0,
        StartPhase::AwaitRunning => w == w0 && ev == ServerEventView::Running(w.kept is Some),
        StartPhase::Finished => w.kept == w0.kept || w0.kept is None,
        _ => w0.kept is None && w.kept is None,
    }
}

proof fn lemma_start_session_keeps_one_child(
    s: StartFlowView,
    w: ServerWorld,
    ev: ServerEventView,
    w0: ServerWorld,
    fuel: nat,
)
    requires
        start_session_inv(s, w, ev, w0),
    ensures
        start_session(s, w, ev, fuel).1.kept == w0.kept || w0.kept is None,
    decreases fuel,
{
    reveal_with_fuel(perform_all, 5);
    if fuel > 0 {
        let (s1, acts) = start_step(s, ev);
        let (w1, next) = perform_all(w, acts);
        match next {
            None => {},
            Some(e) => {
                assert(start_session_inv(s1, w1, e, w0));
                lemma_start_session_keeps_one_child(s1, w1, e, w0, (fuel - 1) as nat);
            },
        }
    }
}

/// A start call never replaces a kept server process: it ends with the process it began
/// with, or, when it began with none, with at most the one it launched.
pub proof fn law_start_holds_at_most_one_child(s: StartFlowView, w: ServerWorld, fuel: nat)
    requires
        s.phase == StartPhase::Begin,
    ensures
        start_session(s, w, ServerEventView::Start, fuel).1.kept == w.kept || w.kept is None,
{
    lemma_start_session_keeps_one_child(s, w, ServerEventView::Start, w, fuel);
}

/// Stopping twice: the first stop leaves no kept process, no pid file and the menu of a
/// stopped server; the second stop then kills nothing by pid, changes nothing, and
/// reports from the same world as the first.
pub proof fn law_stop_twice_changes_nothing(w: ServerWorld, fuel: nat)
    requires
        fuel >= 3,
    ensures
        ({
            let (p1, w1, a1) = stop_session(StopPhase::Begin, w, ServerEventView::Start, fuel);
            let (p2, w2, a2) = stop_session(StopPhase::Begin, w1, ServerEventView::Start, fuel);
            &&& p1 == StopPhase::Finished
            &&& w1.kept is None
            &&& w1.pid_file is None
            &&& w1.menu == Some((None::<u16>, false))
            &&& p2 == StopPhase::Finished
            &&& w2 == w1
            &&& a2 == seq![
                ServerActionView::Log("停止服务器…"@),
                ServerActionView::KillChild,
                ServerActionView::ReadPid,
            ] + stop_tail()
            &&& forall|i: int| 0 <= i < a2.len() ==> !((#[trigger] a2[i]) is KillPid)
        }),
{
    reveal_with_fuel(perform_all, 6);
    reveal_with_fuel(stop_session, 4);
    let start = ServerEventView::Start;
    // first call
    let (q1, b1) = stop_step(StopPhase::Begin, start);
    let (x1, e1) = perform_all(w, b1);
    assert(x1.kept is None);
    assert(e1 == Some(ServerEventView::Pid(w.pid_file)));
    let (q2, b2) = stop_step(q1, e1.unwrap());
    let (x2, e2) = perform_all(x1, b2);
    match w.pid_file {
        Some(pid) => {
            assert(x2.kept is None);
            assert(e2 == Some(ServerEventView::Killed));
            let (q3, b3) = stop_step(q2, e2.unwrap());
            let (x3, e3) = perform_all(x2, b3);
            assert(e3 is None);
            assert(x3.kept is None && x3.pid_file is None);
            assert(x3.menu == Some((None::<u16>, false)));
            assert(stop_session(StopPhase::Begin, w, start, fuel).1 == x3);
        },
        None => {
            assert(e2 is None);
            assert(x2.kept is None && x2.pid_file is None);
            assert(stop_session(StopPhase::Begin, w, start, fuel).1 == x2);
        },
    }
    let w1 = stop_session(StopPhase::Begin, w, start, fuel).1;
    // second call
    let (r1, c1) = stop_step(StopPhase::Begin, start);
    let (y1, f1) = perform_all(w1, c1);
    assert(y1 == w1);
    assert(f1 == Some(ServerEventView::Pid(None)));
    let (r2, c2) = stop_step(r1, f1.unwrap());
    let (y2, f2) = perform_all(y1, c2);
    assert(f2 is None);
    assert(y2 == w1);
    let a2 = stop_session(StopPhase::Begin, w1, start, fuel).2;
    assert(a2 =~= c1 + c2);
    assert(a2 =~= seq![
        ServerActionView::Log("停止服务器…"@),
        ServerActionView::KillChild,
        ServerActionView::ReadPid,
    ] + stop_tail());
}


/// A stop never fails: no step of the stop flow ends it with an error. Answering the kill
/// of the pid-file process, whether it was done or failed, finishes the stop with the
/// clean-up: the last four actions clear the pid file, show the menu of a stopped server,
/// log that the server stopped and report the status.
pub proof fn law_stop_finishes_whatever_the_kill_gave(p: StopPhase, ev: ServerEventView)
    ensures
        forall|i: int|
            0 <= i < stop_step(p, ev).1.len() ==> !((#[trigger] stop_step(p, ev).1[i]) is Fail),
        p is AwaitKill && (ev is Killed || ev is KillFailed) ==> {
            let acts = stop_step(p, ev).1;
            &&& stop_step(p, ev).0 == StopPhase::Finished
            &&& acts.len() == 5
            &&& acts[1] == ServerActionView::ClearPid
            &&& acts[2] == (ServerActionView::RefreshMenu { shown_port: None, running: false })
            &&& acts[3] == ServerActionView::Log(
                "已停止（如仍可访问 /health，通常是历史遗留进程占用端口）"@,
            )
            &&& acts[4] == ServerActionView::ReportStatus
        },
        p == StopPhase::Begin && ev == ServerEventView::Start ==> stop_step(p, ev) == (
            StopPhase::AwaitPid,
            seq![
                ServerActionView::Log("停止服务器…"@),
                ServerActionView::KillChild,
                ServerActionView::ReadPid,
            ],
        ),
        p == StopPhase::AwaitPid && ev == ServerEventView::Pid(None) ==> stop_step(p, ev) == (
            StopPhase::Finished,
            seq![
                ServerActionView::ClearPid,
                ServerActionView::RefreshMenu { shown_port: None, running: false },
                ServerActionView::Log(
                    "已停止（如仍可访问 /health，通常是历史遗留进程占用端口）"@,
                ),
                ServerActionView::ReportStatus,
            ],
        ),
        p == StopPhase::AwaitPid ==> (ev matches ServerEventView::Pid(Some(q)) ==> stop_step(p, ev)
            == (StopPhase::AwaitKill(q), seq![ServerActionView::KillPid(q)])),
{
    assert(stop_tail() =~= seq![
        ServerActionView::ClearPid,
        ServerActionView::RefreshMenu { shown_port: None, running: false },
        ServerActionView::Log("已停止（如仍可访问 /health，通常是历史遗留进程占用端口）"@),
        ServerActionView::ReportStatus,
    ]);
}

/// The uninstall reports success (its status) only after the removal of the root
/// directory was reported done, or when there was no directory to remove; a failed
/// removal ends the uninstall with exactly that error.
pub proof fn law_uninstall_reports_failed_removal(p: UninstallPhase, ev: ServerEventView)
    ensures
        ({
            let acts = uninstall_step(p, ev).1;
            (exists|i: int| 0 <= i < acts.len() && (#[trigger] acts[i]) is ReportStatus) ==> (p
                == UninstallPhase::AwaitRemove && ev == ServerEventView::Done) || (p
                == UninstallPhase::AwaitRoot && ev matches ServerEventView::Root {
                exists: false,
                ..
            })
        }),
        p == UninstallPhase::AwaitRemove ==> (ev matches ServerEventView::Failed(e) ==> uninstall_step(
            p,
            ev,
        ) == (UninstallPhase::Finished, seq![ServerActionView::Fail(e)])),
        p == UninstallPhase::AwaitRemove && ev == ServerEventView::Done ==> uninstall_step(p, ev).1
            == seq![ServerActionView::Log("Uninstall: done"@), ServerActionView::ReportStatus],
{
}

} // verus!

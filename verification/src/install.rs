//! Decisions of installing the Node runtime: download the archive, check it against the
//! published checksum, and extract it only when the checksums agree. The flow is a state
//! machine: the application performs the actions it asks for and answers with the outcome
//! as the next event.
use vstd::prelude::*;
use crate::artifact::{
    shasums_url, ArchiveKind, NodeArtifact, NodeArtifactView, NODE_DIST_BASE_URL, NODE_VERSION,
};
use crate::checksum::{checksums_match, lowercase, published_checksum, resolve_expected_sha256};
use crate::error::{RuntimeError, RuntimeErrorView};
use crate::status::{DownloadProgress, NodeRuntimeStatus, NodeRuntimeStatusView, DEFAULT_SERVER_PORT};
use crate::text::{decimal, push_decimal};

verus! {

/// What the install flow asks the application to do. Only the last action of a step may
/// await an answer; logging, progress reports and removing the archive do not.
pub enum InstallAction {
    /// Show a line in the runtime log.
    Log(String),
    /// Make the downloads directory and remove an archive left there (answer: `Done` or `Failed`).
    PrepareDownloads,
    /// Request this URL (answer: `Response` or `Failed`).
    Fetch(String),
    /// Create the archive file (answer: `Done` or `Failed`).
    CreateArchive,
    /// Receive the next chunk of the response (answer: `Chunk`, `EndOfBody` or `Failed`).
    ReadChunk,
    /// Append the chunk just received to the archive file (answer: `Done` or `Failed`).
    WriteChunk,
    /// Report the download's progress to the front end.
    Progress(DownloadProgress),
    /// Flush the archive file (answer: `Done` or `Failed`).
    FlushArchive,
    /// Download the checksum list from this URL (answer: `ChecksumList` or `Failed`).
    FetchChecksums(String),
    /// Compute the archive's SHA-256 (answer: `ArchiveHash` or `Failed`).
    HashArchive,
    /// Delete the archive file.
    RemoveArchive,
    /// Remove the install directory if present and create it anew (answer: `Done` or `Failed`).
    ResetInstallDir,
    /// Extract the archive, packed as given, into the install directory (answer: `Done` or `Failed`).
    Extract(ArchiveKind),
    /// Look for the node binary (answer: `NodeBinary` or `Failed`).
    LocateNode,
    /// Ask the node binary for its version (answer: `Version`).
    QueryVersion,
    /// Finish with this status.
    Finish(NodeRuntimeStatus),
    /// Finish with this error.
    Fail(RuntimeError),
}

/// The value of an [`InstallAction`].
pub enum InstallActionView {
    Log(Seq<char>),
    PrepareDownloads,
    Fetch(Seq<char>),
    CreateArchive,
    ReadChunk,
    WriteChunk,
    Progress(DownloadProgress),
    FlushArchive,
    FetchChecksums(Seq<char>),
    HashArchive,
    RemoveArchive,
    ResetInstallDir,
    Extract(ArchiveKind),
    LocateNode,
    QueryVersion,
    Finish(NodeRuntimeStatusView),
    Fail(RuntimeErrorView),
}

impl View for InstallAction {
    type V = InstallActionView;

    open spec fn view(&self) -> InstallActionView {
        match self {
            InstallAction::Log(m) => InstallActionView::Log(m@),
            InstallAction::PrepareDownloads => InstallActionView::PrepareDownloads,
            InstallAction::Fetch(u) => InstallActionView::Fetch(u@),
            InstallAction::CreateArchive => InstallActionView::CreateArchive,
            InstallAction::ReadChunk => InstallActionView::ReadChunk,
            InstallAction::WriteChunk => InstallActionView::WriteChunk,
            InstallAction::Progress(p) => InstallActionView::Progress(*p),
            InstallAction::FlushArchive => InstallActionView::FlushArchive,
            InstallAction::FetchChecksums(u) => InstallActionView::FetchChecksums(u@),
            InstallAction::HashArchive => InstallActionView::HashArchive,
            InstallAction::RemoveArchive => InstallActionView::RemoveArchive,
            InstallAction::ResetInstallDir => InstallActionView::ResetInstallDir,
            InstallAction::Extract(k) => InstallActionView::Extract(*k),
            InstallAction::LocateNode => InstallActionView::LocateNode,
            InstallAction::QueryVersion => InstallActionView::QueryVersion,
            InstallAction::Finish(s) => InstallActionView::Finish(s@),
            InstallAction::Fail(e) => InstallActionView::Fail(e@),
        }
    }
}

/// The values of a list of actions.
pub open spec fn install_action_views(v: Seq<InstallAction>) -> Seq<InstallActionView> {
    v.map_values(|a: InstallAction| a@)
}

/// What the application reports back after performing an action.
pub enum InstallEvent {
    /// The flow begins.
    Start,
    /// The action was carried out.
    Done,
    /// The action failed with this error.
    Failed(RuntimeError),
    /// The server answered, announcing `total` bytes if it said.
    Response { total: Option<u64> },
    /// A chunk of `len` bytes arrived.
    Chunk { len: u64 },
    /// The response body is complete.
    EndOfBody,
    /// The checksum list, as text.
    ChecksumList(String),
    /// The archive's SHA-256 in hexadecimal.
    ArchiveHash(String),
    NodeBinary { exists: bool, path: String },
    Version(Option<String>),
}

/// The value of an [`InstallEvent`].
pub enum InstallEventView {
    Start,
    Done,
    Failed(RuntimeErrorView),
    Response { total: Option<u64> },
    Chunk { len: u64 },
    EndOfBody,
    ChecksumList(Seq<char>),
    ArchiveHash(Seq<char>),
    NodeBinary { exists: bool, path: Seq<char> },
    Version(Option<Seq<char>>),
}

impl View for InstallEvent {
    type V = InstallEventView;

    open spec fn view(&self) -> InstallEventView {
        match self {
            InstallEvent::Start => InstallEventView::Start,
            InstallEvent::Done => InstallEventView::Done,
            InstallEvent::Failed(e) => InstallEventView::Failed(e@),
            InstallEvent::Response { total } => InstallEventView::Response { total: *total },
            InstallEvent::Chunk { len } => InstallEventView::Chunk { len: *len },
            InstallEvent::EndOfBody => InstallEventView::EndOfBody,
            InstallEvent::ChecksumList(b) => InstallEventView::ChecksumList(b@),
            InstallEvent::ArchiveHash(h) => InstallEventView::ArchiveHash(h@),
            InstallEvent::NodeBinary { exists, path } => InstallEventView::NodeBinary {
                exists: *exists,
                path: path@,
            },
            InstallEvent::Version(v) => InstallEventView::Version(v.deep_view()),
        }
    }
}

/// Where the install flow stands: what it waits for.
#[derive(Clone, Copy, PartialEq, Eq, Structural, Debug)]
pub enum InstallPhase {
    Begin,
    AwaitPrepare,
    AwaitResponse,
    AwaitCreate,
    AwaitChunk,
    AwaitWrite(u64),
    AwaitFlush,
    AwaitChecksums,
    AwaitHash,
    AwaitReset,
    AwaitExtract,
    AwaitNode,
    AwaitVersion,
    AwaitFinalVersion,
    Finished,
}

/// The flow that installs the runtime from `artifact`.
pub struct InstallFlow {
    phase: InstallPhase,
    artifact: NodeArtifact,
    archive_url: String,
    progress: DownloadProgress,
    expected: String,
    actual: String,
    node_path: String,
    checksum_list: Ghost<Seq<char>>,
    written: Ghost<Seq<u64>>,
}

/// The value of an [`InstallFlow`].
pub struct InstallFlowView {
    pub phase: InstallPhase,
    pub artifact: NodeArtifactView,
    pub archive_url: Seq<char>,
    pub progress: DownloadProgress,
    /// The published checksum of the archive, once known.
    pub expected: Seq<char>,
    /// The computed checksum of the archive, once known.
    pub actual: Seq<char>,
    /// The node binary's path, once found.
    pub node_path: Seq<char>,
    /// The checksum list, once downloaded.
    pub checksum_list: Seq<char>,
    /// The lengths of the chunks written to the archive so far.
    pub written: Seq<u64>,
}

impl View for InstallFlow {
    type V = InstallFlowView;

    closed spec fn view(&self) -> InstallFlowView {
        InstallFlowView {
            phase: self.phase,
            artifact: self.artifact@,
            archive_url: self.archive_url@,
            progress: self.progress,
            expected: self.expected@,
            actual: self.actual@,
            node_path: self.node_path@,
            checksum_list: self.checksum_list@,
            written: self.written@,
        }
    }
}

// ---------------------------------------------------------------------------------------
// Log lines
// ---------------------------------------------------------------------------------------

/// First log line.
pub open spec fn download_start_text(tag: Seq<char>) -> Seq<char> {
    "Download Node "@ + NODE_VERSION@ + " ("@ + tag + ")"@
}

/// Log line once the server answered.
pub open spec fn downloading_text(url: Seq<char>, total: Option<u64>) -> Seq<char> {
    match total {
        Some(t) => "Downloading: "@ + url + " ("@ + decimal(t as nat) + " bytes)"@,
        None => "Downloading: "@ + url + " (unknown size)"@,
    }
}

/// Log line once the archive is on disk.
pub open spec fn download_done_text(bytes: u64) -> Seq<char> {
    "Download done: "@ + decimal(bytes as nat) + " bytes"@
}

/// Log line before the archive is hashed.
pub open spec fn verify_text(expected: Seq<char>) -> Seq<char> {
    "Verify SHA256… expected="@ + expected
}

/// Log line when the checksums disagree.
pub open spec fn mismatch_text(expected: Seq<char>, actual: Seq<char>) -> Seq<char> {
    "SHA256 mismatch, expected="@ + expected + " got="@ + actual
}

/// Log line naming the installed version.
pub open spec fn installed_text(version: Seq<char>, path: Seq<char>) -> Seq<char> {
    "Installed: "@ + version + " ("@ + path + ")"@
}

fn log_lit(m: &str) -> (r: InstallAction)
    ensures
        r@ == InstallActionView::Log(m@),
{
    InstallAction::Log(String::from_str(m))
}

// ---------------------------------------------------------------------------------------
// The transition function
// ---------------------------------------------------------------------------------------

/// `s` in phase `p`.
pub open spec fn install_in(s: InstallFlowView, p: InstallPhase) -> InstallFlowView {
    InstallFlowView { phase: p, ..s }
}

/// The status reported after a successful install.
pub open spec fn installed_status(path: Seq<char>, version: Option<Seq<char>>) -> NodeRuntimeStatusView {
    NodeRuntimeStatusView {
        installed: true,
        node_path: Some(path),
        version,
        server_running: false,
        server_port: DEFAULT_SERVER_PORT,
    }
}

/// One step of the install flow: the next state and the actions for event `ev`. An event
/// that the phase does not wait for changes nothing and asks for nothing; a failure
/// reported for an action ends the flow with that error.
pub open spec fn install_step(s: InstallFlowView, ev: InstallEventView) -> (InstallFlowView, Seq<
    InstallActionView,
>) {
    let fin = install_in(s, InstallPhase::Finished);
    match (s.phase, ev) {
        (InstallPhase::Begin, InstallEventView::Start) => (
            install_in(s, InstallPhase::AwaitPrepare),
            seq![
                InstallActionView::Log(download_start_text(s.artifact.platform_tag)),
                InstallActionView::PrepareDownloads,
            ],
        ),
        (InstallPhase::AwaitPrepare, InstallEventView::Done) => (
            install_in(s, InstallPhase::AwaitResponse),
            seq![InstallActionView::Fetch(s.archive_url)],
        ),
        (InstallPhase::AwaitResponse, InstallEventView::Response { total }) => (
            InstallFlowView {
                phase: InstallPhase::AwaitCreate,
                progress: DownloadProgress { downloaded: 0, total },
                written: seq![],
                ..s
            },
            seq![
                InstallActionView::Log(downloading_text(s.archive_url, total)),
                InstallActionView::CreateArchive,
            ],
        ),
        (InstallPhase::AwaitCreate, InstallEventView::Done) => (
            install_in(s, InstallPhase::AwaitChunk),
            seq![InstallActionView::ReadChunk],
        ),
        (InstallPhase::AwaitChunk, InstallEventView::Chunk { len }) => (
            install_in(s, InstallPhase::AwaitWrite(len)),
            seq![InstallActionView::WriteChunk],
        ),
        (InstallPhase::AwaitChunk, InstallEventView::EndOfBody) => (
            install_in(s, InstallPhase::AwaitFlush),
            seq![InstallActionView::FlushArchive],
        ),
        (InstallPhase::AwaitWrite(len), InstallEventView::Done) => {
            let p = DownloadProgress {
                downloaded: (s.progress.downloaded + len) as u64,
                total: s.progress.total,
            };
            (
                InstallFlowView {
                    phase: InstallPhase::AwaitChunk,
                    progress: p,
                    written: s.written.push(len),
                    ..s
                },
                seq![InstallActionView::Progress(p), InstallActionView::ReadChunk],
            )
        },
        (InstallPhase::AwaitFlush, InstallEventView::Done) => (
            install_in(s, InstallPhase::AwaitChecksums),
            seq![
                InstallActionView::Log(download_done_text(s.progress.downloaded)),
                InstallActionView::Log("Resolve SHA256 from SHASUMS256.txt…"@),
                InstallActionView::FetchChecksums(NODE_DIST_BASE_URL@ + "/SHASUMS256.txt"@),
            ],
        ),
        (InstallPhase::AwaitChecksums, InstallEventView::ChecksumList(body)) => match published_checksum(
            body,
            s.artifact.filename,
        ) {
            Some(sha) => (
                InstallFlowView {
                    phase: InstallPhase::AwaitHash,
                    expected: sha,
                    checksum_list: body,
                    ..s
                },
                seq![InstallActionView::Log(verify_text(sha)), InstallActionView::HashArchive],
            ),
            None => (
                fin,
                seq![
                    InstallActionView::Fail(
                        RuntimeErrorView::ChecksumNotFound { filename: s.artifact.filename },
                    ),
                ],
            ),
        },
        (InstallPhase::AwaitHash, InstallEventView::ArchiveHash(h)) => if lowercase(h) == lowercase(
            s.expected,
        ) {
            (
                InstallFlowView { phase: InstallPhase::AwaitReset, actual: h, ..s },
                seq![InstallActionView::Log("SHA256 OK"@), InstallActionView::ResetInstallDir],
            )
        } else {
            (
                InstallFlowView { phase: InstallPhase::Finished, actual: h, ..s },
                seq![
                    InstallActionView::RemoveArchive,
                    InstallActionView::Log(mismatch_text(s.expected, h)),
                    InstallActionView::Fail(
                        RuntimeErrorView::ChecksumMismatch { expected: s.expected, actual: h },
                    ),
                ],
            )
        },
        (InstallPhase::AwaitReset, InstallEventView::Done) => (
            install_in(s, InstallPhase::AwaitExtract),
            seq![InstallActionView::Log("Extracting…"@), InstallActionView::Extract(s.artifact.kind)],
        ),
        (InstallPhase::AwaitExtract, InstallEventView::Done) => (
            install_in(s, InstallPhase::AwaitNode),
            seq![InstallActionView::Log("Extract done"@), InstallActionView::LocateNode],
        ),
        (InstallPhase::AwaitNode, InstallEventView::NodeBinary { exists, path }) => if exists {
            (
                InstallFlowView { phase: InstallPhase::AwaitVersion, node_path: path, ..s },
                seq![InstallActionView::QueryVersion],
            )
        } else {
            (
                fin,
                seq![InstallActionView::Fail(RuntimeErrorView::NodeBinaryMissing { path })],
            )
        },
        (InstallPhase::AwaitVersion, InstallEventView::Version(v)) => match v {
            Some(version) => (
                install_in(s, InstallPhase::AwaitFinalVersion),
                seq![
                    InstallActionView::Log(installed_text(version, s.node_path)),
                    InstallActionView::QueryVersion,
                ],
            ),
            None => (
                install_in(s, InstallPhase::AwaitFinalVersion),
                seq![InstallActionView::QueryVersion],
            ),
        },
        (InstallPhase::AwaitFinalVersion, InstallEventView::Version(v)) => (
            fin,
            seq![InstallActionView::Finish(installed_status(s.node_path, v))],
        ),
        (InstallPhase::Begin, _) => (s, seq![]),
        (InstallPhase::Finished, _) => (s, seq![]),
        (_, InstallEventView::Failed(e)) => (fin, seq![InstallActionView::Fail(e)]),
        _ => (s, seq![]),
    }
}

/// Whether the step for `ev` can count the bytes of a written chunk without overflow.
pub open spec fn install_step_fits(s: InstallFlowView, ev: InstallEventView) -> bool {
    match s.phase {
        InstallPhase::AwaitWrite(len) => ev is Done ==> s.progress.downloaded + len <= u64::MAX,
        _ => true,
    }
}


impl InstallFlow {
    /// An install flow for `artifact`, not yet begun.
    pub fn new(artifact: NodeArtifact) -> (r: InstallFlow)
        ensures
            r@.phase == InstallPhase::Begin,
            r@.artifact == artifact@,
            r@.archive_url == NODE_DIST_BASE_URL@ + "/"@ + artifact@.filename,
            r@.progress == (DownloadProgress { downloaded: 0, total: None }),
            r@.written == Seq::<u64>::empty(),
    {
        let archive_url = artifact.archive_url();
        InstallFlow {
            phase: InstallPhase::Begin,
            artifact,
            archive_url,
            progress: DownloadProgress::start(None),
            expected: String::new(),
            actual: String::new(),
            node_path: String::new(),
            checksum_list: Ghost(Seq::empty()),
            written: Ghost(Seq::empty()),
        }
    }

    /// The flow's phase.
    pub fn phase(&self) -> (r: InstallPhase)
        ensures
            r == self@.phase,
    {
        self.phase
    }

    /// Whether answering `ev` now keeps the byte count within `u64`.
    pub fn step_fits(&self, ev: &InstallEvent) -> (r: bool)
        ensures
            r == install_step_fits(self@, ev@),
    {
        match (self.phase, ev) {
            (InstallPhase::AwaitWrite(len), InstallEvent::Done) => len <= u64::MAX
                - self.progress.downloaded,
            _ => true,
        }
    }

    /// Takes the answer `ev` and gives the actions to perform next.
    pub fn step(&mut self, ev: InstallEvent) -> (r: Vec<InstallAction>)
        requires
            install_step_fits(old(self)@, ev@),
        ensures
            final(self)@ == install_step(old(self)@, ev@).0,
            install_action_views(r@) == install_step(old(self)@, ev@).1,
    {
        let mut acts: Vec<InstallAction> = Vec::new();
        match (self.phase, ev) {
            (InstallPhase::Begin, InstallEvent::Start) => {
                self.phase = InstallPhase::AwaitPrepare;
                let mut m = String::from_str("Download Node ");
                m.append(NODE_VERSION);
                m.append(" (");
                m.append(self.artifact.platform_tag.as_str());
                m.append(")");
                acts.push(InstallAction::Log(m));
                acts.push(InstallAction::PrepareDownloads);
            },
            (InstallPhase::AwaitPrepare, InstallEvent::Done) => {
                self.phase = InstallPhase::AwaitResponse;
                acts.push(InstallAction::Fetch(self.archive_url.clone()));
            },
            (InstallPhase::AwaitResponse, InstallEvent::Response { total }) => {
                self.phase = InstallPhase::AwaitCreate;
                self.progress = DownloadProgress::start(total);
                self.written = Ghost(Seq::empty());
                let mut m = String::from_str("Downloading: ");
                m.append(self.archive_url.as_str());
                match total {
                    Some(t) => {
                        m.append(" (");
                        push_decimal(&mut m, t);
                        m.append(" bytes)");
                    },
                    None => {
                        m.append(" (unknown size)");
                    },
                }
                acts.push(InstallAction::Log(m));
                acts.push(InstallAction::CreateArchive);
            },
            (InstallPhase::AwaitCreate, InstallEvent::Done) => {
                self.phase = InstallPhase::AwaitChunk;
                acts.push(InstallAction::ReadChunk);
            },
            (InstallPhase::AwaitChunk, InstallEvent::Chunk { len }) => {
                self.phase = InstallPhase::AwaitWrite(len);
                acts.push(InstallAction::WriteChunk);
            },
            (InstallPhase::AwaitChunk, InstallEvent::EndOfBody) => {
                self.phase = InstallPhase::AwaitFlush;
                acts.push(InstallAction::FlushArchive);
            },
            (InstallPhase::AwaitWrite(len), InstallEvent::Done) => {
                self.phase = InstallPhase::AwaitChunk;
                self.progress.advance(len);
                self.written = Ghost(self.written@.push(len));
                acts.push(InstallAction::Progress(self.progress));
                acts.push(InstallAction::ReadChunk);
            },
            (InstallPhase::AwaitFlush, InstallEvent::Done) => {
                self.phase = InstallPhase::AwaitChecksums;
                let mut m = String::from_str("Download done: ");
                push_decimal(&mut m, self.progress.downloaded);
                m.append(" bytes");
                acts.push(InstallAction::Log(m));
                acts.push(log_lit("Resolve SHA256 from SHASUMS256.txt…"));
                acts.push(InstallAction::FetchChecksums(shasums_url()));
            },
            (InstallPhase::AwaitChecksums, InstallEvent::ChecksumList(body)) => {
                match resolve_expected_sha256(body.as_str(), self.artifact.filename.as_str()) {
                    Ok(sha) => {
                        self.phase = InstallPhase::AwaitHash;
                        self.checksum_list = Ghost(body@);
                        let mut m = String::from_str("Verify SHA256… expected=");
                        m.append(sha.as_str());
                        self.expected = sha;
                        acts.push(InstallAction::Log(m));
                        acts.push(InstallAction::HashArchive);
                    },
                    Err(e) => {
                        self.phase = InstallPhase::Finished;
                        acts.push(InstallAction::Fail(e));
                    },
                }
            },
            (InstallPhase::AwaitHash, InstallEvent::ArchiveHash(h)) => {
                if checksums_match(h.as_str(), self.expected.as_str()) {
                    self.phase = InstallPhase::AwaitReset;
                    self.actual = h;
                    acts.push(log_lit("SHA256 OK"));
                    acts.push(InstallAction::ResetInstallDir);
                } else {
                    self.phase = InstallPhase::Finished;
                    let mut m = String::from_str("SHA256 mismatch, expected=");
                    m.append(self.expected.as_str());
                    m.append(" got=");
                    m.append(h.as_str());
                    acts.push(InstallAction::RemoveArchive);
                    acts.push(InstallAction::Log(m));
                    acts.push(
                        InstallAction::Fail(
                            RuntimeError::ChecksumMismatch {
                                expected: self.expected.clone(),
                                actual: h.clone(),
                            },
                        ),
                    );
                    self.actual = h;
                }
            },
            (InstallPhase::AwaitReset, InstallEvent::Done) => {
                self.phase = InstallPhase::AwaitExtract;
                acts.push(log_lit("Extracting…"));
                acts.push(InstallAction::Extract(self.artifact.kind));
            },
            (InstallPhase::AwaitExtract, InstallEvent::Done) => {
                self.phase = InstallPhase::AwaitNode;
                acts.push(log_lit("Extract done"));
                acts.push(InstallAction::LocateNode);
            },
            (InstallPhase::AwaitNode, InstallEvent::NodeBinary { exists, path }) => {
                if exists {
                    self.phase = InstallPhase::AwaitVersion;
                    self.node_path = path;
                    acts.push(InstallAction::QueryVersion);
                } else {
                    self.phase = InstallPhase::Finished;
                    acts.push(InstallAction::Fail(RuntimeError::NodeBinaryMissing { path }));
                }
            },
            (InstallPhase::AwaitVersion, InstallEvent::Version(v)) => {
                self.phase = InstallPhase::AwaitFinalVersion;
                match v {
                    Some(version) => {
                        let mut m = String::from_str("Installed: ");
                        m.append(version.as_str());
                        m.append(" (");
                        m.append(self.node_path.as_str());
                        m.append(")");
                        acts.push(InstallAction::Log(m));
                    },
                    None => {},
                }
                acts.push(InstallAction::QueryVersion);
            },
            (InstallPhase::AwaitFinalVersion, InstallEvent::Version(v)) => {
                self.phase = InstallPhase::Finished;
                let status = NodeRuntimeStatus {
                    installed: true,
                    node_path: Some(self.node_path.clone()),
                    version: v,
                    server_running: false,
                    server_port: DEFAULT_SERVER_PORT,
                };
                acts.push(InstallAction::Finish(status));
            },
            (InstallPhase::Begin, _) => {},
            (InstallPhase::Finished, _) => {},
            (_, InstallEvent::Failed(e)) => {
                self.phase = InstallPhase::Finished;
                acts.push(InstallAction::Fail(e));
            },
            _ => {},
        }
        acts
    }
}


// ---------------------------------------------------------------------------------------
// Laws
// ---------------------------------------------------------------------------------------

/// The archive's computed checksum agrees, letter case aside, with the one that the
/// downloaded checksum list publishes for it.
pub open spec fn checksum_confirmed(s: InstallFlowView) -> bool {
    &&& published_checksum(s.checksum_list, s.artifact.filename) == Some(s.expected)
    &&& lowercase(s.actual) == lowercase(s.expected)
}

/// Whether the flow is past the checksum check.
pub open spec fn past_check(p: InstallPhase) -> bool {
    ||| p == InstallPhase::AwaitReset
    ||| p == InstallPhase::AwaitExtract
    ||| p == InstallPhase::AwaitNode
    ||| p == InstallPhase::AwaitVersion
    ||| p == InstallPhase::AwaitFinalVersion
}

/// The sum of `lens`.
pub open spec fn total_len(lens: Seq<u64>) -> nat
    decreases lens.len(),
{
    if lens.len() == 0 {
        0
    } else {
        total_len(lens.drop_last()) + lens.last() as nat
    }
}

/// What every state of the flow satisfies: the download's byte count is the sum of the
/// chunks written; while hashing, the expected checksum is the published one; past the
/// check, the checksums agree.
pub open spec fn install_inv(s: InstallFlowView) -> bool {
    &&& s.progress.downloaded == total_len(s.written)
    &&& s.phase == InstallPhase::AwaitHash ==> published_checksum(s.checksum_list, s.artifact.filename)
        == Some(s.expected)
    &&& past_check(s.phase) ==> checksum_confirmed(s)
}

/// Whether the action ends the flow.
pub open spec fn install_terminal(a: InstallActionView) -> bool {
    a is Finish || a is Fail
}

/// Whether the application answers the action with an event.
pub open spec fn install_awaits(a: InstallActionView) -> bool {
    ||| a is PrepareDownloads
    ||| a is Fetch
    ||| a is CreateArchive
    ||| a is ReadChunk
    ||| a is WriteChunk
    ||| a is FlushArchive
    ||| a is FetchChecksums
    ||| a is HashArchive
    ||| a is ResetInstallDir
    ||| a is Extract
    ||| a is LocateNode
    ||| a is QueryVersion
}

/// Whether `acts` extracts an archive.
pub open spec fn extracts(acts: Seq<InstallActionView>) -> bool {
    exists|i: int| 0 <= i < acts.len() && (#[trigger] acts[i]) is Extract
}

/// Whether `acts` reports a finished install.
pub open spec fn reports_installed(acts: Seq<InstallActionView>) -> bool {
    exists|i: int| 0 <= i < acts.len() && (#[trigger] acts[i]) is Finish
}

/// The flow at its start satisfies the invariant.
pub proof fn law_install_inv_at_start(s: InstallFlowView)
    requires
        s.phase == InstallPhase::Begin,
        s.progress.downloaded == 0,
        s.written == Seq::<u64>::empty(),
    ensures
        install_inv(s),
{
}

/// Every step keeps the invariant.
pub proof fn law_install_inv_kept(s: InstallFlowView, ev: InstallEventView)
    requires
        install_inv(s),
        install_step_fits(s, ev),
    ensures
        install_inv(install_step(s, ev).0),
{
    if let InstallPhase::AwaitWrite(len) = s.phase {
        assert(s.written.push(len).drop_last() =~= s.written);
    }
}

/// Recording a written chunk asks for exactly one progress report, then for the next
/// chunk: the report carries the byte count grown by the chunk's length and the announced
/// total as it was, `None` when none was announced.
pub proof fn law_install_reports_progress_for_every_chunk(s: InstallFlowView, len: u64)
    requires
        s.phase == InstallPhase::AwaitWrite(len),
        s.progress.downloaded + len <= u64::MAX,
    ensures
        ({
            let (s1, acts) = install_step(s, InstallEventView::Done);
            &&& acts.len() == 2
            &&& acts[0] matches InstallActionView::Progress(p) && p.downloaded
                == s.progress.downloaded + len && p.total == s.progress.total
            &&& acts[1] == InstallActionView::ReadChunk
            &&& s1.phase == InstallPhase::AwaitChunk
            &&& s1.progress.downloaded == s.progress.downloaded + len
            &&& s1.progress.total == s.progress.total
        }),
{
}

/// Every progress report counts exactly the bytes of all chunks written so far.
pub proof fn law_install_progress_counts_written_bytes(s: InstallFlowView, ev: InstallEventView)
    requires
        install_inv(s),
        install_step_fits(s, ev),
    ensures
        forall|i: int|
            0 <= i < install_step(s, ev).1.len() ==> (#[trigger] install_step(s, ev).1[i] matches InstallActionView::Progress(p)
                ==> p.downloaded == total_len(install_step(s, ev).0.written)),
{
    law_install_inv_kept(s, ev);
}

/// The archive is extracted, and the install reported finished, only when its checksum
/// agrees with the published one; extraction uses the archive's own packing.
pub proof fn law_install_extracts_only_verified_archive(s: InstallFlowView, ev: InstallEventView)
    requires
        install_inv(s),
    ensures
        extracts(install_step(s, ev).1) ==> checksum_confirmed(s) && s.phase
            == InstallPhase::AwaitReset && install_step(s, ev).1.last()
            == InstallActionView::Extract(s.artifact.kind),
        reports_installed(install_step(s, ev).1) ==> checksum_confirmed(s),
{
}

/// Every step ignores its event, changing nothing, or asks for actions that end with one
/// action awaiting an answer or ending the flow, no other action doing either.
pub proof fn law_install_steps_well_formed(s: InstallFlowView, ev: InstallEventView)
    ensures
        install_step(s, ev).1.len() == 0 ==> install_step(s, ev).0 == s,
        install_step(s, ev).1.len() > 0 ==> {
            let acts = install_step(s, ev).1;
            &&& install_awaits(acts.last()) || install_terminal(acts.last())
            &&& forall|i: int|
                0 <= i < acts.len() - 1 ==> !install_awaits(#[trigger] acts[i])
                    && !install_terminal(acts[i])
        },
{
}

/// The install flow from `s` through the events `evs`: the final state and all actions.
pub open spec fn install_run(s: InstallFlowView, evs: Seq<InstallEventView>) -> (InstallFlowView, Seq<
    InstallActionView,
>)
    decreases evs.len(),
{
    if evs.len() == 0 {
        (s, seq![])
    } else {
        let (s1, a1) = install_step(s, evs[0]);
        let (s2, a2) = install_run(s1, evs.drop_first());
        (s2, a1 + a2)
    }
}

proof fn lemma_install_finished_absorbs(s: InstallFlowView, evs: Seq<InstallEventView>)
    requires
        s.phase == InstallPhase::Finished,
    ensures
        install_run(s, evs) == (s, Seq::<InstallActionView>::empty()),
    decreases evs.len(),
{
    if evs.len() > 0 {
        lemma_install_finished_absorbs(s, evs.drop_first());
        assert(install_step(s, evs[0]).1 =~= Seq::<InstallActionView>::empty());
    }
}

/// An archive whose checksum disagrees with the published one is deleted and the install
/// fails with both checksums; nothing is extracted, whatever follows.
pub proof fn law_install_rejects_corrupt_archive(
    s: InstallFlowView,
    hash: Seq<char>,
    evs: Seq<InstallEventView>,
)
    requires
        s.phase == InstallPhase::AwaitHash,
        lowercase(hash) != lowercase(s.expected),
    ensures
        install_run(s, seq![InstallEventView::ArchiveHash(hash)] + evs).1 == seq![
            InstallActionView::RemoveArchive,
            InstallActionView::Log(mismatch_text(s.expected, hash)),
            InstallActionView::Fail(
                RuntimeErrorView::ChecksumMismatch { expected: s.expected, actual: hash },
            ),
        ],
{
    let all = seq![InstallEventView::ArchiveHash(hash)] + evs;
    assert(all.drop_first() =~= evs);
    lemma_install_finished_absorbs(install_step(s, all[0]).0, evs);
}

/// A checksum list that publishes no checksum for the archive ends the install with that
/// error, and nothing else happens.
pub proof fn law_install_needs_published_checksum(
    s: InstallFlowView,
    body: Seq<char>,
    evs: Seq<InstallEventView>,
)
    requires
        s.phase == InstallPhase::AwaitChecksums,
        published_checksum(body, s.artifact.filename) is None,
    ensures
        install_run(s, seq![InstallEventView::ChecksumList(body)] + evs).1 == seq![
            InstallActionView::Fail(
                RuntimeErrorView::ChecksumNotFound { filename: s.artifact.filename },
            ),
        ],
{
    let all = seq![InstallEventView::ChecksumList(body)] + evs;
    assert(all.drop_first() =~= evs);
    lemma_install_finished_absorbs(install_step(s, all[0]).0, evs);
}

} // verus!

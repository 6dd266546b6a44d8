//! What the front end is told about the runtime and about a download.
use vstd::prelude::*;
use crate::text::{chars_of, string_of_range, trim, trim_bounds};

verus! {

/// The port the bundled server listens on.
pub const DEFAULT_SERVER_PORT: u16 = 3179;

/// State of the private Node runtime and of its server.
pub struct NodeRuntimeStatus {
    pub installed: bool,
    pub node_path: Option<String>,
    pub version: Option<String>,
    pub server_running: bool,
    pub server_port: u16,
}

/// The value of a [`NodeRuntimeStatus`], with texts as character sequences.
pub struct NodeRuntimeStatusView {
    pub installed: bool,
    pub node_path: Option<Seq<char>>,
    pub version: Option<Seq<char>>,
    pub server_running: bool,
    pub server_port: u16,
}

impl View for NodeRuntimeStatus {
    type V = NodeRuntimeStatusView;

    open spec fn view(&self) -> NodeRuntimeStatusView {
        NodeRuntimeStatusView {
            installed: self.installed,
            node_path: self.node_path.deep_view(),
            version: self.version.deep_view(),
            server_running: self.server_running,
            server_port: self.server_port,
        }
    }
}

/// The status reported after probing: the node binary at `node_path` exists or not, its
/// version query answered `version`, and the server is running or not. Path and version
/// are reported only for an installed runtime.
pub open spec fn probed_status(
    installed: bool,
    node_path: Seq<char>,
    version: Option<Seq<char>>,
    server_running: bool,
) -> NodeRuntimeStatusView {
    NodeRuntimeStatusView {
        installed,
        node_path: if installed {
            Some(node_path)
        } else {
            None
        },
        version: if installed {
            version
        } else {
            None
        },
        server_running,
        server_port: DEFAULT_SERVER_PORT,
    }
}

impl NodeRuntimeStatus {
    /// The status from the results of probing the installation and the server.
    pub fn from_probe(
        installed: bool,
        node_path: String,
        version: Option<String>,
        server_running: bool,
    ) -> (r: NodeRuntimeStatus)
        ensures
            r@ == probed_status(installed, node_path@, version.deep_view(), server_running),
    {
        NodeRuntimeStatus {
            installed,
            node_path: if installed {
                Some(node_path)
            } else {
                None
            },
            version: if installed {
                version
            } else {
                None
            },
            server_running,
            server_port: DEFAULT_SERVER_PORT,
        }
    }
}

/// Progress of an archive download: bytes received so far, and the announced size.
#[derive(Clone, Copy, PartialEq, Eq, Structural, Debug)]
pub struct DownloadProgress {
    pub downloaded: u64,
    pub total: Option<u64>,
}

impl DownloadProgress {
    /// No byte received yet of a download whose announced size is `total`.
    pub fn start(total: Option<u64>) -> (r: DownloadProgress)
        ensures
            r.downloaded == 0,
            r.total == total,
    {
        DownloadProgress { downloaded: 0, total }
    }

    /// Records a received chunk of `len` bytes.
    pub fn advance(&mut self, len: u64)
        requires
            old(self).downloaded + len <= u64::MAX,
        ensures
            final(self).downloaded == old(self).downloaded + len,
            final(self).total == old(self).total,
    {
        self.downloaded = self.downloaded + len;
    }
}


/// The status of an installed runtime carries the probed path and version whether or not
/// the server runs; a missing runtime is reported without path and version. Whether the
/// server runs changes nothing but the `server_running` field, and the port is always
/// the default one.
pub proof fn law_status_reports_probe(
    installed: bool,
    node_path: Seq<char>,
    version: Option<Seq<char>>,
    running: bool,
    other_running: bool,
)
    ensures
        ({
            let st = probed_status(installed, node_path, version, running);
            let other = probed_status(installed, node_path, version, other_running);
            &&& st.installed == installed
            &&& installed ==> st.node_path == Some(node_path) && st.version == version
            &&& !installed ==> st.node_path is None && st.version is None
            &&& st.server_running == running
            &&& st.server_port == 3179
            &&& other.version == st.version && other.node_path == st.node_path
            &&& other.installed == st.installed
        }),
{
}

/// The version that `node -v` reported: its trimmed output, when it succeeded and printed
/// something.
pub open spec fn reported_version(success: bool, stdout: Seq<char>) -> Option<Seq<char>> {
    if success && trim(stdout).len() > 0 {
        Some(trim(stdout))
    } else {
        None
    }
}

/// The version from the exit status and the output of `node -v`.
pub fn version_from_output(success: bool, stdout: &str) -> (r: Option<String>)
    ensures
        r.deep_view() == reported_version(success, stdout@),
{
    if !success {
        return None;
    }
    let v = chars_of(stdout);
    let (a, b) = trim_bounds(&v, 0, v.len());
    assert(v@.subrange(0, v@.len() as int) =~= v@);
    if a == b {
        None
    } else {
        Some(string_of_range(&v, a, b))
    }
}

} // verus!

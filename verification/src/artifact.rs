//! The Node.js distribution that this application installs, and which archive of it
//! fits the machine.
use vstd::prelude::*;
use crate::error::{RuntimeError, RuntimeErrorView};
use crate::text::str_eq;

verus! {

/// Version of the private Node.js runtime.
pub const NODE_VERSION: &'static str = "v20.18.1";

/// Directory of the official distribution that holds the archives.
pub const NODE_DIST_BASE_URL: &'static str = "https://nodejs.org/dist/v20.18.1";

/// URL of the checksum list of the distribution.
pub fn shasums_url() -> (r: String)
    ensures
        r@ == NODE_DIST_BASE_URL@ + "/SHASUMS256.txt"@,
{
    let mut r = String::from_str(NODE_DIST_BASE_URL);
    r.append("/SHASUMS256.txt");
    r
}

/// How an archive of the distribution is packed.
#[derive(Clone, Copy, PartialEq, Eq, Structural, Debug)]
pub enum ArchiveKind {
    TarGz,
    TarXz,
    Zip,
}

/// The archive of the distribution for one platform.
pub struct NodeArtifact {
    /// File name of the archive in the distribution directory.
    pub filename: String,
    /// Path of the node binary inside the extracted archive.
    pub node_bin_relpath: String,
    pub kind: ArchiveKind,
    /// The distribution's name for the platform, such as `linux-x64`.
    pub platform_tag: String,
}

/// The value of a [`NodeArtifact`], with texts as character sequences.
pub struct NodeArtifactView {
    pub filename: Seq<char>,
    pub node_bin_relpath: Seq<char>,
    pub kind: ArchiveKind,
    pub platform_tag: Seq<char>,
}

impl View for NodeArtifact {
    type V = NodeArtifactView;

    open spec fn view(&self) -> NodeArtifactView {
        NodeArtifactView {
            filename: self.filename@,
            node_bin_relpath: self.node_bin_relpath@,
            kind: self.kind,
            platform_tag: self.platform_tag@,
        }
    }
}

/// The distribution's platform name and archive packing for an operating system and
/// architecture as Rust names them (`std::env::consts::OS` and `ARCH`); `None` for a
/// platform without a distribution.
pub open spec fn platform_for(os: Seq<char>, arch: Seq<char>) -> Option<(Seq<char>, ArchiveKind)> {
    if os == "macos"@ && arch == "aarch64"@ {
        Some(("darwin-arm64"@, ArchiveKind::TarGz))
    } else if os == "macos"@ && arch == "x86_64"@ {
        Some(("darwin-x64"@, ArchiveKind::TarGz))
    } else if os == "linux"@ && arch == "x86_64"@ {
        Some(("linux-x64"@, ArchiveKind::TarXz))
    } else if os == "linux"@ && arch == "aarch64"@ {
        Some(("linux-arm64"@, ArchiveKind::TarXz))
    } else if os == "windows"@ && arch == "x86_64"@ {
        Some(("win-x64"@, ArchiveKind::Zip))
    } else if os == "windows"@ && arch == "aarch64"@ {
        Some(("win-arm64"@, ArchiveKind::Zip))
    } else {
        None
    }
}

/// Name of the top directory inside the archive for platform `tag`.
pub open spec fn artifact_dirname(tag: Seq<char>) -> Seq<char> {
    "node-"@ + NODE_VERSION@ + "-"@ + tag
}

/// File name extension of an archive packed as `kind`.
pub open spec fn archive_extension(kind: ArchiveKind) -> Seq<char> {
    match kind {
        ArchiveKind::TarGz => ".tar.gz"@,
        ArchiveKind::TarXz => ".tar.xz"@,
        ArchiveKind::Zip => ".zip"@,
    }
}

/// The archive for an operating system and architecture, `None` where there is none.
pub open spec fn artifact_for(os: Seq<char>, arch: Seq<char>) -> Option<NodeArtifactView> {
    match platform_for(os, arch) {
        Some((tag, kind)) => Some(
            NodeArtifactView {
                filename: artifact_dirname(tag) + archive_extension(kind),
                node_bin_relpath: if os == "windows"@ {
                    artifact_dirname(tag) + "/node.exe"@
                } else {
                    artifact_dirname(tag) + "/bin/node"@
                },
                kind,
                platform_tag: tag,
            },
        ),
        None => None,
    }
}

/// The archive for the operating system `os` and architecture `arch`, or the error that
/// the platform is unsupported.
pub fn node_artifact(os: &str, arch: &str) -> (r: Result<NodeArtifact, RuntimeError>)
    ensures
        match r {
            Ok(a) => artifact_for(os@, arch@) == Some(a@),
            Err(e) => artifact_for(os@, arch@) is None && e@ == (RuntimeErrorView::UnsupportedPlatform {
                os: os@,
                arch: arch@,
            }),
        },
{
    let macos = str_eq(os, "macos");
    let linux = str_eq(os, "linux");
    let windows = str_eq(os, "windows");
    let aarch64 = str_eq(arch, "aarch64");
    let x86_64 = str_eq(arch, "x86_64");
    let (tag, kind) = if macos && aarch64 {
        ("darwin-arm64", ArchiveKind::TarGz)
    } else if macos && x86_64 {
        ("darwin-x64", ArchiveKind::TarGz)
    } else if linux && x86_64 {
        ("linux-x64", ArchiveKind::TarXz)
    } else if linux && aarch64 {
        ("linux-arm64", ArchiveKind::TarXz)
    } else if windows && x86_64 {
        ("win-x64", ArchiveKind::Zip)
    } else if windows && aarch64 {
        ("win-arm64", ArchiveKind::Zip)
    } else {
        return Err(
            RuntimeError::UnsupportedPlatform {
                os: String::from_str(os),
                arch: String::from_str(arch),
            },
        );
    };
    let mut dirname = String::from_str("node-");
    dirname.append(NODE_VERSION);
    dirname.append("-");
    dirname.append(tag);
    let mut filename = dirname.clone();
    match kind {
        ArchiveKind::TarGz => filename.append(".tar.gz"),
        ArchiveKind::TarXz => filename.append(".tar.xz"),
        ArchiveKind::Zip => filename.append(".zip"),
    }
    let mut node_bin_relpath = dirname.clone();
    if windows {
        node_bin_relpath.append("/node.exe");
    } else {
        node_bin_relpath.append("/bin/node");
    }
    Ok(NodeArtifact { filename, node_bin_relpath, kind, platform_tag: String::from_str(tag) })
}

impl NodeArtifact {
    /// URL of this archive in the distribution.
    pub fn archive_url(&self) -> (r: String)
        ensures
            r@ == NODE_DIST_BASE_URL@ + "/"@ + self.filename@,
    {
        let mut r = String::from_str(NODE_DIST_BASE_URL);
        r.append("/");
        r.append(self.filename.as_str());
        r
    }
}

} // verus!

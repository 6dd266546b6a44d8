//! Errors that the runtime management reports to the front end.
use vstd::prelude::*;
use crate::text::{decimal, push_decimal};

verus! {

/// Why an operation on the Node runtime failed.
pub enum RuntimeError {
    /// The machine's operating system and architecture have no Node distribution.
    UnsupportedPlatform { os: String, arch: String },
    /// The checksum list of the distribution names no checksum for the archive.
    ChecksumNotFound { filename: String },
    /// The downloaded archive does not have the published checksum.
    ChecksumMismatch { expected: String, actual: String },
    /// The extracted archive holds no node binary at the expected place.
    NodeBinaryMissing { path: String },
    /// The server cannot start because no runtime is installed.
    NotInstalled,
    /// The server port is taken by another process.
    PortInUse { port: u16 },
    /// A file system operation failed, with the system's message.
    Io { message: String },
    /// Another outside operation (network, task, archive) failed, with its message.
    Other { message: String },
}

/// The value of a [`RuntimeError`], with texts as character sequences.
pub enum RuntimeErrorView {
    UnsupportedPlatform { os: Seq<char>, arch: Seq<char> },
    ChecksumNotFound { filename: Seq<char> },
    ChecksumMismatch { expected: Seq<char>, actual: Seq<char> },
    NodeBinaryMissing { path: Seq<char> },
    NotInstalled,
    PortInUse { port: u16 },
    Io { message: Seq<char> },
    Other { message: Seq<char> },
}

impl View for RuntimeError {
    type V = RuntimeErrorView;

    open spec fn view(&self) -> RuntimeErrorView {
        match self {
            RuntimeError::UnsupportedPlatform { os, arch } => RuntimeErrorView::UnsupportedPlatform {
                os: os@,
                arch: arch@,
            },
            RuntimeError::ChecksumNotFound { filename } => RuntimeErrorView::ChecksumNotFound {
                filename: filename@,
            },
            RuntimeError::ChecksumMismatch { expected, actual } =>
                RuntimeErrorView::ChecksumMismatch { expected: expected@, actual: actual@ },
            RuntimeError::NodeBinaryMissing { path } => RuntimeErrorView::NodeBinaryMissing {
                path: path@,
            },
            RuntimeError::NotInstalled => RuntimeErrorView::NotInstalled,
            RuntimeError::PortInUse { port } => RuntimeErrorView::PortInUse { port: *port },
            RuntimeError::Io { message } => RuntimeErrorView::Io { message: message@ },
            RuntimeError::Other { message } => RuntimeErrorView::Other { message: message@ },
        }
    }
}

/// The text shown to the user for an error.
pub open spec fn error_text(e: RuntimeErrorView) -> Seq<char> {
    match e {
        RuntimeErrorView::UnsupportedPlatform { os, arch } => "unsupported platform: os="@ + os
            + " arch="@ + arch,
        RuntimeErrorView::ChecksumNotFound { filename } => "sha256 not found in SHASUMS256.txt for "@
            + filename,
        RuntimeErrorView::ChecksumMismatch { expected, actual } =>
            "node archive sha256 mismatch: expected "@ + expected + ", got "@ + actual,
        RuntimeErrorView::NodeBinaryMissing { path } => "node binary not found after extract: "@
            + path,
        RuntimeErrorView::NotInstalled => "node runtime not installed"@,
        RuntimeErrorView::PortInUse { port } => "port "@ + decimal(port as nat)
            + " is already in use"@,
        RuntimeErrorView::Io { message } => message,
        RuntimeErrorView::Other { message } => message,
    }
}

impl RuntimeError {
    /// The text shown to the user for this error.
    pub fn message(&self) -> (r: String)
        ensures
            r@ == error_text(self@),
    {
        match self {
            RuntimeError::UnsupportedPlatform { os, arch } => {
                let mut r = String::from_str("unsupported platform: os=");
                r.append(os.as_str());
                r.append(" arch=");
                r.append(arch.as_str());
                r
            },
            RuntimeError::ChecksumNotFound { filename } => {
                let mut r = String::from_str("sha256 not found in SHASUMS256.txt for ");
                r.append(filename.as_str());
                r
            },
            RuntimeError::ChecksumMismatch { expected, actual } => {
                let mut r = String::from_str("node archive sha256 mismatch: expected ");
                r.append(expected.as_str());
                r.append(", got ");
                r.append(actual.as_str());
                r
            },
            RuntimeError::NodeBinaryMissing { path } => {
                let mut r = String::from_str("node binary not found after extract: ");
                r.append(path.as_str());
                r
            },
            RuntimeError::NotInstalled => String::from_str("node runtime not installed"),
            RuntimeError::PortInUse { port } => {
                let mut r = String::from_str("port ");
                push_decimal(&mut r, *port as u64);
                r.append(" is already in use");
                r
            },
            RuntimeError::Io { message } => message.clone(),
            RuntimeError::Other { message } => message.clone(),
        }
    }
}

} // verus!

//! The failures that the provisioning operations report.

use vstd::prelude::*;
use crate::text::concat;

verus! {

/// A typed failure of one provisioning step.
#[derive(Debug, Clone, PartialEq, Eq)]
pub enum InstallError {
    /// The host reported a machine name that maps to no supported architecture.
    UnsupportedArchitecture(String),
    /// No catalog entry or built-in mirror exists under this name.
    UnknownDistro(String),
    /// An instance directory with this ID is already present.
    SystemAlreadyExists(String),
    /// The transfer failed or left no file behind; holds the source URL.
    DownloadFailed(String),
    /// The extraction process reported failure.
    ExtractionFailed,
    /// Extraction finished but a required top-level path is missing.
    CorruptArchive,
    /// No instance directory exists with this ID.
    SystemNotFound(String),
    /// The configuration file could not be read or written.
    ConfigIOError(String),
}

/// The one-line description of each failure.
pub open spec fn error_text(e: InstallError) -> Seq<char> {
    match e {
        InstallError::UnsupportedArchitecture(a) => "Unsupported architecture: "@ + a@,
        InstallError::UnknownDistro(d) => "未找到 "@ + d@ + " 的镜像源配置"@,
        InstallError::SystemAlreadyExists(id) => "System already exists: "@ + id@,
        InstallError::DownloadFailed(url) => "Download failed: "@ + url@,
        InstallError::ExtractionFailed => "Extraction failed"@,
        InstallError::CorruptArchive => "Extraction left no bin directory"@,
        InstallError::SystemNotFound(id) => "System not found: "@ + id@,
        InstallError::ConfigIOError(m) => "Config I/O error: "@ + m@,
    }
}

impl InstallError {
    /// A one-line human-readable description.
    pub fn to_string(&self) -> (r: String)
        ensures
            r@ == error_text(*self),
            r@.len() > 0,
    {
        let r = match self {
            InstallError::UnsupportedArchitecture(a) => concat("Unsupported architecture: ", a.as_str()),
            InstallError::UnknownDistro(d) => {
                let head = concat("未找到 ", d.as_str());
                concat(head.as_str(), " 的镜像源配置")
            },
            InstallError::SystemAlreadyExists(id) => concat("System already exists: ", id.as_str()),
            InstallError::DownloadFailed(url) => concat("Download failed: ", url.as_str()),
            InstallError::ExtractionFailed => String::from_str("Extraction failed"),
            InstallError::CorruptArchive => String::from_str("Extraction left no bin directory"),
            InstallError::SystemNotFound(id) => concat("System not found: ", id.as_str()),
            InstallError::ConfigIOError(m) => concat("Config I/O error: ", m.as_str()),
        };
        proof {
            reveal_strlit("Unsupported architecture: ");
            reveal_strlit("未找到 ");
            reveal_strlit(" 的镜像源配置");
            reveal_strlit("System already exists: ");
            reveal_strlit("Download failed: ");
            reveal_strlit("Extraction failed");
            reveal_strlit("Extraction left no bin directory");
            reveal_strlit("System not found: ");
            reveal_strlit("Config I/O error: ");
        }
        r
    }
}

} // verus!

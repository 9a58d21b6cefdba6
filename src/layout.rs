//! Where everything lives: the application directory, the runtime's
//! directories and archive, the bundle's directory and archive, and the
//! addresses they are downloaded from.

use vstd::prelude::*;
use crate::install::{InstallTarget, TargetKind};
use crate::text::{join_path, joined, same_text};

verus! {

/// The operating systems the runtime is published for.
#[derive(Clone, Copy, Debug, PartialEq, Eq)]
pub enum HostOs {
    Windows,
    MacOs,
    Linux,
    Other,
}

/// The operating system named as Rust names it (`"windows"`, `"macos"`, `"linux"`).
pub open spec fn os_named(name: Seq<char>) -> HostOs {
    if name == "windows"@ {
        HostOs::Windows
    } else if name == "macos"@ {
        HostOs::MacOs
    } else if name == "linux"@ {
        HostOs::Linux
    } else {
        HostOs::Other
    }
}

/// Reads an operating system's name.
pub fn host_os(name: &str) -> (r: HostOs)
    ensures
        r == os_named(name@),
{
    if same_text(name, "windows") {
        HostOs::Windows
    } else if same_text(name, "macos") {
        HostOs::MacOs
    } else if same_text(name, "linux") {
        HostOs::Linux
    } else {
        HostOs::Other
    }
}

/// The build of the runtime to download, by system and pointer width.
pub open spec fn target_triple(os: HostOs, wide: bool) -> Seq<char> {
    match os {
        HostOs::Windows => "x86_64-pc-windows-msvc"@,
        HostOs::MacOs => if wide {
            "x86_64-apple-darwin"@
        } else {
            "aarch64-apple-darwin"@
        },
        HostOs::Linux => if wide {
            "x86_64-unknown-linux-gnu"@
        } else {
            "aarch64-unknown-linux-gnu"@
        },
        HostOs::Other => "x86_64-unknown-linux-gnu"@,
    }
}

/// The runtime build for the system; `wide` is a 64-bit pointer width.
pub fn os_target(os: HostOs, wide: bool) -> (r: String)
    ensures
        r@ == target_triple(os, wide),
{
    match os {
        HostOs::Windows => String::from_str("x86_64-pc-windows-msvc"),
        HostOs::MacOs => if wide {
            String::from_str("x86_64-apple-darwin")
        } else {
            String::from_str("aarch64-apple-darwin")
        },
        HostOs::Linux => if wide {
            String::from_str("x86_64-unknown-linux-gnu")
        } else {
            String::from_str("aarch64-unknown-linux-gnu")
        },
        HostOs::Other => String::from_str("x86_64-unknown-linux-gnu"),
    }
}

/// The runtime version that is installed.
pub open spec fn runtime_version() -> Seq<char> {
    "2.1.4"@
}

/// The application directory under the home directory, or under the
/// working directory when there is no home.
pub open spec fn app_dir_under(home: Option<Seq<char>>) -> Seq<char> {
    let base = match home {
        Some(h) => h,
        None => "."@,
    };
    joined(base, ".lobe_chat_client"@)
}

/// The directory that holds the bundle, the archives and the configuration.
pub fn application_dir(home: Option<&str>) -> (r: String)
    ensures
        r@ == app_dir_under(
            match home {
                Some(h) => Some(h@),
                None => None,
            },
        ),
{
    match home {
        Some(h) => join_path(h, ".lobe_chat_client"),
        None => join_path(".", ".lobe_chat_client"),
    }
}

/// Where the runtime archive is downloaded from.
pub open spec fn runtime_url_for(version: Seq<char>, triple: Seq<char>) -> Seq<char> {
    "https://ghp.ci/https://github.com/denoland/deno/releases/download/v"@ + version + "/deno-"@
        + triple + ".zip"@
}

/// The file name of the runtime archive.
pub open spec fn runtime_archive_name(version: Seq<char>, triple: Seq<char>) -> Seq<char> {
    "deno-"@ + version + "-"@ + triple + ".zip"@
}

/// The name of the bundle's directory; its archive adds `.zip`.
pub open spec fn bundle_name() -> Seq<char> {
    "lobe-chat_v1.36.11"@
}

/// Where the bundle archive is downloaded from.
pub open spec fn bundle_url() -> Seq<char> {
    "https://ghp.ci/"@
        + "https://github.com/ltaoo/LobeChatClient/releases/download/v1.36.11/lobe-chat_v1.36.11.zip"@
}

/// Every path and address the application works with.
#[derive(Clone, Debug, PartialEq, Eq)]
pub struct Layout {
    pub os_target: String,
    pub document_dir: String,
    pub runtime_version: String,
    pub runtime_dir: String,
    pub runtime_bin_dir: String,
    pub runtime_bin: String,
    pub runtime_archive: String,
    pub runtime_url: String,
    pub bundle_dir: String,
    pub bundle_archive: String,
    pub bundle_url: String,
}

impl Layout {
    /// The layout for a home directory, an application directory and a system.
    pub fn new(home: &str, document_dir: &str, os: HostOs, wide: bool) -> (r: Layout)
        ensures
            r.os_target@ == target_triple(os, wide),
            r.document_dir@ == document_dir@,
            r.runtime_version@ == runtime_version(),
            r.runtime_dir@ == home@ + "/.deno"@,
            r.runtime_bin_dir@ == joined(home@ + "/.deno"@, "bin"@),
            r.runtime_bin@ == joined(joined(home@ + "/.deno"@, "bin"@), "deno"@),
            r.runtime_archive@ == joined(
                document_dir@,
                runtime_archive_name(runtime_version(), target_triple(os, wide)),
            ),
            r.runtime_url@ == runtime_url_for(runtime_version(), target_triple(os, wide)),
            r.bundle_dir@ == joined(document_dir@, bundle_name()),
            r.bundle_archive@ == joined(document_dir@, bundle_name() + ".zip"@),
            r.bundle_url@ == bundle_url(),
    {
        let target = os_target(os, wide);
        let version = String::from_str("2.1.4");
        let mut runtime_dir = String::from_str(home);
        runtime_dir.append("/.deno");
        let runtime_bin_dir = join_path(runtime_dir.as_str(), "bin");
        let runtime_bin = join_path(runtime_bin_dir.as_str(), "deno");
        let mut archive_name = String::from_str("deno-");
        archive_name.append(version.as_str());
        archive_name.append("-");
        archive_name.append(target.as_str());
        archive_name.append(".zip");
        let runtime_archive = join_path(document_dir, archive_name.as_str());
        let mut runtime_url = String::from_str(
            "https://ghp.ci/https://github.com/denoland/deno/releases/download/v",
        );
        runtime_url.append(version.as_str());
        runtime_url.append("/deno-");
        runtime_url.append(target.as_str());
        runtime_url.append(".zip");
        let bundle_dir = join_path(document_dir, "lobe-chat_v1.36.11");
        let mut bundle_file = String::from_str("lobe-chat_v1.36.11");
        bundle_file.append(".zip");
        let bundle_archive = join_path(document_dir, bundle_file.as_str());
        let mut bundle_url = String::from_str("https://ghp.ci/");
        bundle_url.append(
            "https://github.com/ltaoo/LobeChatClient/releases/download/v1.36.11/lobe-chat_v1.36.11.zip",
        );
        Layout {
            os_target: target,
            document_dir: String::from_str(document_dir),
            runtime_version: version,
            runtime_dir,
            runtime_bin_dir,
            runtime_bin,
            runtime_archive,
            runtime_url,
            bundle_dir,
            bundle_archive,
            bundle_url,
        }
    }

    /// The directories that must exist before anything else runs.
    pub fn directories(&self) -> (r: Vec<String>)
        ensures
            r@ == seq![self.runtime_dir, self.runtime_bin_dir, self.document_dir],
    {
        let mut v: Vec<String> = Vec::new();
        v.push(self.runtime_dir.clone());
        v.push(self.runtime_bin_dir.clone());
        v.push(self.document_dir.clone());
        assert(v@ =~= seq![self.runtime_dir, self.runtime_bin_dir, self.document_dir]);
        v
    }

    /// The runtime: its binary marks it installed and is what ready reports;
    /// the archive unpacks into the binary's directory.
    pub open spec fn runtime_of(self) -> InstallTarget {
        InstallTarget {
            kind: TargetKind::Runtime,
            source_url: self.runtime_url,
            archive_path: self.runtime_archive,
            installed_path: self.runtime_bin,
            extract_dir: self.runtime_bin_dir,
        }
    }

    /// The runtime as an install target.
    pub fn runtime_target(&self) -> (r: InstallTarget)
        ensures
            r == self.runtime_of(),
    {
        InstallTarget {
            kind: TargetKind::Runtime,
            source_url: self.runtime_url.clone(),
            archive_path: self.runtime_archive.clone(),
            installed_path: self.runtime_bin.clone(),
            extract_dir: self.runtime_bin_dir.clone(),
        }
    }

    /// The bundle: its directory marks it installed and receives the archive.
    pub open spec fn bundle_of(self) -> InstallTarget {
        InstallTarget {
            kind: TargetKind::Bundle,
            source_url: self.bundle_url,
            archive_path: self.bundle_archive,
            installed_path: self.bundle_dir,
            extract_dir: self.bundle_dir,
        }
    }

    /// The bundle as an install target.
    pub fn bundle_target(&self) -> (r: InstallTarget)
        ensures
            r == self.bundle_of(),
    {
        InstallTarget {
            kind: TargetKind::Bundle,
            source_url: self.bundle_url.clone(),
            archive_path: self.bundle_archive.clone(),
            installed_path: self.bundle_dir.clone(),
            extract_dir: self.bundle_dir.clone(),
        }
    }
}

} // verus!

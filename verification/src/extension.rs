//! What the editor's extension decides when it starts the language server:
//! which binary to run, which release asset to install, which old installs
//! to clear away, and which arguments to pass.
//!
//! Everything here is a decision on values. Asking the editor, the network
//! and the file system is the caller's part.

use vstd::prelude::*;
use crate::text::decimal;
use crate::text::decimal_text;
use crate::text::has_prefix;
use crate::text::starts_with;
use crate::text::text_of;
use crate::text::texts;
use crate::text::texts_of;

verus! {

/// The name of the language server's binary, and the stem of everything that
/// is installed for it.
pub const SERVER_NAME: &'static str = "activitywatch-ls";

/// The repository whose releases hold the binary.
pub const REPOSITORY: &'static str = "sachk/aw-watcher-zed";

/// An operating system that the editor runs on.
#[derive(Clone, Copy, Debug, PartialEq, Eq, Structural)]
pub enum Os {
    Mac,
    Linux,
    Windows,
}

/// A processor architecture that the editor runs on.
#[derive(Clone, Copy, Debug, PartialEq, Eq, Structural)]
pub enum Architecture {
    Aarch64,
    X86,
    X8664,
}

/// How a release names the architecture; binaries exist for two of them.
pub open spec fn arch_name(arch: Architecture) -> Option<Seq<char>> {
    match arch {
        Architecture::Aarch64 => Some("aarch64"@),
        Architecture::X8664 => Some("x86_64"@),
        Architecture::X86 => None,
    }
}

/// How a release names the operating system.
pub open spec fn os_name(os: Os) -> Seq<char> {
    match os {
        Os::Mac => "apple-darwin"@,
        Os::Linux => "unknown-linux-gnu"@,
        Os::Windows => "pc-windows-msvc"@,
    }
}

/// The name of the binary built for a platform, or why there is none.
pub open spec fn triple_of(os: Os, arch: Architecture) -> Result<Seq<char>, Seq<char>> {
    match arch_name(arch) {
        Some(name) => Ok(SERVER_NAME@ + "-"@ + name + "-"@ + os_name(os)),
        None => Err("unsupported architecture: Architecture::X86"@),
    }
}

/// Names the binary built for the platform `os` on `arch`.
pub fn target_triple(os: Os, arch: Architecture) -> (triple: Result<String, String>)
    ensures
        texts_of(triple) == triple_of(os, arch),
{
    let arch_part: &'static str = match arch {
        Architecture::Aarch64 => "aarch64",
        Architecture::X8664 => "x86_64",
        Architecture::X86 => {
            return Err("unsupported architecture: Architecture::X86".to_string());
        },
    };
    let os_part: &'static str = match os {
        Os::Mac => "apple-darwin",
        Os::Linux => "unknown-linux-gnu",
        Os::Windows => "pc-windows-msvc",
    };
    let mut triple: String = SERVER_NAME.to_string();
    triple.append("-");
    triple.append(arch_part);
    triple.append("-");
    triple.append(os_part);
    Ok(triple)
}

/// A file attached to a release.
#[derive(Clone, Debug)]
pub struct ReleaseAsset {
    pub name: String,
    pub download_url: String,
}

/// A release of the language server.
#[derive(Clone, Debug)]
pub struct Release {
    pub version: String,
    pub assets: Vec<ReleaseAsset>,
}

/// Whether `at` is the place of the first asset called `name`.
pub open spec fn is_first_named(assets: Seq<ReleaseAsset>, name: Seq<char>, at: int) -> bool {
    &&& 0 <= at < assets.len()
    &&& assets[at].name@ == name
    &&& forall|before: int| 0 <= before < at ==> (#[trigger] assets[before]).name@ != name
}

/// Whether no asset is called `name`.
pub open spec fn none_named(assets: Seq<ReleaseAsset>, name: Seq<char>) -> bool {
    forall|at: int| 0 <= at < assets.len() ==> (#[trigger] assets[at]).name@ != name
}

/// Finds the first asset called `name`.
pub fn find_asset(assets: &Vec<ReleaseAsset>, name: &String) -> (found: Option<usize>)
    ensures
        match found {
            Some(at) => is_first_named(assets@, name@, at as int),
            None => none_named(assets@, name@),
        },
{
    let mut at: usize = 0;
    while at < assets.len()
        invariant
            at <= assets.len(),
            forall|before: int| 0 <= before < at ==> (#[trigger] assets@[before]).name@ != name@,
        decreases assets.len() - at,
    {
        if assets[at].name == *name {
            return Some(at);
        }
        at += 1;
    }
    None
}

/// What to install for a release: where to download from, the directory to
/// unpack into, and where the binary then lies.
#[derive(Clone, Debug)]
pub struct InstallPlan {
    pub download_url: String,
    pub version_dir: String,
    pub binary_path: String,
}

/// The asset that holds the binary called `triple`.
pub open spec fn asset_name(triple: Seq<char>) -> Seq<char> {
    triple + ".zip"@
}

/// The directory that holds the install of `version`.
pub open spec fn version_dir_of(version: Seq<char>) -> Seq<char> {
    SERVER_NAME@ + "-"@ + version
}

/// Where the binary lies inside `version_dir`.
pub open spec fn binary_path_of(version_dir: Seq<char>) -> Seq<char> {
    version_dir + "/"@ + SERVER_NAME@
}

/// The message for a release that lacks the asset called `name`.
pub open spec fn missing_asset(name: Seq<char>) -> Seq<char> {
    "no asset found matching \""@ + name + "\""@
}

/// Whether `plan` installs `release` on the platform `os` on `arch`, or
/// `plan` says why that cannot be done: the platform has no binary, or the
/// release lacks its asset. The asset is the first of the wanted name.
pub open spec fn plans(
    release: Release,
    os: Os,
    arch: Architecture,
    plan: Result<InstallPlan, String>,
) -> bool {
    match triple_of(os, arch) {
        Err(reason) => plan matches Err(message) && message@ == reason,
        Ok(triple) => if none_named(release.assets@, asset_name(triple)) {
            plan matches Err(message) && message@ == missing_asset(asset_name(triple))
        } else {
            &&& plan matches Ok(install)
            &&& exists|at: int|
                #![trigger release.assets@[at]]
                is_first_named(release.assets@, asset_name(triple), at)
                    && install.download_url@ == release.assets@[at].download_url@
            &&& install.version_dir@ == version_dir_of(release.version@)
            &&& install.binary_path@ == binary_path_of(version_dir_of(release.version@))
        },
    }
}

/// Plans the install of `release` on the platform `os` on `arch`.
pub fn plan_install(
    release: &Release,
    os: Os,
    arch: Architecture,
) -> (plan: Result<InstallPlan, String>)
    ensures
        plans(*release, os, arch, plan),
{
    let triple = match target_triple(os, arch) {
        Ok(triple) => triple,
        Err(reason) => {
            return Err(reason);
        },
    };
    let mut wanted: String = triple;
    wanted.append(".zip");
    let at = match find_asset(&release.assets, &wanted) {
        Some(at) => at,
        None => {
            let mut message: String = "no asset found matching \"".to_string();
            message.append(wanted.as_str());
            message.append("\"");
            return Err(message);
        },
    };
    let mut version_dir: String = SERVER_NAME.to_string();
    version_dir.append("-");
    version_dir.append(release.version.as_str());
    let mut binary_path: String = version_dir.clone();
    binary_path.append("/");
    binary_path.append(SERVER_NAME);
    Ok(InstallPlan { download_url: release.assets[at].download_url.clone(), version_dir, binary_path })
}

/// Whether the directory entry `file_name` is an install to clear away once
/// `version_dir` is in place: it belongs to the server and is not the
/// current install.
pub open spec fn is_stale(file_name: Seq<char>, version_dir: Seq<char>) -> bool {
    has_prefix(file_name, SERVER_NAME@) && file_name != version_dir
}

/// Decides whether the directory entry `file_name` is to be cleared away.
pub fn is_stale_install(file_name: &String, version_dir: &String) -> (stale: bool)
    ensures
        stale == is_stale(file_name@, version_dir@),
{
    starts_with(file_name.as_str(), SERVER_NAME) && !(*file_name == *version_dir)
}

/// The settings that a user can give the language server.
#[derive(Clone, Debug)]
pub struct Configuration {
    pub host: Option<String>,
    pub port: Option<u16>,
}

/// The arguments that hand `host` and `port` to the language server: each
/// flag with its value where the setting is given, the host first.
pub open spec fn args_of(host: Option<Seq<char>>, port: Option<u16>) -> Seq<Seq<char>> {
    let host_part = match host {
        Some(host) => seq!["--host"@, host],
        None => Seq::empty(),
    };
    let port_part = match port {
        Some(port) => seq!["--port"@, decimal(port as nat)],
        None => Seq::empty(),
    };
    host_part + port_part
}

/// Builds the language server's arguments from `config`.
pub fn server_args(config: &Configuration) -> (args: Vec<String>)
    ensures
        texts(args@) == args_of(text_of(config.host), config.port),
{
    let mut args: Vec<String> = Vec::new();
    if let Some(host) = &config.host {
        args.push("--host".to_string());
        args.push(host.clone());
    }
    if let Some(port) = config.port {
        args.push("--port".to_string());
        args.push(decimal_text(port));
    }
    args
}

/// The arguments for the settings as they were read: those of a
/// configuration that was understood, and none where there are no settings
/// or they could not be understood.
pub open spec fn args_of_settings(
    settings: Option<Result<Configuration, String>>,
) -> Seq<Seq<char>> {
    match settings {
        Some(Ok(config)) => args_of(text_of(config.host), config.port),
        _ => Seq::empty(),
    }
}

/// Builds the language server's arguments from the settings as they were
/// read.
pub fn args_from_settings(settings: &Option<Result<Configuration, String>>) -> (args: Vec<String>)
    ensures
        texts(args@) == args_of_settings(*settings),
{
    match settings {
        Some(Ok(config)) => server_args(config),
        _ => {
            let args: Vec<String> = Vec::new();
            args
        },
    }
}

} // verus!

//! Discovery and validation of the backend binary: well-known install
//! locations, executability, and installation guidance.

use vstd::prelude::*;

verus! {

use vstd::string::StringExecFns;
use crate::settings::BackendType;
use crate::sys;

/// How backend discovery or validation can fail.
#[derive(Debug, PartialEq)]
pub enum BackendError {
    /// No supported backend was found anywhere.
    NoneFound,
    /// No binary at the path.
    NotFound { path: String },
    /// The file at the path is not executable.
    NotExecutable { path: String },
    /// Running the binary failed.
    ExecutionFailed { path: String, reason: String },
    /// The binary ran but no version could be read from it.
    VersionDetectionFailed { path: String, reason: String },
}

pub open spec fn spec_none_found_message() -> Seq<char> {
    "no supported backend found.\n\nInstall one of the following:\n  v2ray:    sudo pacman -S v2ray       (Arch) | sudo apt install v2ray (Debian/Ubuntu)\n  xray:     https://github.com/XTLS/Xray-core/releases\n  sing-box: sudo pacman -S sing-box    (Arch) | https://github.com/SagerNet/sing-box/releases"@
}

pub open spec fn spec_backend_error_message(e: BackendError) -> Seq<char> {
    match e {
        BackendError::NoneFound => spec_none_found_message(),
        BackendError::NotFound { path } => "binary not found at "@ + path@,
        BackendError::NotExecutable { path } => "binary at "@ + path@ + " is not executable"@,
        BackendError::ExecutionFailed { path, reason } => "failed to run "@ + path@ + ": "@
            + reason@,
        BackendError::VersionDetectionFailed { path, reason } => "failed to detect version for "@
            + path@ + ": "@ + reason@,
    }
}

impl BackendError {
    /// A human-readable description of the failure.
    pub fn message(&self) -> (r: String)
        ensures
            r@ == spec_backend_error_message(*self),
    {
        match self {
            BackendError::NoneFound => String::from_str(
                "no supported backend found.\n\nInstall one of the following:\n  v2ray:    sudo pacman -S v2ray       (Arch) | sudo apt install v2ray (Debian/Ubuntu)\n  xray:     https://github.com/XTLS/Xray-core/releases\n  sing-box: sudo pacman -S sing-box    (Arch) | https://github.com/SagerNet/sing-box/releases",
            ),
            BackendError::NotFound { path } => {
                let mut s = String::from_str("binary not found at ");
                s.append(path.as_str());
                s
            },
            BackendError::NotExecutable { path } => {
                let mut s = String::from_str("binary at ");
                s.append(path.as_str());
                s.append(" is not executable");
                s
            },
            BackendError::ExecutionFailed { path, reason } => {
                let mut s = String::from_str("failed to run ");
                s.append(path.as_str());
                s.append(": ");
                s.append(reason.as_str());
                s
            },
            BackendError::VersionDetectionFailed { path, reason } => {
                let mut s = String::from_str("failed to detect version for ");
                s.append(path.as_str());
                s.append(": ");
                s.append(reason.as_str());
                s
            },
        }
    }
}

/// A backend that discovery accepted.
#[derive(Debug, Clone, PartialEq)]
pub struct DetectedBackend {
    pub backend_type: BackendType,
    pub binary_path: String,
    pub version: Option<String>,
}

pub open spec fn spec_detected_display(d: DetectedBackend) -> Seq<char> {
    match d.version {
        Some(v) => spec_backend_name(d.backend_type) + " ("@ + v@ + ") at "@ + d.binary_path@,
        None => spec_backend_name(d.backend_type) + " at "@ + d.binary_path@,
    }
}

impl DetectedBackend {
    /// The one-line rendering: the backend's name, its version when known,
    /// and the path.
    pub fn display_string(&self) -> (r: String)
        ensures
            r@ == spec_detected_display(*self),
    {
        let mut s = String::from_str(backend_name(self.backend_type));
        match &self.version {
            Some(v) => {
                s.append(" (");
                s.append(v.as_str());
                s.append(") at ");
            },
            None => {
                s.append(" at ");
            },
        }
        s.append(self.binary_path.as_str());
        s
    }
}

pub open spec fn spec_backend_name(bt: BackendType) -> Seq<char> {
    match bt {
        BackendType::V2ray => "v2ray"@,
        BackendType::Xray => "xray"@,
        BackendType::SingBox => "sing-box"@,
    }
}

/// The name a backend goes by, which is also its binary's name.
pub fn backend_name(bt: BackendType) -> (r: &'static str)
    ensures
        r@ == spec_backend_name(bt),
{
    match bt {
        BackendType::V2ray => "v2ray",
        BackendType::Xray => "xray",
        BackendType::SingBox => "sing-box",
    }
}

/// The binary's file name.
pub fn binary_name(bt: BackendType) -> (r: &'static str)
    ensures
        r@ == spec_backend_name(bt),
{
    backend_name(bt)
}

pub open spec fn spec_usr_bin_path(bt: BackendType) -> Seq<char> {
    "/usr/bin/"@ + spec_backend_name(bt)
}

pub open spec fn spec_usr_local_bin_path(bt: BackendType) -> Seq<char> {
    "/usr/local/bin/"@ + spec_backend_name(bt)
}

/// The installation locations that discovery probes, in order.
pub fn well_known_paths(bt: BackendType) -> (r: Vec<String>)
    ensures
        r@.len() == 2,
        r@[0]@ == spec_usr_bin_path(bt),
        r@[1]@ == spec_usr_local_bin_path(bt),
{
    let name = binary_name(bt);
    let mut first = String::from_str("/usr/bin/");
    first.append(name);
    let mut second = String::from_str("/usr/local/bin/");
    second.append(name);
    let mut out: Vec<String> = Vec::new();
    out.push(first);
    out.push(second);
    out
}

/// Whether a file mode has any execute bit set.
pub fn is_executable_mode(mode: u32) -> (r: bool)
    ensures
        r == ((mode & 0o111) != 0),
{
    mode & 0o111 != 0
}

/// Probes one path: it must exist and carry an execute bit.
fn probe_executable(path: &str) -> (r: bool) {
    match sys::file_mode(path) {
        Some(mode) => is_executable_mode(mode),
        None => false,
    }
}

/// Looks for the backend's binary in the well-known locations; what is
/// found depends on the machine, but any path returned is one of them.
pub fn detect_binary(bt: BackendType) -> (r: Option<String>)
    ensures
        r matches Some(p) ==> p@ == spec_usr_bin_path(bt) || p@ == spec_usr_local_bin_path(bt),
{
    let paths = well_known_paths(bt);
    let first = &paths[0];
    if probe_executable(first.as_str()) {
        return Some(first.clone());
    }
    let second = &paths[1];
    if probe_executable(second.as_str()) {
        return Some(second.clone());
    }
    None
}

/// Detects one backend: found in a well-known location, or `NotFound`
/// naming the binary. Discovery itself runs nothing, so the version starts
/// out unknown; the host application runs `<binary> version` and fills it
/// in through `version_from_output`.
pub fn detect_single(bt: BackendType) -> (r: Result<DetectedBackend, BackendError>)
    ensures
        match r {
            Ok(d) => d.backend_type == bt && (d.binary_path@ == spec_usr_bin_path(bt)
                || d.binary_path@ == spec_usr_local_bin_path(bt)) && d.version is None,
            Err(e) => e matches BackendError::NotFound { path } && path@ == spec_backend_name(bt),
        },
{
    match detect_binary(bt) {
        Some(path) => Ok(DetectedBackend { backend_type: bt, binary_path: path, version: None }),
        None => Err(BackendError::NotFound { path: String::from_str(binary_name(bt)) }),
    }
}

/// Detects every supported backend, in the fixed order v2ray, xray,
/// sing-box; the ones that are not installed are left out.
pub fn detect_all() -> (r: Vec<DetectedBackend>)
    ensures
        r@.len() <= 3,
        forall|i: int|
            0 <= i < r@.len() ==> (#[trigger] r@[i].version) is None && (r@[i].binary_path@
                == spec_usr_bin_path(r@[i].backend_type) || r@[i].binary_path@
                == spec_usr_local_bin_path(r@[i].backend_type)),
{
    let mut out: Vec<DetectedBackend> = Vec::new();
    if let Ok(d) = detect_single(BackendType::V2ray) {
        out.push(d);
    }
    if let Ok(d) = detect_single(BackendType::Xray) {
        out.push(d);
    }
    if let Ok(d) = detect_single(BackendType::SingBox) {
        out.push(d);
    }
    out
}

/// Picks the first detected backend; with none installed, fails with the
/// guidance error.
pub fn auto_select() -> (r: Result<DetectedBackend, BackendError>)
    ensures
        match r {
            Ok(d) => d.version is None && (d.binary_path@ == spec_usr_bin_path(d.backend_type)
                || d.binary_path@ == spec_usr_local_bin_path(d.backend_type)),
            Err(e) => e == BackendError::NoneFound,
        },
{
    let mut available = detect_all();
    if available.len() == 0 {
        Err(BackendError::NoneFound)
    } else {
        Ok(available.remove(0))
    }
}

/// Every detected backend, or the guidance error when there is none.
pub fn detect_all_or_error() -> (r: Result<Vec<DetectedBackend>, BackendError>)
    ensures
        match r {
            Ok(v) => v@.len() > 0,
            Err(e) => e == BackendError::NoneFound,
        },
{
    let available = detect_all();
    if available.len() == 0 {
        Err(BackendError::NoneFound)
    } else {
        Ok(available)
    }
}

/// Validates a user-supplied binary path: it must exist and be executable.
/// The version starts out unknown; the host application runs the binary and
/// fills it in through `version_from_output`.
pub fn validate_custom_path(path: &str, bt: BackendType) -> (r: Result<
    DetectedBackend,
    BackendError,
>)
    ensures
        match r {
            Ok(d) => d.backend_type == bt && d.binary_path@ == path@ && d.version is None,
            Err(e) => match e {
                BackendError::NotFound { path: p } => p@ == path@,
                BackendError::NotExecutable { path: p } => p@ == path@,
                _ => false,
            },
        },
{
    match sys::file_mode(path) {
        None => Err(BackendError::NotFound { path: String::from_str(path) }),
        Some(mode) => {
            if !is_executable_mode(mode) {
                Err(BackendError::NotExecutable { path: String::from_str(path) })
            } else {
                Ok(
                    DetectedBackend {
                        backend_type: bt,
                        binary_path: String::from_str(path),
                        version: None,
                    },
                )
            }
        },
    }
}

/// The first line of a version output: everything before the first line
/// break, with a carriage return before it dropped.
pub open spec fn spec_first_line(s: Seq<char>) -> Seq<char> {
    let i = crate::strutil::spec_first_idx(s, '\n');
    let line = if 0 <= i <= s.len() {
        s.subrange(0, i)
    } else {
        s
    };
    if line.len() > 0 && line.last() == '\r' {
        line.drop_last()
    } else {
        line
    }
}

fn first_line_of<'a>(s: &'a str) -> (r: &'a str)
    ensures
        r@ == spec_first_line(s@),
{
    let n = s.unicode_len();
    let cut = match crate::strutil::find_char(s, '\n') {
        Some(i) => {
            proof {
                crate::strutil::lemma_first_idx_is(s@, '\n', i as int);
            }
            i
        },
        None => {
            proof {
                crate::strutil::lemma_first_idx_is(s@, '\n', s@.len() as int);
            }
            n
        },
    };
    let line = s.substring_char(0, cut);
    let m = line.unicode_len();
    if m > 0 && line.get_char(m - 1) == '\r' {
        let trimmed = line.substring_char(0, m - 1);
        proof {
            assert(line@.drop_last() =~= line@.subrange(0, m - 1));
        }
        trimmed
    } else {
        line
    }
}

/// Reads a backend's version from what running `<binary> version` printed:
/// the first line of the trimmed standard output. A failing run is reported
/// with the trimmed standard error, or with the run's status description
/// when that is empty; a run with empty output is reported too. The run
/// itself is the host application's work.
pub fn version_from_output(
    success: bool,
    stdout: &str,
    stderr: &str,
    status_desc: &str,
    path: &str,
) -> (r: Result<String, BackendError>)
    ensures
        ({
            let out = crate::strutil::spec_trim_chars(stdout@);
            let err = crate::strutil::spec_trim_chars(stderr@);
            match r {
                Ok(v) => success && out.len() > 0 && v@ == spec_first_line(out),
                Err(e) => (e matches BackendError::VersionDetectionFailed { path: p, reason }
                    && p@ == path@ && ((!success && err.len() > 0 && reason@ == err) || (!success
                    && err.len() == 0 && reason@ == "exit code "@ + status_desc@) || (success
                    && out.len() == 0 && reason@ == "empty version output"@))),
            }
        }),
{
    if !success {
        let err_trimmed = crate::strutil::trim_ws(stderr);
        let reason = if err_trimmed.is_empty() {
            let mut m = String::from_str("exit code ");
            m.append(status_desc);
            m
        } else {
            err_trimmed.to_owned()
        };
        return Err(BackendError::VersionDetectionFailed { path: String::from_str(path), reason });
    }
    let out_trimmed = crate::strutil::trim_ws(stdout);
    if out_trimmed.is_empty() {
        return Err(
            BackendError::VersionDetectionFailed {
                path: String::from_str(path),
                reason: String::from_str("empty version output"),
            },
        );
    }
    Ok(first_line_of(out_trimmed).to_owned())
}

pub open spec fn spec_install_guidance(bt: BackendType) -> Seq<char> {
    match bt {
        BackendType::V2ray => "Install v2ray:\n  Arch Linux: sudo pacman -S v2ray\n  Debian/Ubuntu: sudo apt install v2ray\n  Manual: https://github.com/v2fly/v2ray-core/releases"@,
        BackendType::Xray => "Install xray:\n  Arch Linux: yay -S xray (AUR)\n  Script: bash -c \"$(curl -L https://github.com/XTLS/Xray-install/raw/main/install-release.sh)\"\n  Manual: https://github.com/XTLS/Xray-core/releases"@,
        BackendType::SingBox => "Install sing-box:\n  Arch Linux: sudo pacman -S sing-box\n  Manual: https://github.com/SagerNet/sing-box/releases"@,
    }
}

/// Installation instructions for one backend.
pub fn install_guidance(bt: BackendType) -> (r: &'static str)
    ensures
        r@ == spec_install_guidance(bt),
{
    match bt {
        BackendType::V2ray => "Install v2ray:\n  Arch Linux: sudo pacman -S v2ray\n  Debian/Ubuntu: sudo apt install v2ray\n  Manual: https://github.com/v2fly/v2ray-core/releases",
        BackendType::Xray => "Install xray:\n  Arch Linux: yay -S xray (AUR)\n  Script: bash -c \"$(curl -L https://github.com/XTLS/Xray-install/raw/main/install-release.sh)\"\n  Manual: https://github.com/XTLS/Xray-core/releases",
        BackendType::SingBox => "Install sing-box:\n  Arch Linux: sudo pacman -S sing-box\n  Manual: https://github.com/SagerNet/sing-box/releases",
    }
}

/// Installation instructions for every backend, blank-line separated.
pub fn all_install_guidance() -> (r: String)
    ensures
        r@ == spec_install_guidance(BackendType::V2ray) + "\n\n"@ + spec_install_guidance(
            BackendType::Xray,
        ) + "\n\n"@ + spec_install_guidance(BackendType::SingBox),
{
    let mut s = String::from_str(install_guidance(BackendType::V2ray));
    s.append("\n\n");
    s.append(install_guidance(BackendType::Xray));
    s.append("\n\n");
    s.append(install_guidance(BackendType::SingBox));
    s
}

} // verus!

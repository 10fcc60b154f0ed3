//! Trusted probes of the filesystem. Each function wraps one outside call
//! whose result depends on what is on disk, so no contract pins the values
//! down; the verified logic that consumes them states what holds of every
//! outcome.

use vstd::prelude::*;

verus! {

/// Relies on glob::glob: expands a Unix shell-style pattern against the
/// filesystem and yields the matching paths. `None` stands for a malformed
/// pattern, a failed directory read, or a path that is not valid UTF-8, all
/// of which the callers treat as fatal.
#[verifier::external_body]
pub(crate) fn glob_list(pattern: &str) -> (r: Option<Vec<String>>) {
    let paths = match glob::glob(pattern) {
        Ok(paths) => paths,
        Err(_) => return None,
    };
    let mut out: Vec<String> = Vec::new();
    for p in paths {
        match p.ok().and_then(|pb| pb.to_str().map(|s| s.to_string())) {
            Some(s) => out.push(s),
            None => return None,
        }
    }
    Some(out)
}

/// Relies on std::path::Path::exists: whether the path names anything on
/// disk at the moment of the call.
#[verifier::external_body]
pub(crate) fn path_exists(path: &str) -> (r: bool) {
    std::path::Path::new(path).exists()
}

/// Relies on std::path::Path::metadata and the metadata's modification time:
/// the file's last modification instant, as nanoseconds since the epoch.
/// `None` stands for a missing file or a time the platform cannot report.
#[verifier::external_body]
pub fn modified(path: &str) -> (r: Option<u64>) {
    let md = std::path::Path::new(path).metadata().ok()?;
    let t = md.modified().ok()?;
    let d = t.duration_since(std::time::UNIX_EPOCH).ok()?;
    Some(d.as_nanos() as u64)
}

/// Relies on std::path::Path::read_dir: the file names of the directory's
/// entries. Entries that cannot be read or whose names are not valid UTF-8
/// are passed over, as the callers' own directory scan does. `None` stands
/// for a directory that cannot be opened.
#[verifier::external_body]
pub(crate) fn list_dir(dir: &str) -> (r: Option<Vec<String>>) {
    let rd = std::path::Path::new(dir).read_dir().ok()?;
    let mut out: Vec<String> = Vec::new();
    for e in rd {
        if let Ok(e) = e {
            if let Some(s) = e.file_name().to_str() {
                out.push(s.to_string());
            }
        }
    }
    Some(out)
}

} // verus!

//! Platform triples, build profiles, and (host, target) compilation pairs.

use vstd::prelude::*;
use vstd::string::StringExecFns;

verus! {

/// A known operating-system/architecture target. Every operation that names
/// files per platform matches exhaustively on this set, so an unknown
/// platform cannot slip through silently.
#[derive(Debug, Copy, Clone, PartialEq, Eq, Structural)]
pub enum Triple {
    LinuxX64,
    WindowsX64,
}

/// The optimization profile a build runs under; it names the per-profile
/// output directory.
#[derive(Debug, Copy, Clone, PartialEq, Eq, Structural)]
pub enum Profile {
    Debug,
    Release,
}

/// The canonical textual name of a platform triple.
pub open spec fn spec_triple_str(t: Triple) -> Seq<char> {
    match t {
        Triple::LinuxX64 => "x86_64-unknown-linux-gnu"@,
        Triple::WindowsX64 => "x86_64-pc-windows-msvc"@,
    }
}

/// The directory name of a build profile.
pub open spec fn spec_profile_str(p: Profile) -> Seq<char> {
    match p {
        Profile::Debug => "debug"@,
        Profile::Release => "release"@,
    }
}

pub fn triple_str(t: Triple) -> (r: &'static str)
    ensures
        r@ == spec_triple_str(t),
{
    match t {
        Triple::LinuxX64 => "x86_64-unknown-linux-gnu",
        Triple::WindowsX64 => "x86_64-pc-windows-msvc",
    }
}

pub fn profile_str(p: Profile) -> (r: &'static str)
    ensures
        r@ == spec_profile_str(p),
{
    match p {
        Profile::Debug => "debug",
        Profile::Release => "release",
    }
}

/// A (host, target) compilation pair; cross-compilation is in effect when the
/// two differ.
#[derive(Debug, Copy, Clone, PartialEq, Eq, Structural)]
pub struct Pair {
    pub host: Triple,
    pub target: Triple,
}

/// The output directory of a pair: native builds use the plain profile
/// directory, cross builds a per-target subdirectory.
pub open spec fn spec_target_dir(pair: Pair, profile: Profile) -> Seq<char> {
    if pair.host == pair.target {
        "./target/"@ + spec_profile_str(profile)
    } else {
        "./target/"@ + spec_triple_str(pair.target) + "/"@ + spec_profile_str(profile)
    }
}

/// The platform file-naming convention for a shared library.
pub open spec fn spec_libname(target: Triple, package: Seq<char>) -> Seq<char> {
    match target {
        Triple::LinuxX64 => "lib"@ + package + ".so"@,
        Triple::WindowsX64 => package + ".dll"@,
    }
}

impl Pair {
    /// Whether this pair cross-compiles.
    pub fn foreign(&self) -> (r: bool)
        ensures
            r == (self.host != self.target),
    {
        self.host != self.target
    }

    /// The output directory that this pair's artifacts land in.
    pub fn target(&self, profile: Profile) -> (r: String)
        ensures
            r@ == spec_target_dir(*self, profile),
    {
        if self.host == self.target {
            String::from_str("./target/").concat(profile_str(profile))
        } else {
            String::from_str("./target/").concat(triple_str(self.target)).concat("/").concat(
                profile_str(profile),
            )
        }
    }

    /// The artifact file name for `package` under this pair's target
    /// platform.
    pub fn libname(&self, package: &str) -> (r: String)
        ensures
            r@ == spec_libname(self.target, package@),
    {
        match self.target {
            Triple::LinuxX64 => String::from_str("lib").concat(package).concat(".so"),
            Triple::WindowsX64 => String::from_str(package).concat(".dll"),
        }
    }
}

} // verus!

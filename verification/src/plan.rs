//! Which compilation pairs a run builds, and whether it builds at all:
//! the host process first decides, from configuration presence and flags,
//! whether to build or to locate prebuilt artifacts.

use vstd::prelude::*;
use crate::platform::{Pair, Triple};
use crate::toolchain::{ConfigError, Toolchain, spec_parse_lines};
use crate::text::spec_split_lines;

verus! {

/// The other platform of the known set: the foreign target of a cross
/// build.
pub open spec fn spec_other(t: Triple) -> Triple {
    match t {
        Triple::LinuxX64 => Triple::WindowsX64,
        Triple::WindowsX64 => Triple::LinuxX64,
    }
}

pub fn other_triple(t: Triple) -> (r: Triple)
    ensures
        r == spec_other(t),
{
    match t {
        Triple::LinuxX64 => Triple::WindowsX64,
        Triple::WindowsX64 => Triple::LinuxX64,
    }
}

/// The pairs a run builds, in build order: the native pair alone, or —
/// when a cross build was requested — the foreign pair first and the
/// native pair last, so that the run's returned artifacts are always the
/// native pair's.
pub open spec fn spec_plan(host: Triple, cross: bool) -> Seq<Pair> {
    if cross {
        seq![Pair { host, target: spec_other(host) }, Pair { host, target: host }]
    } else {
        seq![Pair { host, target: host }]
    }
}

/// With no cross build requested, exactly one pair is built: the native
/// one.
pub proof fn law_native_build_is_single(host: Triple)
    ensures
        spec_plan(host, false).len() == 1,
        spec_plan(host, false)[0] == (Pair { host, target: host }),
{
}

/// With a cross build requested, exactly two pairs are built, the foreign
/// pair before the native pair, and the last-built pair — whose artifacts
/// the run returns — is the native one.
pub proof fn law_cross_build_order(host: Triple)
    ensures
        spec_plan(host, true).len() == 2,
        spec_plan(host, true)[0].host != spec_plan(host, true)[0].target,
        spec_plan(host, true)[1] == (Pair { host, target: host }),
        spec_plan(host, true).last() == (Pair { host, target: host }),
{
}

pub fn plan_pairs(host: Triple, cross: bool) -> (r: Vec<Pair>)
    ensures
        r@ == spec_plan(host, cross),
{
    let mut out: Vec<Pair> = Vec::new();
    if cross {
        out.push(Pair { host, target: other_triple(host) });
    }
    out.push(Pair { host, target: host });
    proof {
        assert(out@ =~= spec_plan(host, cross));
    }
    out
}

/// Decides between the build phase and the locate-prebuilt path: an
/// explicit opt-out flag or an absent configuration resource means "no
/// build phase — use the artifact locator only", which is not an error;
/// a present configuration is parsed, and a malformed one is fatal.
pub fn build_mode(no_compile_flag: bool, compile_flag: bool, config_text: Option<&str>) -> (r:
    Result<Option<Toolchain>, ConfigError>)
    ensures
        no_compile_flag ==> (r matches Ok(m) && m is None),
        !no_compile_flag && config_text is None ==> (r matches Ok(m) && m is None),
        r matches Ok(Some(tc)) ==> {
            &&& !no_compile_flag
            &&& config_text matches Some(t) && spec_parse_lines(spec_split_lines(t@))
                == Ok::<_, Seq<char>>(tc.table())
            &&& tc.compile == compile_flag
        },
        r matches Err(e) ==> !no_compile_flag && (config_text matches Some(t) && (
        e matches ConfigError::BadLine { line } && spec_parse_lines(spec_split_lines(t@))
            == Err::<Seq<((Seq<char>, Seq<char>, Seq<char>), Seq<Seq<char>>)>, _>(line@))),
        !no_compile_flag && (config_text matches Some(t) && spec_parse_lines(
            spec_split_lines(t@),
        ) is Ok) ==> (r matches Ok(m) && m is Some),
{
    if no_compile_flag {
        return Ok(None);
    }
    match config_text {
        None => Ok(None),
        Some(t) => match Toolchain::parse(t, compile_flag) {
            Ok(tc) => Ok(Some(tc)),
            Err(e) => Err(e),
        },
    }
}

} // verus!

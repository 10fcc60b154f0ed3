//! Locating a previously built artifact when the build phase is skipped:
//! a fixed, ordered list of candidate locations, and an error that
//! enumerates every path attempted.

use vstd::prelude::*;
use vstd::string::*;
use crate::platform::{Pair, Profile, spec_libname, spec_profile_str, spec_target_dir, spec_triple_str,
    profile_str, triple_str};
use crate::probe;

verus! {

/// A failed search: the artifact's file name and every path that was tried,
/// in the order tried.
#[derive(Debug, PartialEq, Eq)]
pub struct SeekError {
    pub libname: String,
    pub attempted: Vec<String>,
}

/// The candidate locations for `package`'s artifact, in priority order: the
/// cross-compiled output directory, the native output directory, a flat
/// `lib` directory, the package's own `lib` subdirectory, and the current
/// directory.
pub open spec fn spec_candidates(pair: Pair, profile: Profile, package: Seq<char>) -> Seq<
    Seq<char>,
> {
    let lib = spec_libname(pair.target, package);
    seq![
        "./target/"@ + spec_triple_str(pair.target) + "/"@ + spec_profile_str(profile) + "/"@
            + lib,
        "./target/"@ + spec_profile_str(profile) + "/"@ + lib,
        "./lib/"@ + lib,
        "./"@ + package + "/lib/"@ + lib,
        "./"@ + lib,
    ]
}

/// The rendered "searched in" tail of a failed search's report: one
/// indented line per attempted path.
pub open spec fn spec_attempt_list(paths: Seq<Seq<char>>) -> Seq<char>
    decreases paths.len(),
{
    if paths.len() == 0 {
        Seq::empty()
    } else {
        spec_attempt_list(paths.drop_last()) + "\n  "@ + paths.last()
    }
}

impl SeekError {
    /// The user-facing report: names the artifact and enumerates every path
    /// attempted.
    pub open spec fn spec_message(&self) -> Seq<char> {
        "Unable to find \""@ + self.libname@ + "\"; searched in:"@ + spec_attempt_list(
            self.attempted.deep_view(),
        ) + "\n"@
    }

    pub fn message(&self) -> (r: String)
        ensures
            r@ == self.spec_message(),
    {
        let mut hay = String::new();
        let n = self.attempted.len();
        let mut i: usize = 0;
        proof {
            assert(self.attempted.deep_view().take(0) =~= Seq::<Seq<char>>::empty());
        }
        while i < n
            invariant
                i <= n,
                n == self.attempted@.len(),
                hay@ == spec_attempt_list(self.attempted.deep_view().take(i as int)),
            decreases n - i,
        {
            hay.append("\n  ");
            hay.append(self.attempted[i].as_str());
            proof {
                let all = self.attempted.deep_view();
                assert(all.take(i + 1).drop_last() =~= all.take(i as int));
                assert(all.take(i + 1).last() == all[i as int]);
            }
            i += 1;
        }
        proof {
            assert(self.attempted.deep_view().take(n as int) =~= self.attempted.deep_view());
        }
        let mut out = String::from_str("Unable to find \"");
        out.append(self.libname.as_str());
        out.append("\"; searched in:");
        out.append(hay.as_str());
        out.append("\n");
        out
    }
}

/// The path itself when it names something on disk, `None` otherwise.
pub fn seek(path: String) -> (r: Option<String>)
    ensures
        r matches Some(p) ==> p == path,
{
    if probe::path_exists(path.as_str()) {
        Some(path)
    } else {
        None
    }
}

/// The candidate locations as runtime values, in priority order.
pub fn candidates(pair: Pair, profile: Profile, package: &str) -> (r: Vec<String>)
    ensures
        r.deep_view() == spec_candidates(pair, profile, package@),
{
    let lib = pair.libname(package);
    let mut out: Vec<String> = Vec::new();
    out.push(
        String::from_str("./target/").concat(triple_str(pair.target)).concat("/").concat(
            profile_str(profile),
        ).concat("/").concat(lib.as_str()),
    );
    out.push(
        String::from_str("./target/").concat(profile_str(profile)).concat("/").concat(
            lib.as_str(),
        ),
    );
    out.push(String::from_str("./lib/").concat(lib.as_str()));
    out.push(String::from_str("./").concat(package).concat("/lib/").concat(lib.as_str()));
    out.push(String::from_str("./").concat(lib.as_str()));
    proof {
        assert(out.deep_view() =~= spec_candidates(pair, profile, package@));
    }
    out
}

/// The priority-order decision itself: the index of the first affirmative
/// existence answer, with nothing before it affirmative, or nothing at
/// all when every answer was negative.
pub fn first_existing(hits: &Vec<bool>) -> (r: Option<usize>)
    ensures
        r matches Some(i) ==> i < hits@.len() && hits@[i as int] && (forall|k: int|
            0 <= k < i ==> !hits@[k]),
        r is None ==> forall|k: int| 0 <= k < hits@.len() ==> !hits@[k],
{
    let n = hits.len();
    let mut i: usize = 0;
    while i < n
        invariant
            i <= n,
            n == hits@.len(),
            forall|k: int| 0 <= k < i ==> !hits@[k],
        decreases n - i,
    {
        if hits[i] {
            return Some(i);
        }
        i += 1;
    }
    None
}

/// Searches the candidate locations in priority order and returns the first
/// that exists on disk: the existence answers are gathered one per
/// candidate, and [`first_existing`] carries the first-match decision's
/// exact contract. On total failure the error carries the artifact's file
/// name and exactly the candidate list, so the report can enumerate every
/// path tried.
pub fn seek_lib(pair: Pair, profile: Profile, package: &str) -> (r: Result<String, SeekError>)
    ensures
        r matches Ok(p) ==> spec_candidates(pair, profile, package@).contains(p@),
        r matches Err(e) ==> e.attempted.deep_view() == spec_candidates(pair, profile, package@)
            && e.libname@ == spec_libname(pair.target, package@),
{
    let cands = candidates(pair, profile, package);
    let n = cands.len();
    let mut hits: Vec<bool> = Vec::new();
    let mut i: usize = 0;
    while i < n
        invariant
            i <= n,
            n == cands@.len(),
            hits@.len() == i,
        decreases n - i,
    {
        hits.push(probe::path_exists(cands[i].as_str()));
        i += 1;
    }
    match first_existing(&hits) {
        Some(i) => {
            let found = cands[i].clone();
            assert(spec_candidates(pair, profile, package@).contains(found@)) by {
                assert(cands.deep_view()[i as int] == found@);
            }
            Ok(found)
        },
        None => Err(SeekError { libname: pair.libname(package), attempted: cands }),
    }
}

} // verus!

//! Finding the shared runtime-support module (the language runtime's
//! dynamic library) under a toolchain's sysroot: the query command, the
//! parsing of its output, and the unique-match scan of the library
//! directory.

use vstd::prelude::*;
use vstd::string::*;
use crate::platform::{Pair, Triple, spec_triple_str, triple_str};
use crate::probe;
use crate::text::{ends_with, spec_ends_with, spec_starts_with, starts_with};
use crate::toolchain::{ConfigError, Toolchain, resolves_to, spec_resolve_failure,
    spec_resolve_succeeds, subs_view};

verus! {

/// Why the runtime-support search failed fatally (as opposed to finding
/// nothing, which the caller reports on its own terms).
#[derive(Debug, Copy, Clone, PartialEq, Eq, Structural)]
pub enum SysrootError {
    /// The query's output was non-empty but did not end in a newline.
    MalformedOutput,
    /// More than one candidate runtime library lay in the directory.
    MultipleMatches,
}

/// Whether a file name carries `suffix` as its extension: it ends in a dot
/// followed by the suffix, with a non-empty stem before the dot.
pub open spec fn spec_has_ext(name: Seq<char>, suffix: Seq<char>) -> bool {
    name.len() > suffix.len() + 1 && spec_ends_with(name, "."@ + suffix)
}

/// Whether a file name is a candidate: the prefix starts it and the suffix
/// is its extension.
pub open spec fn is_name_match(name: Seq<char>, prefix: Seq<char>, suffix: Seq<char>) -> bool {
    spec_starts_with(name, prefix) && spec_has_ext(name, suffix)
}

/// The candidate names among a directory's entries, in order.
pub open spec fn spec_matches(names: Seq<Seq<char>>, prefix: Seq<char>, suffix: Seq<char>) -> Seq<
    Seq<char>,
>
    decreases names.len(),
{
    if names.len() == 0 {
        Seq::empty()
    } else if is_name_match(names.last(), prefix, suffix) {
        spec_matches(names.drop_last(), prefix, suffix).push(names.last())
    } else {
        spec_matches(names.drop_last(), prefix, suffix)
    }
}

proof fn lemma_matches_take_le(names: Seq<Seq<char>>, prefix: Seq<char>, suffix: Seq<char>, i: int)
    requires
        0 <= i <= names.len(),
    ensures
        spec_matches(names.take(i), prefix, suffix).len() <= spec_matches(
            names,
            prefix,
            suffix,
        ).len(),
    decreases names.len() - i,
{
    if i == names.len() {
        assert(names.take(i) =~= names);
    } else {
        lemma_matches_take_le(names, prefix, suffix, i + 1);
        assert(names.take(i + 1).drop_last() =~= names.take(i));
        assert(names.take(i + 1).last() == names[i]);
    }
}

proof fn lemma_matches_all_match(names: Seq<Seq<char>>, prefix: Seq<char>, suffix: Seq<char>)
    ensures
        forall|k: int|
            0 <= k < spec_matches(names, prefix, suffix).len() ==> is_name_match(
                #[trigger] spec_matches(names, prefix, suffix)[k],
                prefix,
                suffix,
            ),
    decreases names.len(),
{
    if names.len() > 0 {
        lemma_matches_all_match(names.drop_last(), prefix, suffix);
        let prev = spec_matches(names.drop_last(), prefix, suffix);
        let m = spec_matches(names, prefix, suffix);
        assert forall|k: int| 0 <= k < m.len() implies is_name_match(m[k], prefix, suffix) by {
            if is_name_match(names.last(), prefix, suffix) {
                assert(m == prev.push(names.last()));
                if k < prev.len() {
                    assert(m[k] == prev[k]);
                } else {
                    assert(m[k] == names.last());
                }
            } else {
                assert(m == prev);
            }
        }
    }
}

/// How a directory scan for `prefix*.suffix` can end.
#[derive(Debug, PartialEq, Eq)]
pub enum Glob1Match {
    /// No entry matched.
    NoMatch,
    /// Exactly this entry matched.
    One(String),
    /// At least two entries matched, which the callers treat as fatal.
    Many,
}

pub fn has_ext(name: &str, suffix: &str) -> (r: bool)
    ensures
        r == spec_has_ext(name@, suffix@),
{
    let nlen = name.unicode_len();
    let slen = suffix.unicode_len();
    if nlen > slen && nlen - slen >= 2 {
        let dotted = String::from_str(".").concat(suffix);
        ends_with(name, dotted.as_str())
    } else {
        false
    }
}

/// Scans the entry names for the unique one that starts with `prefix` and
/// has `suffix` as its extension.
pub fn glob1(names: &Vec<String>, prefix: &str, suffix: &str) -> (r: Glob1Match)
    ensures
        ({
            let m = spec_matches(names.deep_view(), prefix@, suffix@);
            match r {
                Glob1Match::NoMatch => m.len() == 0,
                Glob1Match::One(name) => m == seq![name@],
                Glob1Match::Many => m.len() >= 2,
            }
        }),
{
    let ghost nv = names.deep_view();
    let n = names.len();
    let mut found: Option<&String> = None;
    let mut i: usize = 0;
    proof {
        assert(nv.take(0) =~= Seq::<Seq<char>>::empty());
    }
    while i < n
        invariant
            i <= n,
            n == names@.len(),
            nv == names.deep_view(),
            match found {
                None => spec_matches(nv.take(i as int), prefix@, suffix@) =~= Seq::<
                    Seq<char>,
                >::empty(),
                Some(f) => spec_matches(nv.take(i as int), prefix@, suffix@) =~= seq![f@],
            },
        decreases n - i,
    {
        proof {
            assert(nv.take(i + 1).drop_last() =~= nv.take(i as int));
            assert(nv.take(i + 1).last() == nv[i as int]);
            assert(nv[i as int] == names@[i as int]@);
        }
        let name = &names[i];
        if starts_with(name.as_str(), prefix) && has_ext(name.as_str(), suffix) {
            if found.is_some() {
                proof {
                    lemma_matches_take_le(nv, prefix@, suffix@, i + 1);
                }
                return Glob1Match::Many;
            }
            found = Some(name);
        }
        i += 1;
    }
    proof {
        assert(nv.take(n as int) =~= nv);
    }
    match found {
        None => Glob1Match::NoMatch,
        Some(f) => Glob1Match::One(f.clone()),
    }
}

/// The sysroot named by the query's standard output: nothing at all when
/// the output is empty, otherwise everything before the mandatory trailing
/// newline.
pub open spec fn spec_sysroot_of(output: Seq<char>) -> Seq<char> {
    output.take(output.len() - 1)
}

pub fn parse_sysroot(output: &str) -> (r: Result<Option<String>, SysrootError>)
    ensures
        output@.len() == 0 ==> r == Ok::<Option<String>, SysrootError>(None),
        r matches Ok(Some(s)) ==> output@.len() > 0 && output@.last() == '\n' && s@
            == spec_sysroot_of(output@),
        r matches Err(e) ==> e == SysrootError::MalformedOutput && output@.len() > 0
            && output@.last() != '\n',
        output@.len() > 0 && output@.last() != '\n' ==> r == Err::<Option<String>, _>(
            SysrootError::MalformedOutput,
        ),
        r matches Ok(s) && s is None ==> output@.len() == 0,
        output@.len() > 0 && output@.last() == '\n' ==> (r matches Ok(s) && s is Some),
{
    let n = output.unicode_len();
    if n == 0 {
        return Ok(None);
    }
    if output.get_char(n - 1) != '\n' {
        return Err(SysrootError::MalformedOutput);
    }
    let s = output.substring_char(0, n - 1).to_owned();
    proof {
        assert(s@ =~= spec_sysroot_of(output@));
    }
    Ok(Some(s))
}

/// The directory searched for the runtime library: the sysroot's `lib`
/// directory, or for a cross pair the per-target `lib` directory under
/// `rustlib`.
pub open spec fn spec_std_search_dir(pair: Pair, sysroot: Seq<char>) -> Seq<char> {
    if pair.host != pair.target {
        sysroot + "/lib/"@ + "rustlib/"@ + spec_triple_str(pair.target) + "/lib"@
    } else {
        sysroot + "/lib/"@
    }
}

pub fn std_search_dir(pair: Pair, sysroot: &str) -> (r: String)
    ensures
        r@ == spec_std_search_dir(pair, sysroot@),
{
    if pair.foreign() {
        String::from_str(sysroot).concat("/lib/").concat("rustlib/").concat(
            triple_str(pair.target),
        ).concat("/lib")
    } else {
        String::from_str(sysroot).concat("/lib/")
    }
}

/// A directory path joined with an entry name.
pub open spec fn spec_join(dir: Seq<char>, name: Seq<char>) -> Seq<char> {
    if spec_ends_with(dir, "/"@) {
        dir + name
    } else {
        dir + "/"@ + name
    }
}

pub fn join_path(dir: &str, name: &str) -> (r: String)
    ensures
        r@ == spec_join(dir@, name@),
{
    if ends_with(dir, "/") {
        String::from_str(dir).concat(name)
    } else {
        String::from_str(dir).concat("/").concat(name)
    }
}

/// The file-name prefix of the runtime library under each target platform.
pub open spec fn std_prefix(t: Triple) -> Seq<char> {
    match t {
        Triple::LinuxX64 => "libstd-"@,
        Triple::WindowsX64 => "std-"@,
    }
}

/// The file-name extension of the runtime library under each target
/// platform.
pub open spec fn std_suffix(t: Triple) -> Seq<char> {
    match t {
        Triple::LinuxX64 => "so"@,
        Triple::WindowsX64 => "dll"@,
    }
}

/// The extra arguments appended to the toolchain's `cargo` command to ask
/// the compiler for its sysroot, for `token_package` under `pair`.
pub open spec fn spec_sysroot_tail(pair: Pair, token_package: Seq<char>) -> Seq<Seq<char>> {
    seq!["--quiet"@, "rustc"@, "-p"@, token_package] + (if pair.host != pair.target {
        seq!["--target="@ + spec_triple_str(pair.target)]
    } else {
        Seq::empty()
    }) + seq!["--"@, "--print"@, "sysroot"@]
}

/// The command that asks the toolchain for its sysroot: the table's
/// `cargo` entry for the pair, followed by the fixed query arguments.
pub fn sysroot_query_argv(tc: &Toolchain, pair: Pair, token_package: &str) -> (r: Result<
    Vec<String>,
    ConfigError,
>)
    ensures
        r matches Ok(v) ==> exists|base: Seq<Seq<char>>|
            #![auto]
            resolves_to(
                tc.table(),
                (spec_triple_str(pair.host), spec_triple_str(pair.target), "cargo"@),
                subs_view(Seq::empty()),
                pair.host == Triple::WindowsX64,
                base,
            ) && v.deep_view() == base + spec_sysroot_tail(pair, token_package@),
        r matches Err(ce) ==> spec_resolve_failure(
            tc.table(),
            (spec_triple_str(pair.host), spec_triple_str(pair.target), "cargo"@),
            subs_view(Seq::empty()),
            pair.host == Triple::WindowsX64,
            ce,
        ),
        spec_resolve_succeeds(
            tc.table(),
            (spec_triple_str(pair.host), spec_triple_str(pair.target), "cargo"@),
            subs_view(Seq::empty()),
            pair.host == Triple::WindowsX64,
        ) ==> r is Ok,
{
    let subs: Vec<(String, String)> = Vec::new();
    let mut argv = match tc.resolve(pair, "cargo", &subs) {
        Ok(v) => v,
        Err(e) => {
            return Err(e);
        },
    };
    let ghost base = argv.deep_view();
    proof {
        assert(subs@ =~= Seq::<(String, String)>::empty());
    }
    argv.push(String::from_str("--quiet"));
    argv.push(String::from_str("rustc"));
    argv.push(String::from_str("-p"));
    argv.push(token_package.to_owned());
    if pair.foreign() {
        argv.push(String::from_str("--target=").concat(triple_str(pair.target)));
    }
    argv.push(String::from_str("--"));
    argv.push(String::from_str("--print"));
    argv.push(String::from_str("sysroot"));
    proof {
        assert(argv.deep_view() =~= base + spec_sysroot_tail(pair, token_package@));
    }
    Ok(argv)
}

/// Interprets the sysroot query's output and searches the runtime library
/// directory for the pair's runtime-support module. `Ok(None)` means no
/// runtime was found — which the build treats as fatal, since there is no
/// fallback runtime — and an `Err` names what made the search itself
/// malfunction.
pub fn find_rust_std(pair: Pair, sysroot_output: &str) -> (r: Result<Option<String>, SysrootError>)
    ensures
        sysroot_output@.len() == 0 ==> r == Ok::<Option<String>, SysrootError>(None),
        sysroot_output@.len() > 0 && sysroot_output@.last() != '\n' ==> r == Err::<
            Option<String>,
            _,
        >(SysrootError::MalformedOutput),
        r matches Err(e) ==> e == SysrootError::MultipleMatches || (sysroot_output@.len() > 0
            && sysroot_output@.last() != '\n'),
        r matches Ok(Some(p)) ==> exists|name: Seq<char>|
            #![auto]
            p@ == spec_join(
                spec_std_search_dir(pair, spec_sysroot_of(sysroot_output@)),
                name,
            ) && is_name_match(name, std_prefix(pair.target), std_suffix(pair.target)),
{
    let sysroot = match parse_sysroot(sysroot_output) {
        Ok(None) => {
            return Ok(None);
        },
        Ok(Some(s)) => s,
        Err(e) => {
            return Err(e);
        },
    };
    let dir = std_search_dir(pair, sysroot.as_str());
    let names = match probe::list_dir(dir.as_str()) {
        None => {
            return Ok(None);
        },
        Some(names) => names,
    };
    let prefix: &str = match pair.target {
        Triple::LinuxX64 => "libstd-",
        Triple::WindowsX64 => "std-",
    };
    let suffix: &str = match pair.target {
        Triple::LinuxX64 => "so",
        Triple::WindowsX64 => "dll",
    };
    proof {
        assert(prefix@ == std_prefix(pair.target));
        assert(suffix@ == std_suffix(pair.target));
    }
    match glob1(&names, prefix, suffix) {
        Glob1Match::NoMatch => Ok(None),
        Glob1Match::One(name) => {
            let ghost m = spec_matches(names.deep_view(), prefix@, suffix@);
            proof {
                lemma_matches_all_match(names.deep_view(), prefix@, suffix@);
                assert(m[0] == name@);
                assert(is_name_match(name@, std_prefix(pair.target), std_suffix(pair.target)));
            }
            Ok(Some(join_path(dir.as_str(), name.as_str())))
        },
        Glob1Match::Many => Err(SysrootError::MultipleMatches),
    }
}

/// The host-rustc fallback probe: interprets the output of asking the
/// host compiler directly for its sysroot, and scans its `lib` directory.
/// This historical variant looks for a `libstd-` name with the `dll`
/// extension and takes no pair, so it never descends into a per-target
/// directory.
pub fn find_rustc_std(sysroot_output: &str) -> (r: Result<Option<String>, SysrootError>)
    ensures
        sysroot_output@.len() == 0 ==> r == Ok::<Option<String>, SysrootError>(None),
        sysroot_output@.len() > 0 && sysroot_output@.last() != '\n' ==> r == Err::<
            Option<String>,
            _,
        >(SysrootError::MalformedOutput),
        r matches Err(e) ==> e == SysrootError::MultipleMatches || (sysroot_output@.len() > 0
            && sysroot_output@.last() != '\n'),
        r matches Ok(Some(p)) ==> exists|name: Seq<char>|
            #![auto]
            p@ == spec_join(spec_sysroot_of(sysroot_output@) + "/lib/"@, name)
                && is_name_match(name, "libstd-"@, "dll"@),
{
    let sysroot = match parse_sysroot(sysroot_output) {
        Ok(None) => {
            return Ok(None);
        },
        Ok(Some(s)) => s,
        Err(e) => {
            return Err(e);
        },
    };
    let dir = String::from_str(sysroot.as_str()).concat("/lib/");
    let names = match probe::list_dir(dir.as_str()) {
        None => {
            return Ok(None);
        },
        Some(names) => names,
    };
    match glob1(&names, "libstd-", "dll") {
        Glob1Match::NoMatch => Ok(None),
        Glob1Match::One(name) => {
            let ghost m = spec_matches(names.deep_view(), "libstd-"@, "dll"@);
            proof {
                lemma_matches_all_match(names.deep_view(), "libstd-"@, "dll"@);
                assert(m[0] == name@);
                assert(is_name_match(name@, "libstd-"@, "dll"@));
            }
            Ok(Some(join_path(dir.as_str(), name.as_str())))
        },
        Glob1Match::Many => Err(SysrootError::MultipleMatches),
    }
}

} // verus!

//! The toolchain command table: a line-oriented configuration resource maps
//! (host, target, command-kind) keys to argument templates, and `resolve`
//! turns a template into a concrete command by placeholder substitution.
//!
//! Collision policy: a later line with the same key overwrites the earlier
//! one.

use vstd::prelude::*;
use vstd::string::*;
use crate::platform::{Pair, Triple, spec_triple_str, triple_str};
use crate::probe;
use crate::text::{
    contains_char, spec_replace, spec_split_lines, spec_split_ws, spec_starts_with, spec_trim,
    split_lines, split_ws, starts_with, str_eq, trim,
};

verus! {

/// A key into the command table.
#[derive(Debug)]
pub struct CommandKey {
    pub host: String,
    pub target: String,
    pub cmd: String,
}

/// The contents of a key, as a triple of character sequences.
pub open spec fn key3(k: CommandKey) -> (Seq<char>, Seq<char>, Seq<char>) {
    (k.host@, k.target@, k.cmd@)
}

/// One loaded table entry: a key and its argument template.
pub open spec fn entries_view(s: Seq<(CommandKey, Vec<String>)>) -> Seq<
    ((Seq<char>, Seq<char>, Seq<char>), Seq<Seq<char>>),
> {
    Seq::new(s.len(), |i: int| (key3(s[i].0), s[i].1.deep_view()))
}

/// Table lookup under the overwrite policy: the latest entry with the key
/// wins.
pub open spec fn spec_lookup(
    entries: Seq<((Seq<char>, Seq<char>, Seq<char>), Seq<Seq<char>>)>,
    key: (Seq<char>, Seq<char>, Seq<char>),
) -> Option<Seq<Seq<char>>>
    decreases entries.len(),
{
    if entries.len() == 0 {
        None
    } else if entries.last().0 == key {
        Some(entries.last().1)
    } else {
        spec_lookup(entries.drop_last(), key)
    }
}

/// A fatal configuration error; every variant names what offended.
#[derive(Debug, PartialEq, Eq)]
pub enum ConfigError {
    /// A non-comment line did not decompose into the three prefixed tokens.
    BadLine { line: String },
    /// No entry in the table for the requested key.
    MissingCommand { host: String, target: String, cmd: String },
    /// An argument still held a placeholder sigil after all substitutions.
    Unexpanded { arg: String },
    /// A wildcard argument could not be expanded against the filesystem.
    GlobFailed { pattern: String },
}

/// Whether the line carries nothing: blank, or a comment.
pub open spec fn line_is_skip(line: Seq<char>) -> bool {
    let t = spec_trim(line);
    t.len() == 0 || t[0] == '#'
}

/// Whether the line decomposes into `host:` `target:` `cmd:` tokens
/// followed by free-form arguments.
pub open spec fn line_is_entry(line: Seq<char>) -> bool {
    let w = spec_split_ws(spec_trim(line));
    &&& !line_is_skip(line)
    &&& w.len() >= 3
    &&& spec_starts_with(w[0], "host:"@)
    &&& spec_starts_with(w[1], "target:"@)
    &&& spec_starts_with(w[2], "cmd:"@)
}

/// The key of a well-formed entry line.
pub open spec fn line_key(line: Seq<char>) -> (Seq<char>, Seq<char>, Seq<char>) {
    let w = spec_split_ws(spec_trim(line));
    (
        w[0].skip("host:"@.len() as int),
        w[1].skip("target:"@.len() as int),
        w[2].skip("cmd:"@.len() as int),
    )
}

/// The argument template of a well-formed entry line.
pub open spec fn line_args(line: Seq<char>) -> Seq<Seq<char>> {
    spec_split_ws(spec_trim(line)).skip(3)
}

/// The table that a configuration text denotes: entries in line order, or
/// the first malformed line.
pub open spec fn spec_parse_lines(lines: Seq<Seq<char>>) -> Result<
    Seq<((Seq<char>, Seq<char>, Seq<char>), Seq<Seq<char>>)>,
    Seq<char>,
>
    decreases lines.len(),
{
    if lines.len() == 0 {
        Ok(Seq::empty())
    } else if line_is_skip(lines[0]) {
        spec_parse_lines(lines.skip(1))
    } else if !line_is_entry(lines[0]) {
        Err(lines[0])
    } else {
        match spec_parse_lines(lines.skip(1)) {
            Ok(rest) => Ok(seq![(line_key(lines[0]), line_args(lines[0]))] + rest),
            Err(e) => Err(e),
        }
    }
}

/// The token without its required prefix, or `None` where the prefix is
/// missing.
fn eat(word: &str, prefix: &str) -> (r: Option<String>)
    ensures
        r matches Some(s) ==> spec_starts_with(word@, prefix@) && s@ == word@.skip(
            prefix@.len() as int,
        ),
        r is None ==> !spec_starts_with(word@, prefix@),
{
    if starts_with(word, prefix) {
        let plen = prefix.unicode_len();
        let wlen = word.unicode_len();
        let rest = word.substring_char(plen, wlen).to_owned();
        proof {
            assert(word@.subrange(prefix@.len() as int, word@.len() as int) =~= word@.skip(
                prefix@.len() as int,
            ));
        }
        Some(rest)
    } else {
        None
    }
}

/// The loaded command table, read-only for the process lifetime once built.
#[derive(Debug)]
pub struct Toolchain {
    /// Whether a cross build of the foreign target was requested alongside.
    pub compile: bool,
    pub cmds: Vec<(CommandKey, Vec<String>)>,
}

impl Toolchain {
    /// The table as loaded, in line order.
    pub open spec fn table(&self) -> Seq<
        ((Seq<char>, Seq<char>, Seq<char>), Seq<Seq<char>>),
    > {
        entries_view(self.cmds@)
    }

    /// Parses the configuration text. Comment and blank lines carry
    /// nothing; every other line must decompose into `host:` `target:`
    /// `cmd:` tokens followed by arguments, and the first line that does
    /// not is reported as fatal.
    pub fn parse(text: &str, compile: bool) -> (r: Result<Toolchain, ConfigError>)
        ensures
            r matches Ok(tc) ==> spec_parse_lines(spec_split_lines(text@)) == Ok::<_, Seq<char>>(
                tc.table(),
            ) && tc.compile == compile,
            r matches Err(e) ==> e matches ConfigError::BadLine { line } && spec_parse_lines(
                spec_split_lines(text@),
            ) == Err::<Seq<((Seq<char>, Seq<char>, Seq<char>), Seq<Seq<char>>)>, _>(line@),
            spec_parse_lines(spec_split_lines(text@)) is Ok ==> r is Ok,
    {
        let lines = split_lines(text);
        let ghost lv = spec_split_lines(text@);
        let mut cmds: Vec<(CommandKey, Vec<String>)> = Vec::new();
        let n = lines.len();
        let mut i: usize = 0;
        proof {
            assert(lv.skip(0) =~= lv);
            assert(entries_view(cmds@) =~= Seq::<
                ((Seq<char>, Seq<char>, Seq<char>), Seq<Seq<char>>),
            >::empty());
        }
        while i < n
            invariant
                i <= n,
                n == lines@.len(),
                lv == spec_split_lines(text@),
                lines.deep_view() == lv,
                spec_parse_lines(lv) == match spec_parse_lines(lv.skip(i as int)) {
                    Ok(rest) => Ok::<_, Seq<char>>(entries_view(cmds@) + rest),
                    Err(e) => Err::<Seq<((Seq<char>, Seq<char>, Seq<char>), Seq<Seq<char>>)>,
                        _,
                    >(e),
                },
            decreases n - i,
        {
            let ghost rest_lines = lv.skip(i as int);
            proof {
                assert(rest_lines[0] == lv[i as int]);
                assert(rest_lines.skip(1) =~= lv.skip(i + 1));
                assert(lines.deep_view()[i as int] == lines@[i as int]@);
            }
            let line = &lines[i];
            let t = trim(line.as_str());
            let tlen = t.unicode_len();
            let skip_line = tlen == 0 || t.get_char(0) == '#';
            if !skip_line {
                let words = split_ws(t);
                if words.len() < 3 {
                    return Err(ConfigError::BadLine { line: line.clone() });
                }
                let host = eat(words[0].as_str(), "host:");
                let target = eat(words[1].as_str(), "target:");
                let cmd = eat(words[2].as_str(), "cmd:");
                proof {
                    assert(words.deep_view()[0] == words@[0]@);
                    assert(words.deep_view()[1] == words@[1]@);
                    assert(words.deep_view()[2] == words@[2]@);
                }
                match (host, target, cmd) {
                    (Some(host), Some(target), Some(cmd)) => {
                        let mut words = words;
                        let ghost wv = words.deep_view();
                        let args = words.split_off(3);
                        let ghost e = (line_key(lv[i as int]), line_args(lv[i as int]));
                        let ghost old_cmds = entries_view(cmds@);
                        proof {
                            assert(line_is_entry(lv[i as int]));
                            assert(args.deep_view() =~= wv.skip(3));
                            assert(e.0 == (host@, target@, cmd@));
                        }
                        cmds.push((CommandKey { host, target, cmd }, args));
                        proof {
                            assert(entries_view(cmds@) =~= old_cmds.push(e));
                            assert(old_cmds.push(e) =~= old_cmds + seq![e]);
                            let rec = spec_parse_lines(lv.skip(i + 1));
                            if rec is Ok {
                                let rest = rec->Ok_0;
                                assert(old_cmds + (seq![e] + rest) =~= (old_cmds + seq![e])
                                    + rest);
                            }
                        }
                    },
                    _ => {
                        return Err(ConfigError::BadLine { line: line.clone() });
                    },
                }
            } else {
                proof {
                    assert(line_is_skip(lv[i as int]));
                }
            }
            i += 1;
        }
        proof {
            assert(lv.skip(n as int) =~= Seq::<Seq<char>>::empty());
            assert(entries_view(cmds@) + Seq::<
                ((Seq<char>, Seq<char>, Seq<char>), Seq<Seq<char>>),
            >::empty() =~= entries_view(cmds@));
        }
        Ok(Toolchain { compile, cmds })
    }

    /// The index of the latest entry with the key, scanning newest first.
    fn lookup_idx(&self, host: &str, target: &str, cmd: &str) -> (r: Option<usize>)
        ensures
            r matches Some(i) ==> i < self.cmds@.len() && spec_lookup(
                self.table(),
                (host@, target@, cmd@),
            ) == Some(self.table()[i as int].1) && self.table()[i as int].0 == (
                host@,
                target@,
                cmd@,
            ),
            r is None ==> spec_lookup(self.table(), (host@, target@, cmd@)) is None,
    {
        let ghost key = (host@, target@, cmd@);
        let n = self.cmds.len();
        let mut i: usize = n;
        proof {
            assert(self.table().take(n as int) =~= self.table());
        }
        while i > 0
            invariant
                i <= n,
                n == self.cmds@.len(),
                key == (host@, target@, cmd@),
                spec_lookup(self.table(), key) == spec_lookup(
                    self.table().take(i as int),
                    key,
                ),
            decreases i,
        {
            i -= 1;
            let k = &self.cmds[i].0;
            let hit = str_eq(k.host.as_str(), host) && str_eq(k.target.as_str(), target)
                && str_eq(k.cmd.as_str(), cmd);
            proof {
                let tbl = self.table();
                assert(tbl.take(i + 1).last() == tbl[i as int]);
                assert(tbl.take(i + 1).drop_last() =~= tbl.take(i as int));
            }
            if hit {
                return Some(i);
            }
        }
        proof {
            assert(self.table().take(0) =~= Seq::<
                ((Seq<char>, Seq<char>, Seq<char>), Seq<Seq<char>>),
            >::empty());
        }
        None
    }
}

/// The substitution set, as pairs of character sequences.
pub open spec fn subs_view(s: Seq<(String, String)>) -> Seq<(Seq<char>, Seq<char>)> {
    Seq::new(s.len(), |i: int| (s[i].0@, s[i].1@))
}

/// One argument after every substitution has been applied, in the order
/// given, each by literal string replacement.
pub open spec fn spec_substitute_arg(arg: Seq<char>, subs: Seq<(Seq<char>, Seq<char>)>) -> Seq<
    char,
>
    decreases subs.len(),
{
    if subs.len() == 0 {
        arg
    } else {
        spec_replace(
            spec_substitute_arg(arg, subs.drop_last()),
            subs.last().0,
            subs.last().1,
        )
    }
}

/// Every argument of a template after substitution.
pub open spec fn spec_substituted_all(args: Seq<Seq<char>>, subs: Seq<(Seq<char>, Seq<char>)>) -> Seq<
    Seq<char>,
> {
    Seq::new(args.len(), |i: int| spec_substitute_arg(args[i], subs))
}

/// The arguments with the empty ones dropped, in order.
pub open spec fn spec_keep_nonempty(s: Seq<Seq<char>>) -> Seq<Seq<char>>
    decreases s.len(),
{
    if s.len() == 0 {
        Seq::empty()
    } else if s.last().len() == 0 {
        spec_keep_nonempty(s.drop_last())
    } else {
        spec_keep_nonempty(s.drop_last()).push(s.last())
    }
}

/// Whether any argument still carries the placeholder sigil.
pub open spec fn has_placeholder(s: Seq<Seq<char>>) -> bool {
    exists|i: int| 0 <= i < s.len() && s[i].contains('$')
}

/// Whether any argument carries a wildcard that non-Windows hosts expand
/// locally.
pub open spec fn has_wildcard(s: Seq<Seq<char>>) -> bool {
    exists|i: int| 0 <= i < s.len() && s[i].contains('*')
}

/// What resolving a key against a table yields before wildcard expansion:
/// the template with all substitutions applied and empty arguments dropped,
/// or nothing when the table has no entry for the key.
pub open spec fn spec_resolved(
    table: Seq<((Seq<char>, Seq<char>, Seq<char>), Seq<Seq<char>>)>,
    key: (Seq<char>, Seq<char>, Seq<char>),
    subs: Seq<(Seq<char>, Seq<char>)>,
) -> Option<Seq<Seq<char>>> {
    match spec_lookup(table, key) {
        None => None,
        Some(args) => Some(spec_keep_nonempty(spec_substituted_all(args, subs))),
    }
}

/// One argument with all the substitutions applied in order.
fn substitute_arg(arg: &str, subs: &Vec<(String, String)>) -> (r: String)
    ensures
        r@ == spec_substitute_arg(arg@, subs_view(subs@)),
{
    let ghost sv = subs_view(subs@);
    let mut acc = arg.to_owned();
    let n = subs.len();
    let mut j: usize = 0;
    proof {
        assert(sv.take(0) =~= Seq::<(Seq<char>, Seq<char>)>::empty());
    }
    while j < n
        invariant
            j <= n,
            n == subs@.len(),
            sv == subs_view(subs@),
            acc@ == spec_substitute_arg(arg@, sv.take(j as int)),
        decreases n - j,
    {
        proof {
            assert(sv.take(j + 1).drop_last() =~= sv.take(j as int));
            assert(sv.take(j + 1).last() == sv[j as int]);
        }
        let key = &subs[j].0;
        let val = &subs[j].1;
        if key.as_str().unicode_len() > 0 {
            acc = crate::text::replace_all(acc.as_str(), key.as_str(), val.as_str());
        }
        j += 1;
    }
    proof {
        assert(sv.take(n as int) =~= sv);
    }
    acc
}

/// How a group decomposition relates wildcard expansion's output to its
/// input: one group of expanded arguments per original argument, in order;
/// an argument that is not locally expanded (on a Windows host, or without
/// a wildcard) stands alone and unchanged, and no group is empty, because a
/// pattern that matches nothing is kept literally.
pub open spec fn groups_ok(
    args: Seq<Seq<char>>,
    groups: Seq<Seq<Seq<char>>>,
    windows_host: bool,
) -> bool {
    &&& groups.len() == args.len()
    &&& forall|i: int| 0 <= i < args.len() ==> #[trigger] groups[i].len() >= 1
    &&& forall|i: int|
        0 <= i < args.len() && (windows_host || !args[i].contains('*'))
            ==> #[trigger] groups[i] == seq![args[i]]
}

/// The groups, flattened back into one argument list.
pub open spec fn spec_flat(groups: Seq<Seq<Seq<char>>>) -> Seq<Seq<char>>
    decreases groups.len(),
{
    if groups.len() == 0 {
        Seq::empty()
    } else {
        spec_flat(groups.drop_last()) + groups.last()
    }
}

/// What a fully resolved command line is: the key's template with every
/// substitution applied and no placeholder left, carried through wildcard
/// expansion group by group.
pub open spec fn resolves_to(
    table: Seq<((Seq<char>, Seq<char>, Seq<char>), Seq<Seq<char>>)>,
    key: (Seq<char>, Seq<char>, Seq<char>),
    subs: Seq<(Seq<char>, Seq<char>)>,
    windows_host: bool,
    out: Seq<Seq<char>>,
) -> bool {
    exists|rargs: Seq<Seq<char>>|
        #![auto]
        {
            &&& spec_resolved(table, key, subs) == Some(rargs)
            &&& !has_placeholder(rargs)
            &&& exists|groups: Seq<Seq<Seq<char>>>|
                #![auto]
                groups_ok(rargs, groups, windows_host) && out == spec_flat(groups)
        }
}

/// What each resolution error names, over the resolved-template view: a
/// missing entry carries exactly the key it looked for, a leftover
/// placeholder carries an offending resolved argument, and a failed
/// expansion carries the offending wildcard pattern, on a non-Windows
/// host only.
pub open spec fn spec_resolve_failure(
    table: Seq<((Seq<char>, Seq<char>, Seq<char>), Seq<Seq<char>>)>,
    key: (Seq<char>, Seq<char>, Seq<char>),
    subs: Seq<(Seq<char>, Seq<char>)>,
    windows_host: bool,
    ce: ConfigError,
) -> bool {
    let res = spec_resolved(table, key, subs);
    match ce {
        ConfigError::MissingCommand { host, target, cmd } => res is None && host@ == key.0
            && target@ == key.1 && cmd@ == key.2,
        ConfigError::Unexpanded { arg } => res matches Some(vv) && vv.contains(arg@)
            && arg@.contains('$'),
        ConfigError::GlobFailed { pattern } => !windows_host && (res matches Some(vv)
            && vv.contains(pattern@) && pattern@.contains('*')),
        ConfigError::BadLine { .. } => false,
    }
}

/// When resolution is owed success: the entry exists, no placeholder
/// survives substitution, and no outside call decides — on a Windows host
/// nothing is expanded locally, and a resolved template without wildcards
/// never reaches the filesystem.
pub open spec fn spec_resolve_succeeds(
    table: Seq<((Seq<char>, Seq<char>, Seq<char>), Seq<Seq<char>>)>,
    key: (Seq<char>, Seq<char>, Seq<char>),
    subs: Seq<(Seq<char>, Seq<char>)>,
    windows_host: bool,
) -> bool {
    match spec_resolved(table, key, subs) {
        None => false,
        Some(vv) => !has_placeholder(vv) && (windows_host || !has_wildcard(vv)),
    }
}

/// Where no local expansion can occur — on a Windows host, or when no
/// argument carries a wildcard — any group decomposition of the output
/// degenerates to the argument list itself: the resolved command is then
/// exactly the substituted template.
pub proof fn law_expansion_without_wildcards_is_identity(
    args: Seq<Seq<char>>,
    groups: Seq<Seq<Seq<char>>>,
    windows_host: bool,
)
    requires
        groups_ok(args, groups, windows_host),
        windows_host || forall|i: int| 0 <= i < args.len() ==> !(#[trigger] args[i]).contains(
            '*',
        ),
    ensures
        spec_flat(groups) == args,
    decreases groups.len(),
{
    if groups.len() == 0 {
        assert(spec_flat(groups) =~= args);
    } else {
        assert(groups[groups.len() - 1] == seq![args[args.len() - 1]]);
        assert(groups_ok(args.drop_last(), groups.drop_last(), windows_host)) by {
            assert forall|i: int| 0 <= i < args.drop_last().len() implies (
            #[trigger] groups.drop_last()[i]).len() >= 1 && ((windows_host
                || !args.drop_last()[i].contains('*')) ==> groups.drop_last()[i] == seq![
                args.drop_last()[i],
            ]) by {
                assert(groups.drop_last()[i] == groups[i]);
                assert(args.drop_last()[i] == args[i]);
            }
        }
        law_expansion_without_wildcards_is_identity(
            args.drop_last(),
            groups.drop_last(),
            windows_host,
        );
        assert(spec_flat(groups) =~= args.drop_last() + seq![args.last()]);
        assert(args.drop_last() + seq![args.last()] =~= args);
    }
}

/// No placeholder survives into a command that resolution hands out
/// without local expansion: a fully substituted, placeholder-free
/// template carried through any group decomposition on a Windows host —
/// or one without wildcards anywhere — is placeholder-free argument by
/// argument.
pub proof fn law_placeholder_free_resolution(
    rargs: Seq<Seq<char>>,
    groups: Seq<Seq<Seq<char>>>,
    windows_host: bool,
)
    requires
        !has_placeholder(rargs),
        groups_ok(rargs, groups, windows_host),
        windows_host || !has_wildcard(rargs),
    ensures
        !has_placeholder(spec_flat(groups)),
{
    if !windows_host {
        assert forall|i: int| 0 <= i < rargs.len() implies !(#[trigger] rargs[i]).contains(
            '*',
        ) by {
            if rargs[i].contains('*') {
                assert(has_wildcard(rargs));
            }
        }
    }
    law_expansion_without_wildcards_is_identity(rargs, groups, windows_host);
}

/// What one argument expands to, given the match list the filesystem
/// handed back for it (`None` stands for a failed expansion): where no
/// local expansion applies, the argument alone; where the pattern matched
/// nothing, the literal pattern kept as a single argument, so the
/// external tool can report the absence itself; else the matches, in
/// order.
pub fn expand_one(arg: &String, found: Option<Vec<String>>, windows_host: bool) -> (r: Result<
    Vec<String>,
    ConfigError,
>)
    ensures
        windows_host || !arg@.contains('*') ==> (r matches Ok(v) && v.deep_view() == seq![
            arg@,
        ]),
        !windows_host && arg@.contains('*') ==> match found {
            None => r matches Err(e) && (e matches ConfigError::GlobFailed { pattern }
                && pattern@ == arg@),
            Some(m) => r matches Ok(v) && v.deep_view() == (if m.deep_view().len() == 0 {
                seq![arg@]
            } else {
                m.deep_view()
            }),
        },
        r matches Ok(v) ==> v.deep_view().len() >= 1,
{
    if windows_host || !contains_char(arg.as_str(), '*') {
        let mut v: Vec<String> = Vec::new();
        v.push(arg.clone());
        proof {
            assert(v.deep_view() =~= seq![arg@]);
        }
        Ok(v)
    } else {
        match found {
            None => Err(ConfigError::GlobFailed { pattern: arg.clone() }),
            Some(m) => {
                if m.len() == 0 {
                    let mut v: Vec<String> = Vec::new();
                    v.push(arg.clone());
                    proof {
                        assert(v.deep_view() =~= seq![arg@]);
                    }
                    Ok(v)
                } else {
                    Ok(m)
                }
            },
        }
    }
}

/// Expands wildcard arguments against the filesystem on non-Windows
/// hosts, one argument at a time through [`expand_one`], which carries
/// the per-argument decision's exact contract. On Windows hosts the
/// invoked tool is assumed to do its own expansion, so every argument is
/// kept as it is, and the whole result is the argument list unchanged.
pub fn expand_wildcards(args: Vec<String>, windows_host: bool) -> (r: Result<
    Vec<String>,
    ConfigError,
>)
    ensures
        r matches Ok(v) ==> exists|groups: Seq<Seq<Seq<char>>>|
            groups_ok(args.deep_view(), groups, windows_host) && v.deep_view() == spec_flat(
                groups,
            ),
        windows_host || !has_wildcard(args.deep_view()) ==> (r matches Ok(v) ==> v.deep_view()
            == args.deep_view()),
        r matches Err(e) ==> e matches ConfigError::GlobFailed { pattern } && !windows_host
            && pattern@.contains('*') && args.deep_view().contains(pattern@),
        windows_host || !has_wildcard(args.deep_view()) ==> r is Ok,
{
    let ghost av = args.deep_view();
    let mut out: Vec<String> = Vec::new();
    let ghost mut groups: Seq<Seq<Seq<char>>> = Seq::empty();
    let n = args.len();
    let mut i: usize = 0;
    proof {
        assert(av.take(0) =~= Seq::<Seq<char>>::empty());
        assert(out.deep_view() =~= spec_flat(groups));
    }
    while i < n
        invariant
            i <= n,
            n == args@.len(),
            av == args.deep_view(),
            groups_ok(av.take(i as int), groups, windows_host),
            out.deep_view() == spec_flat(groups),
        decreases n - i,
    {
        let a = &args[i];
        proof {
            assert(av[i as int] == args@[i as int]@);
        }
        let needs_glob = !windows_host && contains_char(a.as_str(), '*');
        let found: Option<Vec<String>> = if needs_glob {
            probe::glob_list(a.as_str())
        } else {
            None
        };
        let mut group = match expand_one(a, found, windows_host) {
            Ok(g) => g,
            Err(e) => {
                proof {
                    assert(av.contains(av[i as int]));
                    assert(has_wildcard(av)) by {
                        assert(0 <= i < av.len() && av[i as int].contains('*'));
                    }
                }
                return Err(e);
            },
        };
        let ghost g = group.deep_view();
        let ghost old_groups = groups;
        let ghost old_out = out.deep_view();
        out.append(&mut group);
        proof {
            groups = groups.push(g);
            assert(groups.drop_last() =~= old_groups);
            assert(out.deep_view() =~= old_out + g);
            assert(av.take(i + 1).drop_last() =~= av.take(i as int));
            assert(groups_ok(av.take(i + 1), groups, windows_host));
        }
        i += 1;
    }
    proof {
        assert(av.take(n as int) =~= av);
        assert(groups_ok(args.deep_view(), groups, windows_host));
        assert(out.deep_view() == spec_flat(groups));
        if windows_host {
            law_expansion_without_wildcards_is_identity(args.deep_view(), groups, true);
        } else if !has_wildcard(args.deep_view()) {
            assert forall|i: int| 0 <= i < args.deep_view().len() implies !(
            #[trigger] args.deep_view()[i]).contains('*') by {
                if args.deep_view()[i].contains('*') {
                    assert(has_wildcard(args.deep_view()));
                }
            }
            law_expansion_without_wildcards_is_identity(args.deep_view(), groups, false);
        }
    }
    Ok(out)
}

impl Toolchain {
    /// Looks the key up and applies the substitutions: the resolved
    /// template with every `$NAME` placeholder replaced, empty arguments
    /// dropped, and — the primary defense against incomplete configuration
    /// — no placeholder sigil left anywhere in the result.
    pub fn resolve_args(&self, pair: Pair, cmd: &str, subs: &Vec<(String, String)>) -> (r:
        Result<Vec<String>, ConfigError>)
        ensures
            ({
                let key = (spec_triple_str(pair.host), spec_triple_str(pair.target), cmd@);
                let res = spec_resolved(self.table(), key, subs_view(subs@));
                &&& (r matches Ok(v) ==> res == Some(v.deep_view()) && !has_placeholder(
                    v.deep_view(),
                ))
                &&& (r matches Err(e) ==> match e {
                    ConfigError::MissingCommand { host, target, cmd: c } => res is None
                        && host@ == spec_triple_str(pair.host) && target@ == spec_triple_str(
                        pair.target,
                    ) && c@ == cmd@,
                    ConfigError::Unexpanded { arg } => res matches Some(vv) && vv.contains(
                        arg@,
                    ) && arg@.contains('$'),
                    _ => false,
                })
                &&& (res matches Some(vv) && !has_placeholder(vv) ==> r is Ok)
            }),
    {
        let host = triple_str(pair.host);
        let target = triple_str(pair.target);
        let idx = match self.lookup_idx(host, target, cmd) {
            None => {
                return Err(
                    ConfigError::MissingCommand {
                        host: host.to_owned(),
                        target: target.to_owned(),
                        cmd: cmd.to_owned(),
                    },
                );
            },
            Some(idx) => idx,
        };
        let tmpl = &self.cmds[idx].1;
        let ghost tv = self.table()[idx as int].1;
        let ghost sv = subs_view(subs@);
        let ghost full = spec_substituted_all(tv, sv);
        let mut out: Vec<String> = Vec::new();
        let m = tmpl.len();
        let mut j: usize = 0;
        proof {
            assert(tv == tmpl.deep_view());
            assert(full.take(0) =~= Seq::<Seq<char>>::empty());
            assert(out.deep_view() =~= spec_keep_nonempty(full.take(0)));
        }
        while j < m
            invariant
                j <= m,
                m == tmpl@.len(),
                tv == tmpl.deep_view(),
                sv == subs_view(subs@),
                full == spec_substituted_all(tv, sv),
                out.deep_view() == spec_keep_nonempty(full.take(j as int)),
            decreases m - j,
        {
            proof {
                assert(full.take(j + 1).drop_last() =~= full.take(j as int));
                assert(full.take(j + 1).last() == full[j as int]);
                assert(tv[j as int] == tmpl@[j as int]@);
            }
            let s = substitute_arg(tmpl[j].as_str(), subs);
            if s.as_str().unicode_len() > 0 {
                let ghost old_out = out.deep_view();
                out.push(s);
                proof {
                    assert(out.deep_view() =~= old_out.push(full[j as int]));
                }
            }
            j += 1;
        }
        proof {
            assert(full.take(m as int) =~= full);
        }
        let ghost vv = spec_keep_nonempty(full);
        let ghost key = (spec_triple_str(pair.host), spec_triple_str(pair.target), cmd@);
        proof {
            assert(spec_resolved(self.table(), key, subs_view(subs@)) == Some(vv));
        }
        let k = out.len();
        let mut j: usize = 0;
        while j < k
            invariant
                j <= k,
                k == out@.len(),
                out.deep_view() == vv,
                key == (spec_triple_str(pair.host), spec_triple_str(pair.target), cmd@),
                spec_resolved(self.table(), key, subs_view(subs@)) == Some(vv),
                forall|p: int| 0 <= p < j ==> !(#[trigger] vv[p]).contains('$'),
            decreases k - j,
        {
            proof {
                assert(vv[j as int] == out@[j as int]@);
            }
            if contains_char(out[j].as_str(), '$') {
                proof {
                    assert(vv.contains(vv[j as int])) by {
                        assert(vv[j as int] == vv[j as int]);
                    }
                    assert(has_placeholder(vv)) by {
                        assert(0 <= j < vv.len() && vv[j as int].contains('$'));
                    }
                }
                return Err(ConfigError::Unexpanded { arg: out[j].clone() });
            }
            j += 1;
        }
        Ok(out)
    }

    /// Resolves the command for (pair, kind): key lookup, substitution, the
    /// placeholder check, and local wildcard expansion on non-Windows
    /// hosts. Missing entries, leftover placeholders and failed expansion
    /// are each reported as the fatal configuration error they are.
    pub fn resolve(&self, pair: Pair, cmd: &str, subs: &Vec<(String, String)>) -> (r: Result<
        Vec<String>,
        ConfigError,
    >)
        ensures
            ({
                let key = (spec_triple_str(pair.host), spec_triple_str(pair.target), cmd@);
                let res = spec_resolved(self.table(), key, subs_view(subs@));
                let windows_host = pair.host == Triple::WindowsX64;
                &&& (r matches Ok(v) ==> resolves_to(
                    self.table(),
                    key,
                    subs_view(subs@),
                    windows_host,
                    v.deep_view(),
                ))
                &&& (windows_host || (res matches Some(vv) && !has_wildcard(vv)) ==> (
                r matches Ok(v) ==> res == Some(v.deep_view()) && !has_placeholder(
                    v.deep_view(),
                )))
                &&& (r matches Err(e) ==> spec_resolve_failure(
                    self.table(),
                    key,
                    subs_view(subs@),
                    windows_host,
                    e,
                ))
                &&& (spec_resolve_succeeds(self.table(), key, subs_view(subs@), windows_host)
                    ==> r is Ok)
            }),
    {
        let windows_host = pair.host == Triple::WindowsX64;
        match self.resolve_args(pair, cmd, subs) {
            Err(e) => Err(e),
            Ok(v) => expand_wildcards(v, windows_host),
        }
    }
}

} // verus!

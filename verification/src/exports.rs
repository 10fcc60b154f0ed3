//! Extracting externally-linkable symbol names from a line-oriented textual
//! dump of compiled intermediate representation.
//!
//! Each line that begins with the record-start marker `^` describes one
//! compiled entity. Tokens are separated by a small delimiter set, and each
//! token carries the delimiter that closed it; a token `name` closed by a
//! colon announces a quoted symbol name, and a token `linkage` closed by a
//! colon announces the linkage classification. A record yields an export
//! only when its classification is `external`, and a second `name` field in
//! one record is a fatal parser-consistency error: the simple tokenizer is
//! presumed confused, not the input.

use vstd::prelude::*;
use vstd::string::*;
use crate::text::{
    contains_char, spec_split_lines, spec_starts_with, spec_trim, split_lines, starts_with,
    str_eq, trim,
};

verus! {

/// What stops an extraction run; all are fatal.
#[derive(Debug, Copy, Clone, PartialEq, Eq, Structural)]
pub enum ExportError {
    /// A `name` or `linkage` key stood last in its record, with no value
    /// token after it.
    TruncatedRecord,
    /// A symbol name value was not a plain quoted string.
    BadName,
    /// Two `name` fields appeared in one record before the record boundary.
    MultipleNames,
}

/// The delimiter set that separates tokens within a record.
pub open spec fn is_delim(c: char) -> bool {
    c == ' ' || c == '=' || c == ':' || c == '(' || c == ')' || c == ','
}

pub fn is_delim_char(c: char) -> (r: bool)
    ensures
        r == is_delim(c),
{
    c == ' ' || c == '=' || c == ':' || c == '(' || c == ')' || c == ','
}

/// The tokens of a record: each word paired with the delimiter that closed
/// it (the final word keeps the last delimiter seen, initially the record
/// marker), with empty words closed by a plain space dropped.
pub open spec fn tokenize_from(s: Seq<char>, cur: Seq<char>, prev: char) -> Seq<
    (char, Seq<char>),
>
    decreases s.len(),
{
    if s.len() == 0 {
        if cur.len() == 0 && prev == ' ' {
            Seq::empty()
        } else {
            seq![(prev, cur)]
        }
    } else if is_delim(s[0]) {
        let rest = tokenize_from(s.skip(1), Seq::empty(), s[0]);
        if cur.len() == 0 && s[0] == ' ' {
            rest
        } else {
            seq![(s[0], cur)] + rest
        }
    } else {
        tokenize_from(s.skip(1), cur.push(s[0]), prev)
    }
}

pub open spec fn spec_tokenize(line: Seq<char>) -> Seq<(char, Seq<char>)> {
    tokenize_from(line, Seq::empty(), '^')
}

/// The tokens as runtime values, each word paired with its closing
/// delimiter.
pub open spec fn toks_view(v: Seq<(char, String)>) -> Seq<(char, Seq<char>)> {
    Seq::new(v.len(), |i: int| (v[i].0, v[i].1@))
}

pub fn tokenize(line: &str) -> (r: Vec<(char, String)>)
    ensures
        toks_view(r@) == spec_tokenize(line@),
{
    let n = line.unicode_len();
    let mut out: Vec<(char, String)> = Vec::new();
    let mut i: usize = 0;
    let mut ws: usize = 0;
    let mut prev: char = '^';
    proof {
        assert(line@.skip(0) =~= line@);
        assert(line@.subrange(0, 0) =~= Seq::<char>::empty());
        assert(toks_view(out@) =~= Seq::<(char, Seq<char>)>::empty());
        assert(toks_view(out@) + spec_tokenize(line@) =~= spec_tokenize(line@));
    }
    while i < n
        invariant
            ws <= i <= n,
            n == line@.len(),
            toks_view(out@) + tokenize_from(
                line@.skip(i as int),
                line@.subrange(ws as int, i as int),
                prev,
            ) == spec_tokenize(line@),
        decreases n - i,
    {
        let ghost rest = line@.skip(i as int);
        let ghost cur = line@.subrange(ws as int, i as int);
        let c = line.get_char(i);
        if is_delim_char(c) {
            if i > ws || c != ' ' {
                let word = line.substring_char(ws, i).to_owned();
                let ghost old_out = toks_view(out@);
                out.push((c, word));
                proof {
                    assert(toks_view(out@) =~= old_out.push((c, cur)));
                    assert(old_out.push((c, cur)) =~= old_out + seq![(c, cur)]);
                    assert(rest.skip(1) =~= line@.skip(i + 1));
                }
            } else {
                proof {
                    assert(rest.skip(1) =~= line@.skip(i + 1));
                }
            }
            i += 1;
            ws = i;
            prev = c;
            proof {
                assert(line@.subrange(ws as int, i as int) =~= Seq::<char>::empty());
            }
        } else {
            i += 1;
            proof {
                assert(rest.skip(1) =~= line@.skip(i as int));
                assert(cur.push(rest[0]) =~= line@.subrange(ws as int, i as int));
            }
        }
    }
    proof {
        assert(line@.skip(n as int) =~= Seq::<char>::empty());
    }
    if n > ws || prev != ' ' {
        let word = line.substring_char(ws, n).to_owned();
        let ghost old_out = toks_view(out@);
        let ghost cur = line@.subrange(ws as int, n as int);
        out.push((prev, word));
        proof {
            assert(toks_view(out@) =~= old_out.push((prev, cur)));
            assert(old_out.push((prev, cur)) =~= old_out + seq![(prev, cur)]);
        }
    }
    out
}

/// A value with its leading quote characters removed.
pub open spec fn dq_front(s: Seq<char>) -> Seq<char>
    decreases s.len(),
{
    if s.len() > 0 && s[0] == '"' {
        dq_front(s.skip(1))
    } else {
        s
    }
}

/// A value with its trailing quote characters removed.
pub open spec fn dq_back(s: Seq<char>) -> Seq<char>
    decreases s.len(),
{
    if s.len() > 0 && s[s.len() - 1] == '"' {
        dq_back(s.take(s.len() - 1))
    } else {
        s
    }
}

/// A quoted value with all leading and trailing quote characters removed.
pub open spec fn spec_dequote(s: Seq<char>) -> Seq<char> {
    dq_back(dq_front(s))
}

proof fn lemma_dq_front_is_skip(s: Seq<char>, a: int)
    requires
        0 <= a <= s.len(),
        forall|j: int| 0 <= j < a ==> s[j] == '"',
        a == s.len() || s[a] != '"',
    ensures
        dq_front(s) == s.skip(a),
    decreases a,
{
    if a == 0 {
        assert(s.skip(0) =~= s);
    } else {
        lemma_dq_front_is_skip(s.skip(1), a - 1);
        assert(s.skip(1).skip(a - 1) =~= s.skip(a));
    }
}

proof fn lemma_dq_back_is_take(s: Seq<char>, b: int)
    requires
        0 <= b <= s.len(),
        forall|j: int| b <= j < s.len() ==> s[j] == '"',
        b == 0 || s[b - 1] != '"',
    ensures
        dq_back(s) == s.take(b),
    decreases s.len() - b,
{
    if b == s.len() {
        assert(s.take(b) =~= s);
    } else {
        lemma_dq_back_is_take(s.take(s.len() - 1), b);
        assert(s.take(s.len() - 1).take(b) =~= s.take(b));
    }
}

/// The value without its surrounding quote characters.
pub fn dequote(s: &str) -> (r: String)
    ensures
        r@ == spec_dequote(s@),
{
    let n = s.unicode_len();
    let mut a: usize = 0;
    while a < n && s.get_char(a) == '"'
        invariant
            a <= n,
            n == s@.len(),
            forall|j: int| 0 <= j < a ==> s@[j] == '"',
        decreases n - a,
    {
        a += 1;
    }
    proof {
        lemma_dq_front_is_skip(s@, a as int);
    }
    if a == n {
        let r = s.substring_char(n, n).to_owned();
        proof {
            assert(r@ =~= s@.skip(n as int));
            assert(dq_back(r@) == r@);
        }
        return r;
    }
    let mut b: usize = n;
    while b > a && s.get_char(b - 1) == '"'
        invariant
            a <= b <= n,
            n == s@.len(),
            forall|j: int| b <= j < n ==> s@[j] == '"',
        decreases b,
    {
        b -= 1;
    }
    let r = s.substring_char(a, b).to_owned();
    proof {
        let front = s@.skip(a as int);
        lemma_dq_back_is_take(front, b - a);
        assert(r@ =~= front.take(b - a));
    }
    r
}

/// Whether a name value is a plain quoted string: it starts and ends with
/// a quote and holds no backslash escape.
pub open spec fn plain_quoted(v: Seq<char>) -> bool {
    v.len() >= 1 && v[0] == '"' && v[v.len() - 1] == '"' && !v.contains('\\')
}

/// The walk over a record's tokens: a `name` key closed by a colon takes
/// the next token as the quoted symbol name — a second such key is the
/// fatal parser-consistency error — and a `linkage` key closed by a colon
/// takes the next token as the classification, latest wins.
pub open spec fn scan_toks(
    toks: Seq<(char, Seq<char>)>,
    found: Option<Seq<char>>,
    linkage: Option<Seq<char>>,
) -> Result<(Option<Seq<char>>, Option<Seq<char>>), ExportError>
    decreases toks.len(),
{
    if toks.len() == 0 {
        Ok((found, linkage))
    } else if toks[0].0 == ':' && toks[0].1 == "name"@ {
        if toks.len() == 1 {
            Err(ExportError::TruncatedRecord)
        } else if !plain_quoted(toks[1].1) {
            Err(ExportError::BadName)
        } else if found is Some {
            Err(ExportError::MultipleNames)
        } else {
            scan_toks(toks.skip(2), Some(spec_dequote(toks[1].1)), linkage)
        }
    } else if toks[0].0 == ':' && toks[0].1 == "linkage"@ {
        if toks.len() == 1 {
            Err(ExportError::TruncatedRecord)
        } else {
            scan_toks(toks.skip(2), found, Some(toks[1].1))
        }
    } else {
        scan_toks(toks.skip(1), found, linkage)
    }
}

/// What a whole record's token list yields.
pub open spec fn spec_scan_record(toks: Seq<(char, Seq<char>)>) -> Result<
    (Option<Seq<char>>, Option<Seq<char>>),
    ExportError,
> {
    scan_toks(toks, None, None)
}

/// An option's contents, as a character sequence.
pub open spec fn opt_view(o: Option<String>) -> Option<Seq<char>> {
    match o {
        None => None,
        Some(s) => Some(s@),
    }
}

/// Walks one record's tokens for its symbol name and linkage
/// classification.
pub fn scan_record(toks: &Vec<(char, String)>) -> (r: Result<
    (Option<String>, Option<String>),
    ExportError,
>)
    ensures
        r matches Ok(p) ==> spec_scan_record(toks_view(toks@)) == Ok::<_, ExportError>(
            (opt_view(p.0), opt_view(p.1)),
        ),
        r matches Err(e) ==> spec_scan_record(toks_view(toks@)) == Err::<
            (Option<Seq<char>>, Option<Seq<char>>),
            _,
        >(e),
{
    let ghost tv = toks_view(toks@);
    let ghost goal = spec_scan_record(tv);
    let n = toks.len();
    let mut j: usize = 0;
    let mut found: Option<String> = None;
    let mut linkage: Option<String> = None;
    proof {
        assert(tv.skip(0) =~= tv);
    }
    while j < n
        invariant
            j <= n,
            n == toks@.len(),
            tv == toks_view(toks@),
            goal == spec_scan_record(tv),
            scan_toks(tv.skip(j as int), opt_view(found), opt_view(linkage)) == goal,
        decreases n - j,
    {
        let ghost rest = tv.skip(j as int);
        proof {
            assert(rest[0] == tv[j as int]);
            assert(rest.skip(1) =~= tv.skip(j + 1));
        }
        let delim = toks[j].0;
        let is_name_key = delim == ':' && str_eq(toks[j].1.as_str(), "name");
        let is_linkage_key = delim == ':' && str_eq(toks[j].1.as_str(), "linkage");
        if is_name_key {
            if j + 1 >= n {
                return Err(ExportError::TruncatedRecord);
            }
            proof {
                assert(rest[1] == tv[j + 1]);
                assert(rest.skip(2) =~= tv.skip(j + 2));
            }
            let v = &toks[j + 1].1;
            let vlen = v.as_str().unicode_len();
            let ok = vlen >= 1 && v.as_str().get_char(0) == '"' && v.as_str().get_char(
                vlen - 1,
            ) == '"' && !contains_char(v.as_str(), '\\');
            if !ok {
                return Err(ExportError::BadName);
            }
            if found.is_some() {
                return Err(ExportError::MultipleNames);
            }
            found = Some(dequote(v.as_str()));
            j += 2;
        } else if is_linkage_key {
            if j + 1 >= n {
                return Err(ExportError::TruncatedRecord);
            }
            proof {
                assert(rest[1] == tv[j + 1]);
                assert(rest.skip(2) =~= tv.skip(j + 2));
            }
            linkage = Some(toks[j + 1].1.clone());
            j += 2;
        } else {
            j += 1;
        }
    }
    proof {
        assert(tv.skip(n as int) =~= Seq::<(char, Seq<char>)>::empty());
    }
    Ok((found, linkage))
}

proof fn lemma_scan_append(
    toks: Seq<(char, Seq<char>)>,
    suffix: Seq<(char, Seq<char>)>,
    found: Option<Seq<char>>,
    linkage: Option<Seq<char>>,
)
    requires
        scan_toks(toks, found, linkage) is Ok,
    ensures
        scan_toks(toks + suffix, found, linkage) == scan_toks(
            suffix,
            scan_toks(toks, found, linkage)->Ok_0.0,
            scan_toks(toks, found, linkage)->Ok_0.1,
        ),
    decreases toks.len(),
{
    if toks.len() == 0 {
        assert(toks + suffix =~= suffix);
    } else {
        let all = toks + suffix;
        assert(all[0] == toks[0]);
        if toks[0].0 == ':' && toks[0].1 == "name"@ {
            assert(toks.len() >= 2);
            assert(all[1] == toks[1]);
            assert(all.skip(2) =~= toks.skip(2) + suffix);
            lemma_scan_append(toks.skip(2), suffix, Some(spec_dequote(toks[1].1)), linkage);
        } else if toks[0].0 == ':' && toks[0].1 == "linkage"@ {
            assert(toks.len() >= 2);
            assert(all[1] == toks[1]);
            assert(all.skip(2) =~= toks.skip(2) + suffix);
            lemma_scan_append(toks.skip(2), suffix, found, Some(toks[1].1));
        } else {
            assert(all.skip(1) =~= toks.skip(1) + suffix);
            lemma_scan_append(toks.skip(1), suffix, found, linkage);
        }
    }
}

/// However a record's tokens scanned to a symbol name, a further `name`
/// field before the record boundary is always the fatal
/// parser-consistency error, whatever its value.
pub proof fn law_second_name_is_fatal(toks: Seq<(char, Seq<char>)>, value: (char, Seq<char>))
    requires
        spec_scan_record(toks) is Ok,
        spec_scan_record(toks)->Ok_0.0 is Some,
        plain_quoted(value.1),
    ensures
        spec_scan_record(toks + seq![(':', "name"@), value]) == Err::<
            (Option<Seq<char>>, Option<Seq<char>>),
            _,
        >(ExportError::MultipleNames),
{
    let suffix = seq![(':', "name"@), value];
    lemma_scan_append(toks, suffix, None, None);
    assert(suffix[0].0 == ':' && suffix[0].1 == "name"@);
    assert(suffix[1] == value);
}

/// One qualifying record renders to exactly one export directive: the
/// marker, the symbol name, and the carriage-return line-feed terminator,
/// nothing else.
pub proof fn law_single_export_line(name: Seq<char>)
    ensures
        spec_render(seq![name]) == "/export:"@ + name + "\r\n"@,
{
    assert(seq![name].drop_last() =~= Seq::<Seq<char>>::empty());
    assert(spec_render(Seq::<Seq<char>>::empty()) =~= Seq::<char>::empty());
    assert(Seq::<char>::empty() + "/export:"@ + name + "\r\n"@ =~= "/export:"@ + name
        + "\r\n"@);
}

/// Whether a line is a record: after trimming, it begins with the
/// record-start marker.
pub open spec fn is_record_line(line: Seq<char>) -> bool {
    spec_starts_with(spec_trim(line), "^"@)
}

/// The export names one line yields: nothing for a non-record line, the
/// dequoted symbol name for a record classified `external`, nothing for
/// any other record, or the record's fatal scan error.
pub open spec fn record_names(line: Seq<char>) -> Result<Seq<Seq<char>>, ExportError> {
    if !is_record_line(line) {
        Ok(Seq::empty())
    } else {
        match spec_scan_record(spec_tokenize(spec_trim(line))) {
            Err(e) => Err(e),
            Ok((Some(name), Some(lk))) => if lk == "external"@ {
                Ok(seq![name])
            } else {
                Ok(Seq::empty())
            },
            Ok(_) => Ok(Seq::empty()),
        }
    }
}

/// Every export name a dump yields, in record order, or the first record's
/// fatal scan error.
pub open spec fn spec_extract(lines: Seq<Seq<char>>) -> Result<Seq<Seq<char>>, ExportError>
    decreases lines.len(),
{
    if lines.len() == 0 {
        Ok(Seq::empty())
    } else {
        match record_names(lines[0]) {
            Err(e) => Err(e),
            Ok(head) => match spec_extract(lines.skip(1)) {
                Err(e) => Err(e),
                Ok(rest) => Ok(head + rest),
            },
        }
    }
}

/// Extracts the externally-linkable symbol names from a textual dump of
/// compiled intermediate representation, in record order.
pub fn extract_exports(text: &str) -> (r: Result<Vec<String>, ExportError>)
    ensures
        r matches Ok(v) ==> spec_extract(spec_split_lines(text@)) == Ok::<_, ExportError>(
            v.deep_view(),
        ),
        r matches Err(e) ==> spec_extract(spec_split_lines(text@)) == Err::<Seq<Seq<char>>, _>(
            e,
        ),
{
    let lines = split_lines(text);
    let ghost lv = spec_split_lines(text@);
    let mut out: Vec<String> = Vec::new();
    let n = lines.len();
    let mut i: usize = 0;
    proof {
        assert(lv.skip(0) =~= lv);
        assert(out.deep_view() =~= Seq::<Seq<char>>::empty());
    }
    while i < n
        invariant
            i <= n,
            n == lines@.len(),
            lv == spec_split_lines(text@),
            lines.deep_view() == lv,
            spec_extract(lv) == match spec_extract(lv.skip(i as int)) {
                Ok(rest) => Ok::<_, ExportError>(out.deep_view() + rest),
                Err(e) => Err::<Seq<Seq<char>>, _>(e),
            },
        decreases n - i,
    {
        let ghost rest_lines = lv.skip(i as int);
        proof {
            assert(rest_lines[0] == lv[i as int]);
            assert(rest_lines.skip(1) =~= lv.skip(i + 1));
            assert(lines.deep_view()[i as int] == lines@[i as int]@);
        }
        let line = &lines[i];
        let t = trim(line.as_str());
        if starts_with(t, "^") {
            let toks = tokenize(t);
            match scan_record(&toks) {
                Err(e) => {
                    return Err(e);
                },
                Ok((found, linkage)) => {
                    let emit: Option<String> = match (found, linkage) {
                        (Some(f), Some(l)) => {
                            if str_eq(l.as_str(), "external") {
                                Some(f)
                            } else {
                                None
                            }
                        },
                        _ => None,
                    };
                    match emit {
                        Some(f) => {
                            let ghost old_out = out.deep_view();
                            let ghost fv = f@;
                            proof {
                                assert(record_names(lv[i as int]) == Ok::<_, ExportError>(
                                    seq![fv],
                                ));
                            }
                            out.push(f);
                            proof {
                                assert(out.deep_view() =~= old_out.push(fv));
                                assert(old_out.push(fv) =~= old_out + seq![fv]);
                                let rec = spec_extract(lv.skip(i + 1));
                                if rec is Ok {
                                    let rest = rec->Ok_0;
                                    assert(old_out + (seq![fv] + rest) =~= (old_out + seq![fv])
                                        + rest);
                                }
                            }
                        },
                        None => {
                            proof {
                                assert(record_names(lv[i as int]) == Ok::<_, ExportError>(
                                    Seq::<Seq<char>>::empty(),
                                ));
                            }
                        },
                    }
                },
            }
        } else {
            proof {
                assert(record_names(lv[i as int]) == Ok::<_, ExportError>(Seq::<
                    Seq<char>,
                >::empty()));
            }
        }
        proof {
            let rec = spec_extract(lv.skip(i + 1));
            if rec is Ok {
                let rest = rec->Ok_0;
                assert(Seq::<Seq<char>>::empty() + rest =~= rest);
            }
        }
        i += 1;
    }
    proof {
        assert(lv.skip(n as int) =~= Seq::<Seq<char>>::empty());
        assert(out.deep_view() + Seq::<Seq<char>>::empty() =~= out.deep_view());
    }
    Ok(out)
}

/// One decimal digit, as text.
pub open spec fn spec_digit(d: nat) -> Seq<char> {
    if d == 0 {
        "0"@
    } else if d == 1 {
        "1"@
    } else if d == 2 {
        "2"@
    } else if d == 3 {
        "3"@
    } else if d == 4 {
        "4"@
    } else if d == 5 {
        "5"@
    } else if d == 6 {
        "6"@
    } else if d == 7 {
        "7"@
    } else if d == 8 {
        "8"@
    } else {
        "9"@
    }
}

/// A number in decimal, most significant digit first, no leading zeros.
pub open spec fn spec_decimal(n: nat) -> Seq<char>
    decreases n,
{
    if n < 10 {
        spec_digit(n)
    } else {
        spec_decimal(n / 10) + spec_digit(n % 10)
    }
}

fn digit_str(d: usize) -> (r: &'static str)
    requires
        d < 10,
    ensures
        r@ == spec_digit(d as nat),
{
    match d {
        0 => "0",
        1 => "1",
        2 => "2",
        3 => "3",
        4 => "4",
        5 => "5",
        6 => "6",
        7 => "7",
        8 => "8",
        _ => "9",
    }
}

pub fn decimal_string(n: usize) -> (r: String)
    ensures
        r@ == spec_decimal(n as nat),
    decreases n,
{
    if n < 10 {
        digit_str(n).to_owned()
    } else {
        decimal_string(n / 10).concat(digit_str(n % 10))
    }
}

/// The mangled-name prefix every symbol of a package carries: the mangling
/// marker, the package name's length in decimal, and the package name.
pub open spec fn spec_mangled_prefix(package: Seq<char>) -> Seq<char> {
    "_ZN"@ + spec_decimal(package.len()) + package
}

pub fn mangled_prefix(package: &str) -> (r: String)
    ensures
        r@ == spec_mangled_prefix(package@),
{
    let n = package.unicode_len();
    String::from_str("_ZN").concat(decimal_string(n).as_str()).concat(package)
}

/// The names that carry the prefix, in order.
pub open spec fn spec_with_prefix(names: Seq<Seq<char>>, prefix: Seq<char>) -> Seq<Seq<char>>
    decreases names.len(),
{
    if names.len() == 0 {
        Seq::empty()
    } else if spec_starts_with(names.last(), prefix) {
        spec_with_prefix(names.drop_last(), prefix).push(names.last())
    } else {
        spec_with_prefix(names.drop_last(), prefix)
    }
}

/// Restricts extracted exports to those whose symbol name carries the
/// package's own mangled-name prefix, so symbols pulled in transitively
/// from other compiled units are not re-exported.
pub fn restrict_to_package(names: &Vec<String>, package: &str) -> (r: Vec<String>)
    ensures
        r.deep_view() == spec_with_prefix(names.deep_view(), spec_mangled_prefix(package@)),
{
    let prefix = mangled_prefix(package);
    let ghost nv = names.deep_view();
    let ghost pv = spec_mangled_prefix(package@);
    let mut out: Vec<String> = Vec::new();
    let n = names.len();
    let mut i: usize = 0;
    proof {
        assert(nv.take(0) =~= Seq::<Seq<char>>::empty());
        assert(out.deep_view() =~= spec_with_prefix(nv.take(0), pv));
    }
    while i < n
        invariant
            i <= n,
            n == names@.len(),
            nv == names.deep_view(),
            pv == spec_mangled_prefix(package@),
            prefix@ == pv,
            out.deep_view() == spec_with_prefix(nv.take(i as int), pv),
        decreases n - i,
    {
        proof {
            assert(nv.take(i + 1).drop_last() =~= nv.take(i as int));
            assert(nv.take(i + 1).last() == nv[i as int]);
            assert(nv[i as int] == names@[i as int]@);
        }
        if starts_with(names[i].as_str(), prefix.as_str()) {
            let ghost old_out = out.deep_view();
            out.push(names[i].clone());
            proof {
                assert(out.deep_view() =~= old_out.push(nv[i as int]));
            }
        }
        i += 1;
    }
    proof {
        assert(nv.take(n as int) =~= nv);
    }
    out
}

/// The rendered export list: one `/export:<name>` directive per qualifying
/// record, each closed by a carriage return and line feed, as the target
/// linker's list-file format expects.
pub open spec fn spec_render(names: Seq<Seq<char>>) -> Seq<char>
    decreases names.len(),
{
    if names.len() == 0 {
        Seq::empty()
    } else {
        spec_render(names.drop_last()) + "/export:"@ + names.last() + "\r\n"@
    }
}

pub fn render_export_lines(names: &Vec<String>) -> (r: String)
    ensures
        r@ == spec_render(names.deep_view()),
{
    let ghost nv = names.deep_view();
    let mut out = String::new();
    let n = names.len();
    let mut i: usize = 0;
    proof {
        assert(nv.take(0) =~= Seq::<Seq<char>>::empty());
    }
    while i < n
        invariant
            i <= n,
            n == names@.len(),
            nv == names.deep_view(),
            out@ == spec_render(nv.take(i as int)),
        decreases n - i,
    {
        proof {
            assert(nv.take(i + 1).drop_last() =~= nv.take(i as int));
            assert(nv.take(i + 1).last() == nv[i as int]);
            assert(nv[i as int] == names@[i as int]@);
        }
        out.append("/export:");
        out.append(names[i].as_str());
        out.append("\r\n");
        i += 1;
    }
    proof {
        assert(nv.take(n as int) =~= nv);
    }
    out
}

} // verus!

use dybuild::platform::{Pair, Triple};
use dybuild::toolchain::{ConfigError, Toolchain, expand_one};

const LINUX: &str = "x86_64-unknown-linux-gnu";
const WINDOWS: &str = "x86_64-pc-windows-msvc";

fn win_pair() -> Pair {
    Pair { host: Triple::WindowsX64, target: Triple::WindowsX64 }
}

fn linux_pair() -> Pair {
    Pair { host: Triple::LinuxX64, target: Triple::LinuxX64 }
}

fn subs(pairs: &[(&str, &str)]) -> Vec<(String, String)> {
    pairs.iter().map(|(k, v)| (k.to_string(), v.to_string())).collect()
}

#[test]
fn parse_skips_comments_and_blanks() {
    let text = format!(
        "# a comment\n\n   \nhost:{w} target:{w} cmd:link /dll\n",
        w = WINDOWS
    );
    let tc = Toolchain::parse(&text, false).unwrap();
    let r = tc.resolve(win_pair(), "link", &subs(&[])).unwrap();
    assert_eq!(r, vec!["/dll".to_string()]);
}

#[test]
fn parse_rejects_malformed_line() {
    let text = format!("host:{w} nonsense target:{w}\n", w = WINDOWS);
    match Toolchain::parse(&text, false) {
        Err(ConfigError::BadLine { line }) => {
            assert_eq!(line, format!("host:{w} nonsense target:{w}", w = WINDOWS));
        },
        other => panic!("expected BadLine, got {:?}", other),
    }
}

#[test]
fn parse_records_compile_flag() {
    let tc = Toolchain::parse("", true).unwrap();
    assert!(tc.compile);
    let tc = Toolchain::parse("", false).unwrap();
    assert!(!tc.compile);
}

#[test]
fn resolve_substitutes_and_drops_empty_arguments() {
    let text = format!(
        "host:{w} target:{w} cmd:link /dll $EXPORTS_LIST /out:$OUT $INPUT_OBJ\n",
        w = WINDOWS
    );
    let tc = Toolchain::parse(&text, false).unwrap();
    let r = tc
        .resolve(
            win_pair(),
            "link",
            &subs(&[("$EXPORTS_LIST", ""), ("$OUT", "out.dll"), ("$INPUT_OBJ", "a.bc")]),
        )
        .unwrap();
    assert_eq!(
        r,
        vec!["/dll".to_string(), "/out:out.dll".to_string(), "a.bc".to_string()]
    );
    // No resolved argument carries a placeholder sigil.
    for arg in &r {
        assert!(!arg.contains('$'));
    }
}

#[test]
fn resolve_missing_key_is_fatal() {
    let tc = Toolchain::parse("", false).unwrap();
    match tc.resolve(win_pair(), "link", &subs(&[])) {
        Err(ConfigError::MissingCommand { host, target, cmd }) => {
            assert_eq!(host, WINDOWS);
            assert_eq!(target, WINDOWS);
            assert_eq!(cmd, "link");
        },
        other => panic!("expected MissingCommand, got {:?}", other),
    }
}

#[test]
fn resolve_rejects_leftover_placeholder() {
    let text = format!(
        "host:{w} target:{w} cmd:link /dll /out:$OUT $INPUT_OBJ\n",
        w = WINDOWS
    );
    let tc = Toolchain::parse(&text, false).unwrap();
    match tc.resolve(win_pair(), "link", &subs(&[("$INPUT_OBJ", "a.bc")])) {
        Err(ConfigError::Unexpanded { arg }) => {
            assert_eq!(arg, "/out:$OUT");
        },
        other => panic!("expected Unexpanded, got {:?}", other),
    }
}

#[test]
fn resolve_later_entry_overwrites_earlier() {
    let text = format!(
        "host:{w} target:{w} cmd:link first\nhost:{w} target:{w} cmd:link second\n",
        w = WINDOWS
    );
    let tc = Toolchain::parse(&text, false).unwrap();
    let r = tc.resolve(win_pair(), "link", &subs(&[])).unwrap();
    assert_eq!(r, vec!["second".to_string()]);
}

#[test]
fn resolve_windows_host_keeps_wildcards() {
    let text = format!("host:{w} target:{w} cmd:link deps/*.bc\n", w = WINDOWS);
    let tc = Toolchain::parse(&text, false).unwrap();
    let r = tc.resolve(win_pair(), "link", &subs(&[])).unwrap();
    assert_eq!(r, vec!["deps/*.bc".to_string()]);
}

#[test]
fn resolve_unix_host_keeps_unmatched_pattern_literally() {
    let text = format!(
        "host:{l} target:{l} cmd:link ./no_such_dir_zz_qq/*.bc\n",
        l = LINUX
    );
    let tc = Toolchain::parse(&text, false).unwrap();
    let r = tc.resolve(linux_pair(), "link", &subs(&[])).unwrap();
    assert_eq!(r, vec!["./no_such_dir_zz_qq/*.bc".to_string()]);
}

#[test]
fn resolve_unix_host_rejects_bad_pattern() {
    let text = format!("host:{l} target:{l} cmd:link [*\n", l = LINUX);
    let tc = Toolchain::parse(&text, false).unwrap();
    match tc.resolve(linux_pair(), "link", &subs(&[])) {
        Err(ConfigError::GlobFailed { pattern }) => {
            assert_eq!(pattern, "[*");
        },
        other => panic!("expected GlobFailed, got {:?}", other),
    }
}

#[test]
fn one_argument_passes_through_where_no_expansion_applies() {
    let r = expand_one(&"deps/*.bc".to_string(), None, true);
    assert_eq!(r, Ok(vec!["deps/*.bc".to_string()]));
    let r = expand_one(&"plain".to_string(), None, false);
    assert_eq!(r, Ok(vec!["plain".to_string()]));
}

#[test]
fn one_argument_keeps_the_literal_pattern_on_zero_matches() {
    let r = expand_one(&"deps/*.bc".to_string(), Some(vec![]), false);
    assert_eq!(r, Ok(vec!["deps/*.bc".to_string()]));
}

#[test]
fn one_argument_splices_its_matches_in_order() {
    let matched = vec!["deps/a.bc".to_string(), "deps/b.bc".to_string()];
    let r = expand_one(&"deps/*.bc".to_string(), Some(matched.clone()), false);
    assert_eq!(r, Ok(matched));
}

#[test]
fn one_argument_reports_a_failed_expansion() {
    match expand_one(&"[*".to_string(), None, false) {
        Err(ConfigError::GlobFailed { pattern }) => assert_eq!(pattern, "[*"),
        other => panic!("expected GlobFailed, got {:?}", other),
    }
}

#[test]
fn resolve_applies_substitutions_in_order() {
    // The first substitution introduces text that the second then rewrites.
    let text = format!("host:{w} target:{w} cmd:echo $A\n", w = WINDOWS);
    let tc = Toolchain::parse(&text, false).unwrap();
    let r = tc
        .resolve(win_pair(), "echo", &subs(&[("$A", "$B-mid"), ("$B", "end")]))
        .unwrap();
    assert_eq!(r, vec!["end-mid".to_string()]);
}

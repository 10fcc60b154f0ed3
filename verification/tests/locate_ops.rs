use dybuild::locate::{candidates, first_existing, seek, seek_lib};

#[test]
fn first_match_decision_takes_the_earliest_hit() {
    assert_eq!(first_existing(&vec![false, false, true, true]), Some(2));
    assert_eq!(first_existing(&vec![true, true]), Some(0));
    assert_eq!(first_existing(&vec![false, false]), None);
    assert_eq!(first_existing(&vec![]), None);
}
use dybuild::plan::build_mode;
use dybuild::platform::{Pair, Profile, Triple};
use dybuild::sysroot::{Glob1Match, SysrootError, find_rust_std, find_rustc_std, glob1, has_ext,
    join_path, parse_sysroot, std_search_dir, sysroot_query_argv};
use dybuild::toolchain::{ConfigError, Toolchain};

const WINDOWS: &str = "x86_64-pc-windows-msvc";

fn linux_native() -> Pair {
    Pair { host: Triple::LinuxX64, target: Triple::LinuxX64 }
}

const FIVE_CANDIDATES: [&str; 5] = [
    "./target/x86_64-unknown-linux-gnu/debug/libplugin.so",
    "./target/debug/libplugin.so",
    "./lib/libplugin.so",
    "./plugin/lib/libplugin.so",
    "./libplugin.so",
];

#[test]
fn absent_config_skips_the_build_phase() {
    assert!(matches!(build_mode(false, false, None), Ok(None)));
}

#[test]
fn opt_out_flag_skips_the_build_phase() {
    assert!(matches!(build_mode(true, true, Some("ignored")), Ok(None)));
}

#[test]
fn present_config_enters_the_build_phase() {
    match build_mode(false, true, Some("# only a comment\n")) {
        Ok(Some(tc)) => assert!(tc.compile),
        other => panic!("expected a toolchain, got {:?}", other),
    }
}

#[test]
fn malformed_config_is_fatal_in_build_mode() {
    assert!(matches!(
        build_mode(false, false, Some("bogus\n")),
        Err(ConfigError::BadLine { .. })
    ));
}

#[test]
fn candidate_paths_are_the_five_documented_locations() {
    let c = candidates(linux_native(), Profile::Debug, "plugin");
    assert_eq!(c, FIVE_CANDIDATES.iter().map(|s| s.to_string()).collect::<Vec<_>>());
}

#[test]
fn failed_search_enumerates_every_path_tried() {
    let e = seek_lib(linux_native(), Profile::Debug, "plugin").unwrap_err();
    assert_eq!(e.libname, "libplugin.so");
    assert_eq!(
        e.attempted,
        FIVE_CANDIDATES.iter().map(|s| s.to_string()).collect::<Vec<_>>()
    );
    let mut expected = String::from("Unable to find \"libplugin.so\"; searched in:");
    for path in FIVE_CANDIDATES.iter() {
        expected.push_str("\n  ");
        expected.push_str(path);
    }
    expected.push('\n');
    assert_eq!(e.message(), expected);
}

#[test]
fn windows_candidates_use_the_dll_convention() {
    let pair = Pair { host: Triple::WindowsX64, target: Triple::WindowsX64 };
    let c = candidates(pair, Profile::Release, "plugin");
    assert_eq!(c[0], "./target/x86_64-pc-windows-msvc/release/plugin.dll");
    assert_eq!(c[4], "./plugin.dll");
}

#[test]
fn seek_finds_an_existing_path() {
    assert_eq!(seek(".".to_string()), Some(".".to_string()));
}

#[test]
fn seek_misses_an_absent_path() {
    assert_eq!(seek("./no_such_path_zz_qq".to_string()), None);
}

#[test]
fn empty_sysroot_output_finds_nothing() {
    assert_eq!(find_rust_std(linux_native(), ""), Ok(None));
    assert_eq!(find_rustc_std(""), Ok(None));
}

#[test]
fn sysroot_output_must_end_in_a_newline() {
    assert_eq!(parse_sysroot("/sysroot"), Err(SysrootError::MalformedOutput));
    assert_eq!(
        find_rust_std(linux_native(), "/sysroot"),
        Err(SysrootError::MalformedOutput)
    );
}

#[test]
fn sysroot_output_is_stripped_of_its_newline() {
    assert_eq!(parse_sysroot("/sysroot\n"), Ok(Some("/sysroot".to_string())));
}

#[test]
fn missing_library_directory_finds_nothing() {
    assert_eq!(find_rust_std(linux_native(), "/no_such_sysroot_zz_qq\n"), Ok(None));
}

#[test]
fn search_directory_descends_for_cross_pairs() {
    let cross = Pair { host: Triple::LinuxX64, target: Triple::WindowsX64 };
    assert_eq!(
        std_search_dir(cross, "/sysroot"),
        "/sysroot/lib/rustlib/x86_64-pc-windows-msvc/lib"
    );
    assert_eq!(std_search_dir(linux_native(), "/sysroot"), "/sysroot/lib/");
}

#[test]
fn joining_respects_a_trailing_separator() {
    assert_eq!(join_path("/a/b/", "c.so"), "/a/b/c.so");
    assert_eq!(join_path("/a/b", "c.so"), "/a/b/c.so");
}

#[test]
fn extension_requires_a_dot_and_a_stem() {
    assert!(has_ext("libstd-1.so", "so"));
    assert!(!has_ext(".so", "so"));
    assert!(!has_ext("libso", "so"));
    assert!(has_ext("a.tar.so", "so"));
}

#[test]
fn unique_match_scan() {
    let names = vec![
        "libstd-abc.so".to_string(),
        "other.so".to_string(),
        "libstd-notes.txt".to_string(),
    ];
    assert_eq!(glob1(&names, "libstd-", "so"), Glob1Match::One("libstd-abc.so".to_string()));
    assert_eq!(glob1(&names, "libfoo-", "so"), Glob1Match::NoMatch);
    let two = vec!["libstd-a.so".to_string(), "libstd-b.so".to_string()];
    assert_eq!(glob1(&two, "libstd-", "so"), Glob1Match::Many);
}

#[test]
fn sysroot_query_command_for_a_native_pair() {
    let text = format!("host:{w} target:{w} cmd:cargo mycargo\n", w = WINDOWS);
    let tc = Toolchain::parse(&text, false).unwrap();
    let pair = Pair { host: Triple::WindowsX64, target: Triple::WindowsX64 };
    let argv = sysroot_query_argv(&tc, pair, "header").unwrap();
    assert_eq!(
        argv,
        vec!["mycargo", "--quiet", "rustc", "-p", "header", "--", "--print", "sysroot"]
            .into_iter()
            .map(String::from)
            .collect::<Vec<_>>()
    );
}

#[test]
fn sysroot_query_command_for_a_cross_pair() {
    let text = format!(
        "host:{w} target:x86_64-unknown-linux-gnu cmd:cargo mycargo\n",
        w = WINDOWS
    );
    let tc = Toolchain::parse(&text, false).unwrap();
    let pair = Pair { host: Triple::WindowsX64, target: Triple::LinuxX64 };
    let argv = sysroot_query_argv(&tc, pair, "header").unwrap();
    assert_eq!(
        argv,
        vec![
            "mycargo",
            "--quiet",
            "rustc",
            "-p",
            "header",
            "--target=x86_64-unknown-linux-gnu",
            "--",
            "--print",
            "sysroot",
        ]
        .into_iter()
        .map(String::from)
        .collect::<Vec<_>>()
    );
}

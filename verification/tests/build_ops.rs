use dybuild::orchestrator::{
    AfterCompile, AfterLink, BuildError, BuildPhase, DylibBuild, Lib, Tool, ToolOutcome,
};
use dybuild::plan::plan_pairs;
use dybuild::platform::{Pair, Profile, Triple};
use dybuild::sysroot::SysrootError;
use dybuild::toolchain::Toolchain;

const LINUX: &str = "x86_64-unknown-linux-gnu";
const WINDOWS: &str = "x86_64-pc-windows-msvc";

fn plugin_lib() -> Lib {
    Lib {
        name: "plugin".to_string(),
        has_exports: false,
        dependencies: vec!["header".to_string()],
    }
}

fn header_lib() -> Lib {
    Lib { name: "header".to_string(), has_exports: true, dependencies: vec![] }
}

fn native(t: Triple) -> Pair {
    Pair { host: t, target: t }
}

fn build_at(pair: Pair, lib: Lib, phase: BuildPhase) -> DylibBuild {
    DylibBuild {
        pair,
        profile: Profile::Debug,
        lib,
        base_package: "header".to_string(),
        phase,
        std_path: Some("STDPATH".to_string()),
        exports_ref: None,
    }
}

#[test]
fn native_run_builds_exactly_one_pair() {
    let pairs = plan_pairs(Triple::LinuxX64, false);
    assert_eq!(pairs, vec![native(Triple::LinuxX64)]);
}

#[test]
fn cross_run_builds_foreign_then_native() {
    let pairs = plan_pairs(Triple::LinuxX64, true);
    assert_eq!(
        pairs,
        vec![
            Pair { host: Triple::LinuxX64, target: Triple::WindowsX64 },
            native(Triple::LinuxX64),
        ]
    );
    assert!(pairs[0].foreign());
    assert!(!pairs[1].foreign());
    // The run returns the artifacts of the last-built pair: the native one.
    assert_eq!(*pairs.last().unwrap(), native(Triple::LinuxX64));
}

#[test]
fn empty_sysroot_output_means_no_runtime() {
    let mut b = DylibBuild::new(
        native(Triple::LinuxX64),
        Profile::Debug,
        plugin_lib(),
        "header".to_string(),
    );
    assert_eq!(b.on_sysroot_output(""), Err(BuildError::NoRuntimeSupport));
    assert_eq!(b.phase, BuildPhase::Failed);
}

#[test]
fn sysroot_output_without_newline_is_malformed() {
    let mut b = DylibBuild::new(
        native(Triple::LinuxX64),
        Profile::Debug,
        plugin_lib(),
        "header".to_string(),
    );
    assert_eq!(
        b.on_sysroot_output("/some/sysroot"),
        Err(BuildError::Sysroot(SysrootError::MalformedOutput))
    );
}

#[test]
fn compile_command_for_native_debug_build() {
    let text = format!("host:{l} target:{l} cmd:cargo mycargo\n", l = LINUX);
    let tc = Toolchain::parse(&text, false).unwrap();
    let b = build_at(native(Triple::LinuxX64), plugin_lib(), BuildPhase::Compiling);
    let argv = b.compile_command(&tc).unwrap();
    assert_eq!(
        argv,
        vec!["mycargo", "rustc", "-p", "plugin", "--", "--emit=llvm-bc"]
            .into_iter()
            .map(String::from)
            .collect::<Vec<_>>()
    );
}

#[test]
fn compile_command_for_cross_release_build() {
    let text = format!("host:{l} target:{w} cmd:cargo mycargo\n", l = LINUX, w = WINDOWS);
    let tc = Toolchain::parse(&text, false).unwrap();
    let pair = Pair { host: Triple::LinuxX64, target: Triple::WindowsX64 };
    let b = DylibBuild {
        pair,
        profile: Profile::Release,
        lib: plugin_lib(),
        base_package: "header".to_string(),
        phase: BuildPhase::Compiling,
        std_path: Some("STDPATH".to_string()),
        exports_ref: None,
    };
    let argv = b.compile_command(&tc).unwrap();
    assert_eq!(
        argv,
        vec![
            "mycargo",
            "rustc",
            "--target=x86_64-pc-windows-msvc",
            "--release",
            "-p",
            "plugin",
            "--",
            "--emit=llvm-bc",
        ]
        .into_iter()
        .map(String::from)
        .collect::<Vec<_>>()
    );
}

#[test]
fn compiler_not_launched_is_tool_not_found() {
    let mut b = build_at(native(Triple::LinuxX64), plugin_lib(), BuildPhase::Compiling);
    assert_eq!(
        b.on_compile_finished(ToolOutcome::NotLaunched),
        Err(BuildError::ToolNotFound { tool: Tool::Compiler })
    );
    assert_eq!(b.phase, BuildPhase::Failed);
}

#[test]
fn compiler_nonzero_exit_is_tool_failure() {
    let mut b = build_at(native(Triple::LinuxX64), plugin_lib(), BuildPhase::Compiling);
    assert_eq!(
        b.on_compile_finished(ToolOutcome::Exited { success: false }),
        Err(BuildError::ToolFailure { tool: Tool::Compiler })
    );
}

#[test]
fn stale_unix_build_goes_straight_to_linking() {
    // No artifact lies at the computed output path, so the build is stale,
    // and a Unix target wants no export list.
    let mut b = build_at(native(Triple::LinuxX64), plugin_lib(), BuildPhase::Compiling);
    let r = b.on_compile_finished(ToolOutcome::Exited { success: true });
    assert_eq!(r, Ok(AfterCompile::NeedLink));
    assert_eq!(b.phase, BuildPhase::Linking);
}

#[test]
fn stale_windows_export_build_wants_disassembly() {
    let mut b = build_at(native(Triple::WindowsX64), header_lib(), BuildPhase::Compiling);
    let r = b.on_compile_finished(ToolOutcome::Exited { success: true });
    assert_eq!(r, Ok(AfterCompile::NeedExports));
    assert_eq!(b.phase, BuildPhase::Disassembling);
}

#[test]
fn windows_build_without_exports_skips_disassembly() {
    let mut b = build_at(native(Triple::WindowsX64), plugin_lib(), BuildPhase::Compiling);
    let r = b.on_compile_finished(ToolOutcome::Exited { success: true });
    assert_eq!(r, Ok(AfterCompile::NeedLink));
}

#[test]
fn disassembly_yields_export_file_and_contents() {
    let mut b = build_at(native(Triple::WindowsX64), header_lib(), BuildPhase::Disassembling);
    let text = "^1 (name: \"a\", linkage: external)\n^2 (name: \"b\", linkage: external)\n";
    let (path, contents) =
        b.on_disassembled(text, ToolOutcome::Exited { success: true }).unwrap();
    assert_eq!(path, "./target/debug/deps/header.dll_export");
    assert_eq!(contents, "/export:a\r\n/export:b\r\n");
    assert_eq!(b.phase, BuildPhase::WritingExports);
    assert_eq!(b.exports_ref, Some("@./target/debug/deps/header.dll_export".to_string()));
}

#[test]
fn disassembler_failure_is_fatal_after_draining() {
    let mut b = build_at(native(Triple::WindowsX64), header_lib(), BuildPhase::Disassembling);
    let r = b.on_disassembled("", ToolOutcome::Exited { success: false });
    assert_eq!(r, Err(BuildError::ToolFailure { tool: Tool::Disassembler }));
}

#[test]
fn export_write_failure_is_fatal() {
    let mut b = build_at(native(Triple::WindowsX64), header_lib(), BuildPhase::WritingExports);
    assert_eq!(b.on_exports_written(false), Err(BuildError::ExportWriteFailed));
    let mut b = build_at(native(Triple::WindowsX64), header_lib(), BuildPhase::WritingExports);
    assert_eq!(b.on_exports_written(true), Ok(()));
    assert_eq!(b.phase, BuildPhase::Linking);
}

#[test]
fn link_command_substitutes_the_whole_environment() {
    let text = format!(
        "host:{w} target:{w} cmd:link lld /dll $EXPORTS_LIST /out:$OUT $INPUT_OBJ $DLL_LIB_DEPENDENCIES /std:$STD\n",
        w = WINDOWS
    );
    let tc = Toolchain::parse(&text, false).unwrap();
    let mut b = build_at(native(Triple::WindowsX64), plugin_lib(), BuildPhase::Linking);
    b.exports_ref = Some("@exp.txt".to_string());
    let argv = b.link_command(&tc).unwrap();
    assert_eq!(
        argv,
        vec![
            "lld",
            "/dll",
            "@exp.txt",
            "/out:./target/debug/plugin.dll",
            "./target/debug/deps/plugin-*.bc",
            "/defaultlib:./target/debug/header.lib",
            "/std:STDPATH",
        ]
        .into_iter()
        .map(String::from)
        .collect::<Vec<_>>()
    );
}

#[test]
fn link_command_drops_absent_export_reference() {
    let text = format!(
        "host:{w} target:{w} cmd:link lld $EXPORTS_LIST /out:$OUT\n",
        w = WINDOWS
    );
    let tc = Toolchain::parse(&text, false).unwrap();
    let b = build_at(native(Triple::WindowsX64), plugin_lib(), BuildPhase::Linking);
    let argv = b.link_command(&tc).unwrap();
    assert_eq!(
        argv,
        vec!["lld", "/out:./target/debug/plugin.dll"]
            .into_iter()
            .map(String::from)
            .collect::<Vec<_>>()
    );
}

#[test]
fn linker_not_launched_names_the_linker() {
    let mut b = build_at(native(Triple::WindowsX64), plugin_lib(), BuildPhase::Linking);
    assert_eq!(
        b.on_linked(ToolOutcome::NotLaunched),
        Err(BuildError::ToolNotFound { tool: Tool::Linker })
    );
}

#[test]
fn linker_rejection_is_distinguished_from_absence() {
    let mut b = build_at(native(Triple::WindowsX64), plugin_lib(), BuildPhase::Linking);
    assert_eq!(
        b.on_linked(ToolOutcome::Exited { success: false }),
        Err(BuildError::ToolFailure { tool: Tool::Linker })
    );
}

#[test]
fn base_package_skips_the_integrity_check() {
    let mut b = build_at(native(Triple::LinuxX64), header_lib(), BuildPhase::Linking);
    let r = b.on_linked(ToolOutcome::Exited { success: true });
    assert_eq!(
        r,
        Ok(AfterLink::Done { artifact: "./target/debug/libheader.so".to_string() })
    );
    assert_eq!(b.phase, BuildPhase::Done);
}

#[test]
fn other_packages_must_pass_the_integrity_check() {
    let mut b = build_at(native(Triple::LinuxX64), plugin_lib(), BuildPhase::Linking);
    let r = b.on_linked(ToolOutcome::Exited { success: true });
    assert_eq!(
        r,
        Ok(AfterLink::NeedIntegrityCheck { path: "./target/debug/libplugin.so".to_string() })
    );
    assert_eq!(b.phase, BuildPhase::Checking);
}

#[test]
fn marker_in_binary_is_an_integrity_violation() {
    let mut b = build_at(native(Triple::LinuxX64), plugin_lib(), BuildPhase::Checking);
    let r = b.on_artifact_text("prefix FORBID_ME suffix");
    assert_eq!(r, Err(BuildError::IntegrityViolation));
    assert_eq!(b.phase, BuildPhase::Failed);
}

#[test]
fn clean_binary_passes_the_integrity_check() {
    let mut b = build_at(native(Triple::LinuxX64), plugin_lib(), BuildPhase::Checking);
    let r = b.on_artifact_text("nothing forbidden here");
    assert_eq!(r, Ok("./target/debug/libplugin.so".to_string()));
    assert_eq!(b.phase, BuildPhase::Done);
}

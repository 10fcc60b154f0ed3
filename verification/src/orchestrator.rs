//! The build-and-link orchestrator for one library under one compilation
//! pair, as a step machine: the decisions and every command line are
//! verified here, while the caller runs the external compiler,
//! disassembler and linker and feeds each outcome back in. Every
//! external-process failure is fatal and aborts the whole build.

use vstd::prelude::*;
use vstd::string::*;
use crate::exports::{ExportError, extract_exports, render_export_lines, spec_extract, spec_render};
use crate::platform::{Pair, Profile, Triple, spec_libname, spec_target_dir, spec_triple_str,
    triple_str};
use crate::staleness::{StaleError, is_stale};
use crate::sysroot::{SysrootError, find_rust_std, is_name_match, spec_join, spec_std_search_dir,
    spec_sysroot_of, std_prefix, std_suffix};
use crate::text::{contains_sub, spec_contains_sub, str_eq};
use crate::toolchain::{ConfigError, Toolchain, resolves_to, spec_resolve_failure,
    spec_resolve_succeeds, subs_view};

verus! {

/// One library to build: its package name, whether it must publish an
/// export list on the platform that needs one, and the packages it links
/// against, which must have been built earlier in the fixed build order.
#[derive(Debug)]
pub struct Lib {
    pub name: String,
    pub has_exports: bool,
    pub dependencies: Vec<String>,
}

/// The external tools the orchestrator drives.
#[derive(Debug, Copy, Clone, PartialEq, Eq, Structural)]
pub enum Tool {
    Compiler,
    Disassembler,
    Linker,
}

/// How running an external tool went, as the caller observed it.
#[derive(Debug, Copy, Clone, PartialEq, Eq, Structural)]
pub enum ToolOutcome {
    /// The executable could not be launched at all.
    NotLaunched,
    /// The tool ran to completion and exited.
    Exited { success: bool },
}

/// Why a build died; every cause is fatal and unrecoverable by design.
#[derive(Debug, PartialEq, Eq)]
pub enum BuildError {
    /// The command table refused the request.
    Config(ConfigError),
    /// The runtime-support search found nothing — there is no fallback
    /// runtime.
    NoRuntimeSupport,
    /// The runtime-support search itself malfunctioned.
    Sysroot(SysrootError),
    /// An external tool could not be launched.
    ToolNotFound { tool: Tool },
    /// An external tool exited without success.
    ToolFailure { tool: Tool },
    /// The staleness check could not answer.
    Staleness(StaleError),
    /// The disassembler's output could not be parsed.
    ExportScan(ExportError),
    /// The export-list file could not be written.
    ExportWriteFailed,
    /// The produced binary held the reserved marker: symbol isolation
    /// failed.
    IntegrityViolation,
}

/// Where one library's build stands.
#[derive(Debug, Copy, Clone, PartialEq, Eq, Structural)]
pub enum BuildPhase {
    /// Waiting for the sysroot query's output.
    Sysroot,
    /// Waiting for the compiler to exit.
    Compiling,
    /// Waiting for the disassembler's output.
    Disassembling,
    /// Waiting for the export-list file to be written.
    WritingExports,
    /// Waiting for the linker to exit.
    Linking,
    /// Waiting for the produced binary's contents.
    Checking,
    /// The artifact is ready.
    Done,
    /// A fatal error ended the build.
    Failed,
}

/// What follows a successful compile.
#[derive(Debug, PartialEq, Eq)]
pub enum AfterCompile {
    /// The artifact is newer than every compiled input: linking is
    /// skipped and the existing artifact returned.
    Clean { artifact: String },
    /// The target platform wants an export list for this library: run the
    /// disassembler next.
    NeedExports,
    /// Link directly.
    NeedLink,
}

/// What follows a successful link.
#[derive(Debug, PartialEq, Eq)]
pub enum AfterLink {
    /// The shared-base package needs no isolation check: the artifact is
    /// ready.
    Done { artifact: String },
    /// Read the produced binary at this path and hand its text back for
    /// the isolation check.
    NeedIntegrityCheck { path: String },
}

/// The reserved marker that must not appear in a non-base binary: its
/// presence means the base package's internals were linked in rather than
/// resolved across modules.
pub open spec fn spec_marker() -> Seq<char> {
    "FORBID_ME"@
}

/// The glob matching this library's compiled intermediate objects.
pub open spec fn spec_objects_glob(pair: Pair, profile: Profile, name: Seq<char>) -> Seq<char> {
    spec_target_dir(pair, profile) + "/deps/"@ + name + "-*.bc"@
}

/// The final artifact path the link step writes.
pub open spec fn spec_artifact_path(pair: Pair, profile: Profile, name: Seq<char>) -> Seq<char> {
    spec_target_dir(pair, profile) + "/"@ + spec_libname(pair.target, name)
}

/// The export-list file's path.
pub open spec fn spec_export_path(pair: Pair, profile: Profile, name: Seq<char>) -> Seq<char> {
    spec_target_dir(pair, profile) + "/deps/"@ + name + ".dll_export"@
}

/// One dependency's `defaultlib` reference, resolved against the pair's
/// output directory.
pub open spec fn spec_dep_item(pair: Pair, profile: Profile, dep: Seq<char>) -> Seq<char> {
    "/defaultlib:"@ + spec_target_dir(pair, profile) + "/"@ + dep + ".lib"@
}

/// Every dependency's reference, space-separated, in order.
pub open spec fn spec_lib_deps(pair: Pair, profile: Profile, deps: Seq<Seq<char>>) -> Seq<char>
    decreases deps.len(),
{
    if deps.len() == 0 {
        Seq::empty()
    } else if deps.len() == 1 {
        spec_dep_item(pair, profile, deps[0])
    } else {
        spec_lib_deps(pair, profile, deps.drop_last()) + " "@ + spec_dep_item(
            pair,
            profile,
            deps.last(),
        )
    }
}

/// The substitution set of the link step, in application order.
pub open spec fn spec_link_subs(
    pair: Pair,
    profile: Profile,
    name: Seq<char>,
    deps: Seq<Seq<char>>,
    std_path: Seq<char>,
    exports_val: Seq<char>,
) -> Seq<(Seq<char>, Seq<char>)> {
    seq![
        ("$EXPORTS_LIST"@, exports_val),
        ("$STD"@, std_path),
        ("$OUT"@, spec_artifact_path(pair, profile, name)),
        ("$INPUT_OBJ"@, spec_objects_glob(pair, profile, name)),
        ("$DLL_LIB_DEPENDENCIES"@, spec_lib_deps(pair, profile, deps)),
    ]
}

/// The arguments appended to the toolchain's `cargo` command to compile
/// one library to intermediate representation.
pub open spec fn spec_compile_tail(pair: Pair, profile: Profile, name: Seq<char>) -> Seq<
    Seq<char>,
> {
    seq!["rustc"@] + (if pair.host != pair.target {
        seq!["--target="@ + spec_triple_str(pair.target)]
    } else {
        Seq::empty()
    }) + (if profile is Release {
        seq!["--release"@]
    } else {
        Seq::empty()
    }) + seq!["-p"@, name, "--"@, "--emit=llvm-bc"@]
}

/// Whether this pair and library want an explicit export list: only one
/// platform in the known set resolves exports through a list file, and
/// only libraries that publish exports need one.
pub open spec fn wants_exports(pair: Pair, lib: &Lib) -> bool {
    pair.target is WindowsX64 && lib.has_exports
}

/// One library's build under one pair, stepped forward by the caller as
/// each external outcome arrives.
#[derive(Debug)]
pub struct DylibBuild {
    pub pair: Pair,
    pub profile: Profile,
    pub lib: Lib,
    /// The name of the designated shared-base package, which skips the
    /// isolation check.
    pub base_package: String,
    pub phase: BuildPhase,
    /// The runtime-support module, once found.
    pub std_path: Option<String>,
    /// The export-list reference handed to the linker, once written.
    pub exports_ref: Option<String>,
}

/// The fields that never change after construction.
pub open spec fn core_unchanged(a: &DylibBuild, b: &DylibBuild) -> bool {
    &&& a.pair == b.pair
    &&& a.profile == b.profile
    &&& a.lib == b.lib
    &&& a.base_package == b.base_package
}

impl DylibBuild {
    /// Starts a build: the first thing it waits for is the sysroot
    /// query's output.
    pub fn new(pair: Pair, profile: Profile, lib: Lib, base_package: String) -> (r: DylibBuild)
        ensures
            r.pair == pair,
            r.profile == profile,
            r.lib == lib,
            r.base_package == base_package,
            r.phase is Sysroot,
            r.std_path is None,
            r.exports_ref is None,
    {
        DylibBuild {
            pair,
            profile,
            lib,
            base_package,
            phase: BuildPhase::Sysroot,
            std_path: None,
            exports_ref: None,
        }
    }

    /// The glob matching this library's compiled objects.
    pub fn objects_glob(&self) -> (r: String)
        ensures
            r@ == spec_objects_glob(self.pair, self.profile, self.lib.name@),
    {
        self.pair.target(self.profile).concat("/deps/").concat(self.lib.name.as_str()).concat(
            "-*.bc",
        )
    }

    /// The final artifact path the link step writes.
    pub fn artifact_path(&self) -> (r: String)
        ensures
            r@ == spec_artifact_path(self.pair, self.profile, self.lib.name@),
    {
        let lib = self.pair.libname(self.lib.name.as_str());
        self.pair.target(self.profile).concat("/").concat(lib.as_str())
    }

    /// The export-list file's path.
    pub fn export_path(&self) -> (r: String)
        ensures
            r@ == spec_export_path(self.pair, self.profile, self.lib.name@),
    {
        self.pair.target(self.profile).concat("/deps/").concat(self.lib.name.as_str()).concat(
            ".dll_export",
        )
    }

    /// Takes the sysroot query's output, resolves the runtime-support
    /// module — a missing runtime is fatal, there is no fallback — and
    /// moves on to compiling.
    pub fn on_sysroot_output(&mut self, output: &str) -> (r: Result<(), BuildError>)
        requires
            old(self).phase is Sysroot,
        ensures
            core_unchanged(final(self), old(self)),
            final(self).exports_ref == old(self).exports_ref,
            r matches Ok(()) ==> final(self).phase is Compiling && (final(self).std_path
                matches Some(p) && exists|name: Seq<char>|
                #![auto]
                p@ == spec_join(
                    spec_std_search_dir(old(self).pair, spec_sysroot_of(output@)),
                    name,
                ) && is_name_match(
                    name,
                    std_prefix(old(self).pair.target),
                    std_suffix(old(self).pair.target),
                )),
            r matches Err(e) ==> final(self).phase is Failed && (e == BuildError::NoRuntimeSupport
                || e matches BuildError::Sysroot { .. }),
            output@.len() == 0 ==> r == Err::<(), BuildError>(BuildError::NoRuntimeSupport),
            output@.len() > 0 && output@.last() != '\n' ==> r == Err::<(), BuildError>(
                BuildError::Sysroot(SysrootError::MalformedOutput),
            ),
    {
        match find_rust_std(self.pair, output) {
            Ok(Some(p)) => {
                self.std_path = Some(p);
                self.phase = BuildPhase::Compiling;
                Ok(())
            },
            Ok(None) => {
                self.phase = BuildPhase::Failed;
                Err(BuildError::NoRuntimeSupport)
            },
            Err(e) => {
                self.phase = BuildPhase::Failed;
                Err(BuildError::Sysroot(e))
            },
        }
    }

    /// The compiler invocation: the toolchain's `cargo` command with
    /// cross-target and optimization-profile flags as appropriate,
    /// requesting intermediate-representation emission rather than a
    /// final binary.
    pub fn compile_command(&self, tc: &Toolchain) -> (r: Result<Vec<String>, BuildError>)
        requires
            self.phase is Compiling,
        ensures
            r matches Ok(v) ==> exists|base: Seq<Seq<char>>|
                #![auto]
                resolves_to(
                    tc.table(),
                    (
                        spec_triple_str(self.pair.host),
                        spec_triple_str(self.pair.target),
                        "cargo"@,
                    ),
                    subs_view(Seq::empty()),
                    self.pair.host == Triple::WindowsX64,
                    base,
                ) && v.deep_view() == base + spec_compile_tail(
                    self.pair,
                    self.profile,
                    self.lib.name@,
                ),
            r matches Err(e) ==> e matches BuildError::Config { .. },
            r matches Err(BuildError::Config(ce)) ==> spec_resolve_failure(
                tc.table(),
                (spec_triple_str(self.pair.host), spec_triple_str(self.pair.target), "cargo"@),
                subs_view(Seq::empty()),
                self.pair.host == Triple::WindowsX64,
                ce,
            ),
            spec_resolve_succeeds(
                tc.table(),
                (spec_triple_str(self.pair.host), spec_triple_str(self.pair.target), "cargo"@),
                subs_view(Seq::empty()),
                self.pair.host == Triple::WindowsX64,
            ) ==> r is Ok,
    {
        let subs: Vec<(String, String)> = Vec::new();
        let mut argv = match tc.resolve(self.pair, "cargo", &subs) {
            Ok(v) => v,
            Err(e) => {
                return Err(BuildError::Config(e));
            },
        };
        let ghost base = argv.deep_view();
        proof {
            assert(subs@ =~= Seq::<(String, String)>::empty());
        }
        argv.push(String::from_str("rustc"));
        if self.pair.foreign() {
            argv.push(String::from_str("--target=").concat(triple_str(self.pair.target)));
        }
        match self.profile {
            Profile::Release => {
                argv.push(String::from_str("--release"));
            },
            Profile::Debug => {},
        }
        argv.push(String::from_str("-p"));
        argv.push(self.lib.name.clone());
        argv.push(String::from_str("--"));
        argv.push(String::from_str("--emit=llvm-bc"));
        proof {
            assert(argv.deep_view() =~= base + spec_compile_tail(
                self.pair,
                self.profile,
                self.lib.name@,
            ));
        }
        Ok(argv)
    }

    /// Takes the compiler's outcome. On success, the staleness check
    /// decides: a fresh artifact short-circuits the whole link step, a
    /// stale one goes on to export extraction where the platform and
    /// library want it, else straight to linking.
    pub fn on_compile_finished(&mut self, outcome: ToolOutcome) -> (r: Result<
        AfterCompile,
        BuildError,
    >)
        requires
            old(self).phase is Compiling,
        ensures
            core_unchanged(final(self), old(self)),
            final(self).std_path == old(self).std_path,
            final(self).exports_ref == old(self).exports_ref,
            r matches Ok(a) ==> match a {
                AfterCompile::Clean { artifact } => final(self).phase is Done && artifact@
                    == spec_artifact_path(old(self).pair, old(self).profile, old(self).lib.name@),
                AfterCompile::NeedExports => final(self).phase is Disassembling && wants_exports(
                    old(self).pair,
                    &old(self).lib,
                ),
                AfterCompile::NeedLink => final(self).phase is Linking && !wants_exports(
                    old(self).pair,
                    &old(self).lib,
                ),
            },
            r matches Err(e) ==> final(self).phase is Failed && match e {
                BuildError::ToolNotFound { tool } => tool is Compiler && outcome
                    is NotLaunched,
                BuildError::ToolFailure { tool } => tool is Compiler && outcome matches
                    ToolOutcome::Exited { success: false },
                BuildError::Staleness { .. } => outcome matches ToolOutcome::Exited {
                    success: true,
                },
                _ => false,
            },
            outcome is NotLaunched ==> (r matches Err(e) && e == (BuildError::ToolNotFound {
                tool: Tool::Compiler,
            })),
            outcome matches ToolOutcome::Exited { success: false } ==> (r matches Err(e) && e
                == (BuildError::ToolFailure { tool: Tool::Compiler })),
    {
        match outcome {
            ToolOutcome::NotLaunched => {
                self.phase = BuildPhase::Failed;
                return Err(BuildError::ToolNotFound { tool: Tool::Compiler });
            },
            ToolOutcome::Exited { success: false } => {
                self.phase = BuildPhase::Failed;
                return Err(BuildError::ToolFailure { tool: Tool::Compiler });
            },
            ToolOutcome::Exited { success: true } => {},
        }
        let objects = self.objects_glob();
        let artifact = self.artifact_path();
        match is_stale(objects.as_str(), artifact.as_str()) {
            Err(e) => {
                self.phase = BuildPhase::Failed;
                Err(BuildError::Staleness(e))
            },
            Ok(false) => {
                self.phase = BuildPhase::Done;
                Ok(AfterCompile::Clean { artifact })
            },
            Ok(true) => {
                if matches!(self.pair.target, Triple::WindowsX64) && self.lib.has_exports {
                    self.phase = BuildPhase::Disassembling;
                    Ok(AfterCompile::NeedExports)
                } else {
                    self.phase = BuildPhase::Linking;
                    Ok(AfterCompile::NeedLink)
                }
            },
        }
    }

    /// The disassembler invocation over this library's compiled objects.
    pub fn disassemble_command(&self, tc: &Toolchain) -> (r: Result<Vec<String>, BuildError>)
        requires
            self.phase is Disassembling,
        ensures
            r matches Ok(v) ==> resolves_to(
                tc.table(),
                (
                    spec_triple_str(self.pair.host),
                    spec_triple_str(self.pair.target),
                    "llvm-dis"@,
                ),
                seq![
                    ("$OBJECTS"@, spec_objects_glob(self.pair, self.profile, self.lib.name@)),
                ],
                self.pair.host == Triple::WindowsX64,
                v.deep_view(),
            ),
            r matches Err(e) ==> e matches BuildError::Config { .. },
            r matches Err(BuildError::Config(ce)) ==> spec_resolve_failure(
                tc.table(),
                (
                    spec_triple_str(self.pair.host),
                    spec_triple_str(self.pair.target),
                    "llvm-dis"@,
                ),
                seq![
                    ("$OBJECTS"@, spec_objects_glob(self.pair, self.profile, self.lib.name@)),
                ],
                self.pair.host == Triple::WindowsX64,
                ce,
            ),
            spec_resolve_succeeds(
                tc.table(),
                (
                    spec_triple_str(self.pair.host),
                    spec_triple_str(self.pair.target),
                    "llvm-dis"@,
                ),
                seq![
                    ("$OBJECTS"@, spec_objects_glob(self.pair, self.profile, self.lib.name@)),
                ],
                self.pair.host == Triple::WindowsX64,
            ) ==> r is Ok,
    {
        let mut subs: Vec<(String, String)> = Vec::new();
        subs.push((String::from_str("$OBJECTS"), self.objects_glob()));
        proof {
            assert(subs_view(subs@) =~= seq![
                ("$OBJECTS"@, spec_objects_glob(self.pair, self.profile, self.lib.name@)),
            ]);
        }
        match tc.resolve(self.pair, "llvm-dis", &subs) {
            Ok(v) => Ok(v),
            Err(e) => Err(BuildError::Config(e)),
        }
    }

    /// Takes the disassembler's drained output and its exit outcome — the
    /// output is drained first, exactly as the caller must do to avoid
    /// deadlock — and yields the export-list file's path and contents for
    /// the caller to write.
    pub fn on_disassembled(&mut self, text: &str, outcome: ToolOutcome) -> (r: Result<
        (String, String),
        BuildError,
    >)
        requires
            old(self).phase is Disassembling,
        ensures
            core_unchanged(final(self), old(self)),
            final(self).std_path == old(self).std_path,
            r matches Ok(p) ==> {
                &&& final(self).phase is WritingExports
                &&& p.0@ == spec_export_path(old(self).pair, old(self).profile, old(
                    self,
                ).lib.name@)
                &&& spec_extract(crate::text::spec_split_lines(text@)) matches Ok(names)
                    && p.1@ == spec_render(names)
                &&& final(self).exports_ref matches Some(er) && er@ == "@"@ + p.0@
                &&& outcome matches ToolOutcome::Exited { success: true }
            },
            r matches Err(e) ==> final(self).phase is Failed && match e {
                BuildError::ExportScan(pe) => spec_extract(crate::text::spec_split_lines(text@))
                    == Err::<Seq<Seq<char>>, _>(pe),
                BuildError::ToolNotFound { tool } => tool is Disassembler && outcome
                    is NotLaunched,
                BuildError::ToolFailure { tool } => tool is Disassembler && outcome matches
                    ToolOutcome::Exited { success: false },
                _ => false,
            },
    {
        let names = match extract_exports(text) {
            Ok(names) => names,
            Err(e) => {
                self.phase = BuildPhase::Failed;
                return Err(BuildError::ExportScan(e));
            },
        };
        match outcome {
            ToolOutcome::NotLaunched => {
                self.phase = BuildPhase::Failed;
                return Err(BuildError::ToolNotFound { tool: Tool::Disassembler });
            },
            ToolOutcome::Exited { success: false } => {
                self.phase = BuildPhase::Failed;
                return Err(BuildError::ToolFailure { tool: Tool::Disassembler });
            },
            ToolOutcome::Exited { success: true } => {},
        }
        let contents = render_export_lines(&names);
        let path = self.export_path();
        self.exports_ref = Some(String::from_str("@").concat(path.as_str()));
        self.phase = BuildPhase::WritingExports;
        Ok((path, contents))
    }

    /// Takes the caller's report on writing the export-list file.
    pub fn on_exports_written(&mut self, ok: bool) -> (r: Result<(), BuildError>)
        requires
            old(self).phase is WritingExports,
        ensures
            core_unchanged(final(self), old(self)),
            final(self).std_path == old(self).std_path,
            final(self).exports_ref == old(self).exports_ref,
            ok <==> r is Ok,
            r is Ok ==> final(self).phase is Linking,
            r matches Err(e) ==> final(self).phase is Failed && e
                == BuildError::ExportWriteFailed,
    {
        if ok {
            self.phase = BuildPhase::Linking;
            Ok(())
        } else {
            self.phase = BuildPhase::Failed;
            Err(BuildError::ExportWriteFailed)
        }
    }

    /// The linker invocation: runtime-support path, final output path,
    /// compiled-objects glob, export-list reference — empty where none is
    /// wanted, so the template's placeholder argument drops out — and a
    /// `defaultlib` reference for every dependency.
    pub fn link_command(&self, tc: &Toolchain) -> (r: Result<Vec<String>, BuildError>)
        requires
            self.phase is Linking,
            self.std_path is Some,
        ensures
            r matches Ok(v) ==> ({
                let exports_val = match self.exports_ref {
                    Some(er) => er@,
                    None => Seq::empty(),
                };
                resolves_to(
                    tc.table(),
                    (
                        spec_triple_str(self.pair.host),
                        spec_triple_str(self.pair.target),
                        "link"@,
                    ),
                    spec_link_subs(
                        self.pair,
                        self.profile,
                        self.lib.name@,
                        self.lib.dependencies.deep_view(),
                        match self.std_path {
                            Some(sp) => sp@,
                            None => Seq::empty(),
                        },
                        exports_val,
                    ),
                    self.pair.host == Triple::WindowsX64,
                    v.deep_view(),
                )
            }),
            r matches Err(e) ==> e matches BuildError::Config { .. },
            ({
                let subs = spec_link_subs(
                    self.pair,
                    self.profile,
                    self.lib.name@,
                    self.lib.dependencies.deep_view(),
                    match self.std_path {
                        Some(sp) => sp@,
                        None => Seq::empty(),
                    },
                    match self.exports_ref {
                        Some(er) => er@,
                        None => Seq::empty(),
                    },
                );
                let key = (
                    spec_triple_str(self.pair.host),
                    spec_triple_str(self.pair.target),
                    "link"@,
                );
                let windows_host = self.pair.host == Triple::WindowsX64;
                &&& (r matches Err(BuildError::Config(ce)) ==> spec_resolve_failure(
                    tc.table(),
                    key,
                    subs,
                    windows_host,
                    ce,
                ))
                &&& (spec_resolve_succeeds(tc.table(), key, subs, windows_host) ==> r is Ok)
            }),
    {
        let exports_val: String = match &self.exports_ref {
            Some(er) => er.clone(),
            None => String::new(),
        };
        let std_path: String = match &self.std_path {
            Some(sp) => sp.clone(),
            None => String::new(),
        };
        let mut lib_deps = String::new();
        let ghost dv = self.lib.dependencies.deep_view();
        let ndeps = self.lib.dependencies.len();
        let mut i: usize = 0;
        proof {
            assert(dv.take(0) =~= Seq::<Seq<char>>::empty());
        }
        while i < ndeps
            invariant
                i <= ndeps,
                ndeps == self.lib.dependencies@.len(),
                dv == self.lib.dependencies.deep_view(),
                lib_deps@ == spec_lib_deps(self.pair, self.profile, dv.take(i as int)),
            decreases ndeps - i,
        {
            proof {
                assert(dv.take(i + 1).drop_last() =~= dv.take(i as int));
                assert(dv.take(i + 1).last() == dv[i as int]);
                assert(dv[i as int] == self.lib.dependencies@[i as int]@);
            }
            if i > 0 {
                lib_deps.append(" ");
            }
            let item = String::from_str("/defaultlib:").concat(
                self.pair.target(self.profile).as_str(),
            ).concat("/").concat(self.lib.dependencies[i].as_str()).concat(".lib");
            lib_deps.append(item.as_str());
            i += 1;
        }
        proof {
            assert(dv.take(ndeps as int) =~= dv);
        }
        let mut subs: Vec<(String, String)> = Vec::new();
        subs.push((String::from_str("$EXPORTS_LIST"), exports_val));
        subs.push((String::from_str("$STD"), std_path));
        subs.push((String::from_str("$OUT"), self.artifact_path()));
        subs.push((String::from_str("$INPUT_OBJ"), self.objects_glob()));
        subs.push((String::from_str("$DLL_LIB_DEPENDENCIES"), lib_deps));
        proof {
            let exports_ghost = match &self.exports_ref {
                Some(er) => er@,
                None => Seq::<char>::empty(),
            };
            let std_ghost = match &self.std_path {
                Some(sp) => sp@,
                None => Seq::<char>::empty(),
            };
            assert(subs_view(subs@) =~= spec_link_subs(
                self.pair,
                self.profile,
                self.lib.name@,
                dv,
                std_ghost,
                exports_ghost,
            ));
        }
        match tc.resolve(self.pair, "link", &subs) {
            Ok(v) => Ok(v),
            Err(e) => Err(BuildError::Config(e)),
        }
    }

    /// Takes the linker's outcome. A linker that could not even launch is
    /// reported apart from one that rejected its arguments, so the caller
    /// can offer platform-specific remediation. The shared-base package
    /// skips the isolation check; every other library's binary must be
    /// read back and checked.
    pub fn on_linked(&mut self, outcome: ToolOutcome) -> (r: Result<AfterLink, BuildError>)
        requires
            old(self).phase is Linking,
        ensures
            core_unchanged(final(self), old(self)),
            final(self).std_path == old(self).std_path,
            final(self).exports_ref == old(self).exports_ref,
            r matches Ok(a) ==> (outcome matches ToolOutcome::Exited { success: true }
                && match a {
                AfterLink::Done { artifact } => final(self).phase is Done && artifact@
                    == spec_artifact_path(old(self).pair, old(self).profile, old(self).lib.name@)
                    && old(self).lib.name@ == old(self).base_package@,
                AfterLink::NeedIntegrityCheck { path } => final(self).phase is Checking
                    && path@ == spec_artifact_path(
                    old(self).pair,
                    old(self).profile,
                    old(self).lib.name@,
                ) && old(self).lib.name@ != old(self).base_package@,
            }),
            r matches Err(e) ==> final(self).phase is Failed && match e {
                BuildError::ToolNotFound { tool } => tool is Linker && outcome is NotLaunched,
                BuildError::ToolFailure { tool } => tool is Linker && outcome matches
                    ToolOutcome::Exited { success: false },
                _ => false,
            },
            outcome is NotLaunched ==> (r matches Err(e) && e == (BuildError::ToolNotFound {
                tool: Tool::Linker,
            })),
            outcome matches ToolOutcome::Exited { success: false } ==> (r matches Err(e) && e
                == (BuildError::ToolFailure { tool: Tool::Linker })),
    {
        match outcome {
            ToolOutcome::NotLaunched => {
                self.phase = BuildPhase::Failed;
                return Err(BuildError::ToolNotFound { tool: Tool::Linker });
            },
            ToolOutcome::Exited { success: false } => {
                self.phase = BuildPhase::Failed;
                return Err(BuildError::ToolFailure { tool: Tool::Linker });
            },
            ToolOutcome::Exited { success: true } => {},
        }
        let artifact = self.artifact_path();
        if str_eq(self.lib.name.as_str(), self.base_package.as_str()) {
            self.phase = BuildPhase::Done;
            Ok(AfterLink::Done { artifact })
        } else {
            self.phase = BuildPhase::Checking;
            Ok(AfterLink::NeedIntegrityCheck { path: artifact })
        }
    }

    /// The post-link integrity check over the produced binary's text: the
    /// reserved marker must not appear, else the base package's internal
    /// symbols were linked in and export isolation failed.
    pub fn on_artifact_text(&mut self, text: &str) -> (r: Result<String, BuildError>)
        requires
            old(self).phase is Checking,
        ensures
            core_unchanged(final(self), old(self)),
            final(self).std_path == old(self).std_path,
            final(self).exports_ref == old(self).exports_ref,
            r matches Ok(artifact) ==> final(self).phase is Done && artifact@
                == spec_artifact_path(old(self).pair, old(self).profile, old(self).lib.name@)
                && !spec_contains_sub(text@, spec_marker()),
            r matches Err(e) ==> final(self).phase is Failed && e
                == BuildError::IntegrityViolation && spec_contains_sub(text@, spec_marker()),
    {
        if contains_sub(text, "FORBID_ME") {
            self.phase = BuildPhase::Failed;
            Err(BuildError::IntegrityViolation)
        } else {
            self.phase = BuildPhase::Done;
            Ok(self.artifact_path())
        }
    }
}

} // verus!

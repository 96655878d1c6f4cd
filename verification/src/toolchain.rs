//! Handing a compile job to the `cc` crate: the job's settings are recorded
//! in a `cc::Build`, which the caller then runs.

use crate::job::{CompileJob, CompileJobView, CompilerFlag};
use crate::platform::Define;
use cc::Build as Compiler;
use vstd::prelude::*;

verus! {

/// `cc::Build`, the configuration of one compilation. It is carried
/// through as it is; what it holds is spoken of through [`settings`].
#[verifier::external_type_specification]
#[verifier::external_body]
pub struct ExCompiler(Compiler);

/// A flag in a compiler configuration.
pub struct FlagSetting {
    /// The flag as it stands on the command line.
    pub text: Seq<char>,
    /// Whether the flag is dropped where the compiler does not accept it.
    pub if_supported: bool,
}

/// What a compiler configuration has been told, as far as this library
/// tells it anything.
pub struct Settings {
    /// The directories in which headers are looked for, in order.
    pub include_dirs: Seq<Seq<char>>,
    /// The macros to define, each with its value if it has one, in order.
    pub definitions: Seq<(Seq<char>, Option<Seq<char>>)>,
    /// The flags, in order.
    pub flags: Seq<FlagSetting>,
    /// The source files, in order.
    pub files: Seq<Seq<char>>,
    /// Whether the sources are compiled as C++.
    pub cpp: bool,
    /// The triple to compile for.
    pub target: Option<Seq<char>>,
    /// The triple of the machine that compiles.
    pub host: Option<Seq<char>>,
    /// The directory that receives objects and library.
    pub out_dir: Option<Seq<char>>,
    /// The optimization level.
    pub opt_level: Option<Seq<char>>,
    /// Whether debug information is asked for.
    pub debug: Option<bool>,
    /// Whether the usual warnings are asked for.
    pub warnings: Option<bool>,
    /// Whether the further warnings are asked for.
    pub extra_warnings: Option<bool>,
    /// Whether link directives for Cargo are printed after the compilation.
    pub cargo_metadata: bool,
}

/// What the configuration `build` has been told.
pub uninterp spec fn settings(build: Compiler) -> Settings;

/// A configuration that has been told nothing.
pub open spec fn blank_settings() -> Settings {
    Settings {
        include_dirs: seq![],
        definitions: seq![],
        flags: seq![],
        files: seq![],
        cpp: false,
        target: None,
        host: None,
        out_dir: None,
        opt_level: None,
        debug: None,
        warnings: None,
        extra_warnings: None,
        cargo_metadata: true,
    }
}

/// `cc::Build::new`: the configuration it returns has every list empty and
/// every option unset; C++ is off and Cargo's link directives are on.
#[verifier::external_body]
fn blank() -> (build: Compiler)
    ensures
        settings(build) == blank_settings(),
{
    Compiler::new()
}

/// `cc::Build::warnings`: sets the usual and the further warnings alike.
#[verifier::external_body]
fn set_warnings(build: &mut Compiler, on: bool)
    ensures
        settings(*final(build)) == (Settings {
            warnings: Some(on),
            extra_warnings: Some(on),
            ..settings(*old(build))
        }),
{
    build.warnings(on);
}

/// `cc::Build::cargo_metadata`: sets whether link directives are printed.
#[verifier::external_body]
fn set_cargo_metadata(build: &mut Compiler, on: bool)
    ensures
        settings(*final(build)) == (Settings { cargo_metadata: on, ..settings(*old(build)) }),
{
    build.cargo_metadata(on);
}

/// `cc::Build::target`: sets the target triple.
#[verifier::external_body]
fn set_target(build: &mut Compiler, target: &str)
    ensures
        settings(*final(build)) == (Settings { target: Some(target@), ..settings(*old(build)) }),
{
    build.target(target);
}

/// `cc::Build::host`: sets the host triple.
#[verifier::external_body]
fn set_host(build: &mut Compiler, host: &str)
    ensures
        settings(*final(build)) == (Settings { host: Some(host@), ..settings(*old(build)) }),
{
    build.host(host);
}

/// `cc::Build::define`, called without a value: appends the macro to the
/// definitions.
#[verifier::external_body]
fn add_define(build: &mut Compiler, name: &str)
    ensures
        settings(*final(build)) == (Settings {
            definitions: settings(*old(build)).definitions.push((name@, None)),
            ..settings(*old(build))
        }),
{
    build.define(name, None);
}

/// `cc::Build::cpp`: sets whether the sources are compiled as C++.
#[verifier::external_body]
fn set_cpp(build: &mut Compiler, on: bool)
    ensures
        settings(*final(build)) == (Settings { cpp: on, ..settings(*old(build)) }),
{
    build.cpp(on);
}

/// `cc::Build::flag`: appends a flag that is always passed.
#[verifier::external_body]
fn add_flag(build: &mut Compiler, flag: &str)
    ensures
        settings(*final(build)) == (Settings {
            flags: settings(*old(build)).flags.push(
                FlagSetting { text: flag@, if_supported: false },
            ),
            ..settings(*old(build))
        }),
{
    build.flag(flag);
}

/// `cc::Build::flag_if_supported`: appends a flag that is passed where the
/// compiler accepts it.
#[verifier::external_body]
fn add_flag_if_supported(build: &mut Compiler, flag: &str)
    ensures
        settings(*final(build)) == (Settings {
            flags: settings(*old(build)).flags.push(
                FlagSetting { text: flag@, if_supported: true },
            ),
            ..settings(*old(build))
        }),
{
    build.flag_if_supported(flag);
}

/// `cc::Build::debug`: sets whether debug information is asked for.
#[verifier::external_body]
fn set_debug(build: &mut Compiler, on: bool)
    ensures
        settings(*final(build)) == (Settings { debug: Some(on), ..settings(*old(build)) }),
{
    build.debug(on);
}

/// `cc::Build::opt_level_str`: sets the optimization level.
#[verifier::external_body]
fn set_opt_level(build: &mut Compiler, level: &str)
    ensures
        settings(*final(build)) == (Settings {
            opt_level: Some(level@),
            ..settings(*old(build))
        }),
{
    build.opt_level_str(level);
}

/// `cc::Build::includes`, called with one directory: appends it to the
/// directories in which headers are looked for.
#[verifier::external_body]
fn add_include_dir(build: &mut Compiler, dir: &str)
    ensures
        settings(*final(build)) == (Settings {
            include_dirs: settings(*old(build)).include_dirs.push(dir@),
            ..settings(*old(build))
        }),
{
    build.includes([dir]);
}

/// `cc::Build::file`: appends a source file.
#[verifier::external_body]
fn add_file(build: &mut Compiler, path: &str)
    ensures
        settings(*final(build)) == (Settings {
            files: settings(*old(build)).files.push(path@),
            ..settings(*old(build))
        }),
{
    build.file(path);
}

/// `cc::Build::out_dir`: sets the directory that receives objects and library.
#[verifier::external_body]
fn set_out_dir(build: &mut Compiler, dir: &str)
    ensures
        settings(*final(build)) == (Settings { out_dir: Some(dir@), ..settings(*old(build)) }),
{
    build.out_dir(dir);
}

/// How a job's flag stands in a configuration.
pub open spec fn flag_setting(flag: CompilerFlag) -> FlagSetting {
    FlagSetting { text: flag.spelling(), if_supported: flag.is_optional() }
}

/// What a configuration holds once it has been told all of `job`: warnings
/// and Cargo's link directives are off, debug information is asked for only
/// where the job asks for it and is otherwise left to the environment.
pub open spec fn job_settings(job: CompileJobView) -> Settings {
    Settings {
        include_dirs: seq![job.include_dir],
        definitions: job.defines.map_values(|define: Define| (define.macro_name(), None)),
        flags: job.flags.map_values(|flag: CompilerFlag| flag_setting(flag)),
        files: job.files,
        cpp: job.cpp,
        target: Some(job.target),
        host: Some(job.host),
        out_dir: Some(job.out_dir),
        opt_level: Some(job.opt_level),
        debug: if job.debug {
            Some(true)
        } else {
            None
        },
        warnings: Some(false),
        extra_warnings: Some(false),
        cargo_metadata: false,
    }
}

impl CompileJob {
    /// A compiler configuration that has been told all of this job, and
    /// nothing else.
    pub fn configure(&self) -> (build: Compiler)
        ensures
            settings(build) == job_settings(self@),
    {
        let mut build = blank();
        set_warnings(&mut build, false);
        set_cargo_metadata(&mut build, false);
        set_target(&mut build, self.target.as_str());
        set_host(&mut build, self.host.as_str());
        set_cpp(&mut build, self.cpp);
        if self.debug {
            set_debug(&mut build, true);
        }
        set_opt_level(&mut build, self.opt_level.as_str());
        add_include_dir(&mut build, self.include_dir.as_str());
        set_out_dir(&mut build, self.out_dir.as_str());
        let ghost base = settings(build);
        assert(base.include_dirs =~= seq![self@.include_dir]);
        assert(job_settings(self@).definitions.take(0) =~= base.definitions);

        let mut d: usize = 0;
        while d < self.defines.len()
            invariant
                d <= self.defines.len(),
                settings(build) == (Settings {
                    definitions: job_settings(self@).definitions.take(d as int),
                    ..base
                }),
            decreases self.defines.len() - d,
        {
            add_define(&mut build, self.defines[d].name());
            assert(job_settings(self@).definitions.take(d as int + 1)
                =~= job_settings(self@).definitions.take(d as int).push(
                (self.defines@[d as int].macro_name(), None),
            ));
            d += 1;
        }
        assert(job_settings(self@).definitions.take(d as int) =~= job_settings(
            self@,
        ).definitions);
        let ghost defined = settings(build);
        assert(job_settings(self@).flags.take(0) =~= defined.flags);

        let mut f: usize = 0;
        while f < self.flags.len()
            invariant
                f <= self.flags.len(),
                settings(build) == (Settings {
                    flags: job_settings(self@).flags.take(f as int),
                    ..defined
                }),
            decreases self.flags.len() - f,
        {
            let flag = self.flags[f];
            if flag.optional() {
                add_flag_if_supported(&mut build, flag.text());
            } else {
                add_flag(&mut build, flag.text());
            }
            assert(job_settings(self@).flags.take(f as int + 1) =~= job_settings(
                self@,
            ).flags.take(f as int).push(flag_setting(flag)));
            f += 1;
        }
        assert(job_settings(self@).flags.take(f as int) =~= job_settings(self@).flags);
        let ghost flagged = settings(build);
        assert(self.files.deep_view().take(0) =~= flagged.files);

        let mut s: usize = 0;
        while s < self.files.len()
            invariant
                s <= self.files.len(),
                settings(build) == (Settings {
                    files: self.files.deep_view().take(s as int),
                    ..flagged
                }),
            decreases self.files.len() - s,
        {
            add_file(&mut build, self.files[s].as_str());
            assert(self.files.deep_view().take(s as int + 1) =~= self.files.deep_view().take(
                s as int,
            ).push(self.files@[s as int]@));
            s += 1;
        }
        assert(self.files.deep_view().take(s as int) =~= self.files.deep_view());
        build
    }
}

} // verus!

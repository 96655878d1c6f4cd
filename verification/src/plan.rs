//! From a configuration, a release and the surroundings to the plan of a
//! build: every setting resolved, every directory named.

use crate::artifacts::{Artifacts, ArtifactsView};
use crate::catalog::Version;
use crate::config::{Build, BuildView, Environment, EnvironmentView};
use crate::error::{BuildError, BuildErrorView, Setting};
use crate::job::{CompileJob, CompileJobView, CompilerFlag};
use crate::platform::{resolution, resolve, Define, PlatformProfile, PlatformProfileView};
use crate::text::{join_path, joined};
use vstd::prelude::*;

verus! {

/// The plan of one build.
#[derive(Debug, PartialEq, Eq)]
pub struct Plan {
    /// The release to build.
    pub version: Version,
    /// The directory that holds the release's source tree.
    pub source_dir: String,
    /// The directory that receives what the build produces.
    pub out_dir: String,
    /// The triple to build for.
    pub target: String,
    /// The triple of the machine that builds.
    pub host: String,
    /// The optimization level.
    pub opt_level: String,
    /// Whether this is a debug build.
    pub debug: bool,
    /// What the target's platform asks for.
    pub profile: PlatformProfile,
}

/// A [`Plan`] as a mathematical value.
pub struct PlanView {
    pub version: Version,
    pub source_dir: Seq<char>,
    pub out_dir: Seq<char>,
    pub target: Seq<char>,
    pub host: Seq<char>,
    pub opt_level: Seq<char>,
    pub debug: bool,
    pub profile: PlatformProfileView,
}

impl View for Plan {
    type V = PlanView;

    open spec fn view(&self) -> PlanView {
        PlanView {
            version: self.version,
            source_dir: self.source_dir@,
            out_dir: self.out_dir@,
            target: self.target@,
            host: self.host@,
            opt_level: self.opt_level@,
            debug: self.debug,
            profile: self.profile@,
        }
    }
}

impl PlanView {
    /// The directory that receives the library.
    pub open spec fn lib_dir(self) -> Seq<char> {
        joined(self.out_dir, "lib"@)
    }

    /// The directory that receives the published headers.
    pub open spec fn include_dir(self) -> Seq<char> {
        joined(self.out_dir, "include"@)
    }

    /// The directory that receives the staged source tree.
    pub open spec fn staging_dir(self) -> Seq<char> {
        joined(self.out_dir, "cpp_source"@)
    }

    /// The directory whose sources are compiled and whose headers are
    /// published: the staged tree where the platform asks for one, else the
    /// release's own.
    pub open spec fn compile_root(self) -> Seq<char> {
        if self.profile.transform {
            self.staging_dir()
        } else {
            self.source_dir
        }
    }

    /// The macros that the compilation defines: those of the platform, then
    /// the one that turns on the checks of Lua's C interface in a debug build.
    pub open spec fn defines(self) -> Seq<Define> {
        if self.debug {
            self.profile.defines.push(Define::ApiCheck)
        } else {
            self.profile.defines
        }
    }

    /// The flags that the compilation passes: exception support where the
    /// tree is staged for C++, then no warnings, then no common globals.
    pub open spec fn flags(self) -> Seq<CompilerFlag> {
        if self.profile.transform {
            seq![CompilerFlag::Exceptions, CompilerFlag::NoWarnings, CompilerFlag::NoCommon]
        } else {
            seq![CompilerFlag::NoWarnings, CompilerFlag::NoCommon]
        }
    }

    /// The compilation of the source files `files`.
    pub open spec fn job(self, files: Seq<Seq<char>>) -> CompileJobView {
        CompileJobView {
            target: self.target,
            host: self.host,
            opt_level: self.opt_level,
            debug: self.debug,
            cpp: self.profile.transform,
            defines: self.defines(),
            flags: self.flags(),
            include_dir: self.compile_root(),
            files,
            out_dir: self.lib_dir(),
            lib_name: self.version.library_name(),
        }
    }

    /// What the build hands over once it has succeeded.
    pub open spec fn artifacts(self) -> ArtifactsView {
        ArtifactsView {
            version: self.version,
            include_dir: self.include_dir(),
            lib_dir: self.lib_dir(),
        }
    }
}

/// The plan of a build of `version` with the configuration `config` in the
/// surroundings `env`. Without a target triple there is none, nor without an
/// output directory, nor for a triple that no platform fits; the triple is
/// asked for first.
pub open spec fn planned(config: BuildView, version: Version, env: EnvironmentView) -> Result<
    PlanView,
    BuildErrorView,
> {
    match config.target_in(env) {
        None => Err(BuildErrorView::MissingConfig(Setting::Target)),
        Some(target) => match config.out_dir_in(env) {
            None => Err(BuildErrorView::MissingConfig(Setting::OutDir)),
            Some(out_dir) => match resolution(target, version) {
                Err(error) => Err(error),
                Ok(profile) => Ok(
                    PlanView {
                        version,
                        source_dir: joined(env.manifest_dir, version.source_dir_name()),
                        out_dir,
                        target,
                        host: config.host_in(env, target),
                        opt_level: config.opt_level_in(env),
                        debug: config.debug_in(env),
                        profile,
                    },
                ),
            },
        },
    }
}

impl Build {
    /// Plans a build of `version` in the surroundings `env`.
    pub fn plan(&self, version: Version, env: &Environment) -> (r: Result<Plan, BuildError>)
        ensures
            r matches Ok(plan) ==> planned(self@, version, env@) == Ok::<PlanView, BuildErrorView>(
                plan@,
            ),
            r matches Err(error) ==> planned(self@, version, env@) == Err::<
                PlanView,
                BuildErrorView,
            >(error@),
    {
        let target = match self.resolve_target(env) {
            Some(target) => target,
            None => {
                return Err(BuildError::MissingConfig(Setting::Target));
            },
        };
        let out_dir = match self.resolve_out_dir(env) {
            Some(out_dir) => out_dir,
            None => {
                return Err(BuildError::MissingConfig(Setting::OutDir));
            },
        };
        let profile = match resolve(target.as_str(), version) {
            Ok(profile) => profile,
            Err(error) => {
                return Err(error);
            },
        };
        let host = self.resolve_host(env, target.as_str());
        let opt_level = self.resolve_opt_level(env);
        let debug = self.resolve_debug(env);
        let source_dir = join_path(env.manifest_dir.as_str(), version.source_dir());
        Ok(Plan { version, source_dir, out_dir, target, host, opt_level, debug, profile })
    }
}

impl Plan {
    /// The directory that receives the library.
    pub fn lib_dir(&self) -> (dir: String)
        ensures
            dir@ == self@.lib_dir(),
    {
        join_path(self.out_dir.as_str(), "lib")
    }

    /// The directory that receives the published headers.
    pub fn include_dir(&self) -> (dir: String)
        ensures
            dir@ == self@.include_dir(),
    {
        join_path(self.out_dir.as_str(), "include")
    }

    /// The directory that receives the staged source tree.
    pub fn staging_dir(&self) -> (dir: String)
        ensures
            dir@ == self@.staging_dir(),
    {
        join_path(self.out_dir.as_str(), "cpp_source")
    }

    /// The directory whose sources are compiled and whose headers are
    /// published.
    pub fn compile_root(&self) -> (dir: String)
        ensures
            dir@ == self@.compile_root(),
    {
        if self.profile.transform {
            self.staging_dir()
        } else {
            self.source_dir.clone()
        }
    }

    /// The compilation of the source files `files`.
    pub fn job(&self, files: Vec<String>) -> (job: CompileJob)
        ensures
            job@ == self@.job(files.deep_view()),
    {
        let mut defines: Vec<Define> = Vec::new();
        let mut i: usize = 0;
        while i < self.profile.defines.len()
            invariant
                i <= self.profile.defines.len(),
                defines@ == self.profile.defines@.take(i as int),
            decreases self.profile.defines.len() - i,
        {
            defines.push(self.profile.defines[i]);
            assert(self.profile.defines@.take(i as int + 1) =~= self.profile.defines@.take(
                i as int,
            ).push(self.profile.defines@[i as int]));
            i += 1;
        }
        assert(self.profile.defines@.take(i as int) =~= self.profile.defines@);
        if self.debug {
            defines.push(Define::ApiCheck);
        }
        let mut flags: Vec<CompilerFlag> = Vec::new();
        if self.profile.transform {
            flags.push(CompilerFlag::Exceptions);
        }
        flags.push(CompilerFlag::NoWarnings);
        flags.push(CompilerFlag::NoCommon);
        assert(flags@ =~= self@.flags());
        CompileJob {
            target: self.target.clone(),
            host: self.host.clone(),
            opt_level: self.opt_level.clone(),
            debug: self.debug,
            cpp: self.profile.transform,
            defines,
            flags,
            include_dir: self.compile_root(),
            files,
            out_dir: self.lib_dir(),
            lib_name: self.version.lib_name().to_owned(),
        }
    }

    /// What the build hands over once it has succeeded.
    pub fn artifacts(&self) -> (made: Artifacts)
        ensures
            made@ == self@.artifacts(),
    {
        Artifacts::new(self.version, self.include_dir(), self.lib_dir())
    }
}

} // verus!

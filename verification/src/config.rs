//! The configuration of a build, and what the surroundings of the process
//! supply where the configuration says nothing.

use vstd::prelude::*;

verus! {

/// The configuration of a build. Whatever is left unset is taken from the
/// [`Environment`] when the build is planned.
#[derive(Debug, PartialEq, Eq)]
pub struct Build {
    out_dir: Option<String>,
    target: Option<String>,
    host: Option<String>,
    opt_level: Option<String>,
    debug: Option<bool>,
}

/// A [`Build`] as a mathematical value.
pub struct BuildView {
    /// The output directory.
    pub out_dir: Option<Seq<char>>,
    /// The target triple.
    pub target: Option<Seq<char>>,
    /// The host triple.
    pub host: Option<Seq<char>>,
    /// The optimization level.
    pub opt_level: Option<Seq<char>>,
    /// Whether to build in debug mode.
    pub debug: Option<bool>,
}

/// What the surroundings of the process supply to a build.
#[derive(Debug, PartialEq, Eq)]
pub struct Environment {
    /// The output directory that the surroundings name, if any.
    pub out_dir: Option<String>,
    /// The target triple that the surroundings name, if any.
    pub target: Option<String>,
    /// The host triple that the surroundings name, if any.
    pub host: Option<String>,
    /// The optimization level that the surroundings name, if any.
    pub opt_level: Option<String>,
    /// Whether the surrounding build is a debug build.
    pub debug: bool,
    /// The directory below which the source trees of the catalog lie.
    pub manifest_dir: String,
}

/// An [`Environment`] as a mathematical value.
pub struct EnvironmentView {
    pub out_dir: Option<Seq<char>>,
    pub target: Option<Seq<char>>,
    pub host: Option<Seq<char>>,
    pub opt_level: Option<Seq<char>>,
    pub debug: bool,
    pub manifest_dir: Seq<char>,
}

impl View for Build {
    type V = BuildView;

    closed spec fn view(&self) -> BuildView {
        BuildView {
            out_dir: self.out_dir.deep_view(),
            target: self.target.deep_view(),
            host: self.host.deep_view(),
            opt_level: self.opt_level.deep_view(),
            debug: self.debug,
        }
    }
}

impl View for Environment {
    type V = EnvironmentView;

    open spec fn view(&self) -> EnvironmentView {
        EnvironmentView {
            out_dir: self.out_dir.deep_view(),
            target: self.target.deep_view(),
            host: self.host.deep_view(),
            opt_level: self.opt_level.deep_view(),
            debug: self.debug,
            manifest_dir: self.manifest_dir@,
        }
    }
}

impl BuildView {
    /// The configuration in which nothing is set.
    pub open spec fn unset() -> BuildView {
        BuildView { out_dir: None, target: None, host: None, opt_level: None, debug: None }
    }

    /// The target triple of a build: the configured one, else the one of
    /// the surroundings.
    pub open spec fn target_in(self, env: EnvironmentView) -> Option<Seq<char>> {
        if self.target is Some {
            self.target
        } else {
            env.target
        }
    }

    /// The output directory of a build: the configured one, else the one of
    /// the surroundings.
    pub open spec fn out_dir_in(self, env: EnvironmentView) -> Option<Seq<char>> {
        if self.out_dir is Some {
            self.out_dir
        } else {
            env.out_dir
        }
    }

    /// The host triple of a build for `target`: the configured one, else the
    /// one of the surroundings, else the target itself.
    pub open spec fn host_in(self, env: EnvironmentView, target: Seq<char>) -> Seq<char> {
        if self.host is Some {
            self.host->0
        } else if env.host is Some {
            env.host->0
        } else {
            target
        }
    }

    /// Whether a build is a debug build: as configured, else as the
    /// surrounding build is.
    pub open spec fn debug_in(self, env: EnvironmentView) -> bool {
        if self.debug is Some {
            self.debug->0
        } else {
            env.debug
        }
    }

    /// The optimization level of a build: the configured one, else the one
    /// of the surroundings, else `0` for a debug build and `2` for any other.
    pub open spec fn opt_level_in(self, env: EnvironmentView) -> Seq<char> {
        if self.opt_level is Some {
            self.opt_level->0
        } else if env.opt_level is Some {
            env.opt_level->0
        } else if self.debug_in(env) {
            "0"@
        } else {
            "2"@
        }
    }
}

impl Default for Build {
    fn default() -> (config: Build)
        ensures
            config@ == BuildView::unset(),
    {
        Build { out_dir: None, target: None, host: None, opt_level: None, debug: None }
    }
}

impl Build {
    /// A configuration in which nothing is set.
    pub fn new() -> (config: Build)
        ensures
            config@ == BuildView::unset(),
    {
        Build { out_dir: None, target: None, host: None, opt_level: None, debug: None }
    }

    /// The target triple of a build, if one is configured or supplied.
    pub fn resolve_target(&self, env: &Environment) -> (target: Option<String>)
        ensures
            target.deep_view() == self@.target_in(env@),
    {
        match &self.target {
            Some(target) => Some(target.clone()),
            None => match &env.target {
                Some(target) => Some(target.clone()),
                None => None,
            },
        }
    }

    /// The output directory of a build, if one is configured or supplied.
    pub fn resolve_out_dir(&self, env: &Environment) -> (dir: Option<String>)
        ensures
            dir.deep_view() == self@.out_dir_in(env@),
    {
        match &self.out_dir {
            Some(dir) => Some(dir.clone()),
            None => match &env.out_dir {
                Some(dir) => Some(dir.clone()),
                None => None,
            },
        }
    }

    /// The host triple of a build for `target`.
    pub fn resolve_host(&self, env: &Environment, target: &str) -> (host: String)
        ensures
            host@ == self@.host_in(env@, target@),
    {
        match &self.host {
            Some(host) => host.clone(),
            None => match &env.host {
                Some(host) => host.clone(),
                None => target.to_owned(),
            },
        }
    }

    /// Whether a build is a debug build.
    pub fn resolve_debug(&self, env: &Environment) -> (debug: bool)
        ensures
            debug == self@.debug_in(env@),
    {
        match self.debug {
            Some(debug) => debug,
            None => env.debug,
        }
    }

    /// The optimization level of a build.
    pub fn resolve_opt_level(&self, env: &Environment) -> (level: String)
        ensures
            level@ == self@.opt_level_in(env@),
    {
        match &self.opt_level {
            Some(level) => level.clone(),
            None => match &env.opt_level {
                Some(level) => level.clone(),
                None => if self.resolve_debug(env) {
                    "0".to_owned()
                } else {
                    "2".to_owned()
                },
            },
        }
    }

    /// Sets the directory that receives what the build produces.
    pub fn out_dir(&mut self, path: &str) -> (config: &mut Build)
        ensures
            config@ == (BuildView { out_dir: Some(path@), ..old(self)@ }),
            *final(self) == *final(config),
    {
        self.out_dir = Some(path.to_owned());
        self
    }

    /// Sets the triple to build for.
    pub fn target(&mut self, target: &str) -> (config: &mut Build)
        ensures
            config@ == (BuildView { target: Some(target@), ..old(self)@ }),
            *final(self) == *final(config),
    {
        self.target = Some(target.to_owned());
        self
    }

    /// Sets the triple of the machine that builds.
    pub fn host(&mut self, host: &str) -> (config: &mut Build)
        ensures
            config@ == (BuildView { host: Some(host@), ..old(self)@ }),
            *final(self) == *final(config),
    {
        self.host = Some(host.to_owned());
        self
    }

    /// Sets the optimization level.
    pub fn opt_level(&mut self, opt_level: &str) -> (config: &mut Build)
        ensures
            config@ == (BuildView { opt_level: Some(opt_level@), ..old(self)@ }),
            *final(self) == *final(config),
    {
        self.opt_level = Some(opt_level.to_owned());
        self
    }

    /// Sets whether to build in debug mode, which also turns on the checks
    /// of Lua's C interface.
    pub fn debug(&mut self, debug: bool) -> (config: &mut Build)
        ensures
            config@ == (BuildView { debug: Some(debug), ..old(self)@ }),
            *final(self) == *final(config),
    {
        self.debug = Some(debug);
        self
    }
}

} // verus!

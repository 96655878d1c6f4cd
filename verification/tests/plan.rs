use lua_src::error::{BuildError, Setting};
use lua_src::job::CompilerFlag;
use lua_src::platform::Define;
use lua_src::{Build, Environment, Lua51, Lua53, Lua54};

fn bare() -> Environment {
    Environment {
        out_dir: None,
        target: None,
        host: None,
        opt_level: None,
        debug: false,
        manifest_dir: "/pkg".to_string(),
    }
}

fn cargo() -> Environment {
    Environment {
        out_dir: Some("/target/out".to_string()),
        target: Some("aarch64-apple-darwin".to_string()),
        host: Some("x86_64-unknown-linux-gnu".to_string()),
        opt_level: Some("3".to_string()),
        debug: true,
        manifest_dir: "/pkg".to_string(),
    }
}

#[test]
fn a_build_without_target_is_refused() {
    let config = Build::new();
    assert_eq!(
        config.plan(Lua54, &bare()),
        Err(BuildError::MissingConfig(Setting::Target))
    );
}

#[test]
fn the_target_is_asked_for_before_the_output_directory() {
    let mut config = Build::new();
    config.out_dir("/out");
    assert_eq!(
        config.plan(Lua54, &bare()),
        Err(BuildError::MissingConfig(Setting::Target))
    );
}

#[test]
fn a_build_without_output_directory_is_refused() {
    let mut config = Build::new();
    config.target("x86_64-unknown-linux-gnu");
    assert_eq!(
        config.plan(Lua54, &bare()),
        Err(BuildError::MissingConfig(Setting::OutDir))
    );
}

#[test]
fn an_unknown_target_is_refused_once_both_are_set() {
    let mut config = Build::new();
    config.target("riscv64-unknown-hermit").out_dir("/out");
    assert_eq!(
        config.plan(Lua54, &bare()),
        Err(BuildError::UnsupportedTarget("riscv64-unknown-hermit".to_string()))
    );
}

#[test]
fn the_surroundings_supply_what_is_not_configured() {
    let plan = Build::new().plan(Lua53, &cargo()).unwrap();
    assert_eq!(plan.version, Lua53);
    assert_eq!(plan.target, "aarch64-apple-darwin");
    assert_eq!(plan.out_dir, "/target/out");
    assert_eq!(plan.host, "x86_64-unknown-linux-gnu");
    assert_eq!(plan.opt_level, "3");
    assert!(plan.debug);
    assert_eq!(plan.source_dir, "/pkg/lua-5.3.6");
    assert_eq!(plan.profile.defines, vec![Define::UseMacosx]);
    assert!(!plan.profile.transform);
}

#[test]
fn the_configuration_overrides_the_surroundings() {
    let mut config = Build::new();
    config
        .target("x86_64-pc-windows-msvc")
        .out_dir("/elsewhere")
        .host("x86_64-pc-windows-msvc")
        .opt_level("s")
        .debug(false);
    let plan = config.plan(Lua51, &cargo()).unwrap();
    assert_eq!(plan.target, "x86_64-pc-windows-msvc");
    assert_eq!(plan.out_dir, "/elsewhere");
    assert_eq!(plan.host, "x86_64-pc-windows-msvc");
    assert_eq!(plan.opt_level, "s");
    assert!(!plan.debug);
    assert_eq!(plan.source_dir, "/pkg/lua-5.1.5");
    assert_eq!(plan.profile.defines, vec![Define::UseWindows]);
}

#[test]
fn a_later_setting_replaces_an_earlier_one() {
    let mut config = Build::new();
    config.target("x86_64-unknown-linux-gnu").out_dir("/a");
    config.target("wasm32-unknown-emscripten").out_dir("/b");
    let plan = config.plan(Lua54, &bare()).unwrap();
    assert_eq!(plan.target, "wasm32-unknown-emscripten");
    assert_eq!(plan.out_dir, "/b");
    assert!(plan.profile.transform);
}

#[test]
fn the_host_defaults_to_the_target() {
    let mut config = Build::new();
    config.target("x86_64-unknown-freebsd").out_dir("/out");
    let plan = config.plan(Lua54, &bare()).unwrap();
    assert_eq!(plan.host, "x86_64-unknown-freebsd");
}

#[test]
fn the_optimization_level_defaults_by_the_debug_mode() {
    let mut config = Build::new();
    config.target("x86_64-unknown-linux-gnu").out_dir("/out");
    assert_eq!(config.plan(Lua54, &bare()).unwrap().opt_level, "2");
    config.debug(true);
    assert_eq!(config.plan(Lua54, &bare()).unwrap().opt_level, "0");

    let mut debug_build = bare();
    debug_build.debug = true;
    let mut defaulted = Build::new();
    defaulted.target("x86_64-unknown-linux-gnu").out_dir("/out");
    assert_eq!(defaulted.plan(Lua54, &debug_build).unwrap().opt_level, "0");
    defaulted.debug(false);
    assert_eq!(defaulted.plan(Lua54, &debug_build).unwrap().opt_level, "2");
}

#[test]
fn resolution_of_each_setting() {
    let mut config = Build::default();
    assert_eq!(config.resolve_target(&bare()), None);
    assert_eq!(config.resolve_out_dir(&bare()), None);
    assert_eq!(
        config.resolve_target(&cargo()),
        Some("aarch64-apple-darwin".to_string())
    );
    assert_eq!(config.resolve_out_dir(&cargo()), Some("/target/out".to_string()));
    assert_eq!(config.resolve_host(&bare(), "t"), "t");
    assert_eq!(config.resolve_host(&cargo(), "t"), "x86_64-unknown-linux-gnu");
    assert!(!config.resolve_debug(&bare()));
    assert!(config.resolve_debug(&cargo()));
    assert_eq!(config.resolve_opt_level(&cargo()), "3");
    config.host("h").opt_level("1").debug(false);
    assert_eq!(config.resolve_host(&cargo(), "t"), "h");
    assert_eq!(config.resolve_opt_level(&cargo()), "1");
    assert!(!config.resolve_debug(&cargo()));
}

#[test]
fn the_plan_names_every_directory() {
    let mut config = Build::new();
    config.target("x86_64-unknown-linux-gnu").out_dir("/out");
    let plan = config.plan(Lua54, &bare()).unwrap();
    assert_eq!(plan.lib_dir(), "/out/lib");
    assert_eq!(plan.include_dir(), "/out/include");
    assert_eq!(plan.staging_dir(), "/out/cpp_source");
    assert_eq!(plan.compile_root(), "/pkg/lua-5.4.8");

    config.target("wasm32-unknown-emscripten");
    let staged = config.plan(Lua54, &bare()).unwrap();
    assert_eq!(staged.compile_root(), "/out/cpp_source");
}

#[test]
fn the_job_of_a_release_build() {
    let mut config = Build::new();
    config.target("x86_64-unknown-linux-gnu").out_dir("/out");
    let plan = config.plan(Lua53, &bare()).unwrap();
    let job = plan.job(vec!["/pkg/lua-5.3.6/lapi.c".to_string()]);
    assert_eq!(job.target, "x86_64-unknown-linux-gnu");
    assert_eq!(job.host, "x86_64-unknown-linux-gnu");
    assert_eq!(job.opt_level, "2");
    assert!(!job.debug);
    assert!(!job.cpp);
    assert_eq!(job.defines, vec![Define::UseLinux]);
    assert_eq!(job.flags, vec![CompilerFlag::NoWarnings, CompilerFlag::NoCommon]);
    assert_eq!(job.include_dir, "/pkg/lua-5.3.6");
    assert_eq!(job.files, vec!["/pkg/lua-5.3.6/lapi.c".to_string()]);
    assert_eq!(job.out_dir, "/out/lib");
    assert_eq!(job.lib_name, "lua5.3");
}

#[test]
fn the_job_of_a_debug_build_for_emscripten() {
    let mut config = Build::new();
    config.target("wasm32-unknown-emscripten").out_dir("/out").debug(true);
    let plan = config.plan(Lua54, &bare()).unwrap();
    let job = plan.job(Vec::new());
    assert_eq!(job.opt_level, "0");
    assert!(job.debug);
    assert!(job.cpp);
    assert_eq!(
        job.defines,
        vec![Define::UsePosix, Define::Compat53, Define::ApiCheck]
    );
    assert_eq!(
        job.flags,
        vec![CompilerFlag::Exceptions, CompilerFlag::NoWarnings, CompilerFlag::NoCommon]
    );
    assert_eq!(job.include_dir, "/out/cpp_source");
    assert!(job.files.is_empty());
    assert_eq!(job.lib_name, "lua5.4");
}

#[test]
fn the_artifacts_of_a_plan() {
    let mut config = Build::new();
    config.target("x86_64-unknown-linux-gnu").out_dir("/out");
    let artifacts = config.plan(Lua51, &bare()).unwrap().artifacts();
    assert_eq!(artifacts.version(), Lua51);
    assert_eq!(artifacts.include_dir(), "/out/include");
    assert_eq!(artifacts.lib_dir(), "/out/lib");
    assert_eq!(artifacts.libs(), ["lua5.1".to_string()]);
}

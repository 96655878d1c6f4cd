use lua_src::job::{CompileJob, CompilerFlag};
use lua_src::platform::Define;
use std::path::Path;

fn job() -> CompileJob {
    CompileJob {
        target: "x86_64-unknown-linux-gnu".to_string(),
        host: "x86_64-unknown-linux-gnu".to_string(),
        opt_level: "2".to_string(),
        debug: false,
        cpp: false,
        defines: vec![Define::UseLinux, Define::Compat53],
        flags: vec![CompilerFlag::NoWarnings, CompilerFlag::NoCommon],
        include_dir: "/pkg/lua-5.4.8".to_string(),
        files: vec![
            "/pkg/lua-5.4.8/lapi.c".to_string(),
            "/pkg/lua-5.4.8/lvm.c".to_string(),
        ],
        out_dir: "/tmp/lua-src-configure-test/lib".to_string(),
        lib_name: "lua5.4".to_string(),
    }
}

fn arguments(job: &CompileJob) -> Vec<String> {
    let tool = job.configure().try_get_compiler().unwrap();
    tool.args().iter().map(|arg| arg.to_string_lossy().into_owned()).collect()
}

fn position(args: &[String], wanted: &str) -> usize {
    match args.iter().position(|arg| arg == wanted) {
        Some(at) => at,
        None => panic!("{wanted} is not among {args:?}"),
    }
}

#[test]
fn configure_records_the_source_files_in_order() {
    let build = job().configure();
    let files: Vec<&Path> = build.get_files().collect();
    assert_eq!(
        files,
        vec![Path::new("/pkg/lua-5.4.8/lapi.c"), Path::new("/pkg/lua-5.4.8/lvm.c")]
    );
}

#[test]
fn configure_without_files_records_none() {
    let mut job = job();
    job.files.clear();
    assert_eq!(job.configure().get_files().count(), 0);
}

#[test]
fn configure_sets_target_host_and_level_so_that_a_compiler_is_found() {
    assert!(job().configure().try_get_compiler().is_ok());
}

#[test]
fn configure_passes_the_defines_in_order() {
    let args = arguments(&job());
    let first = position(&args, "-DLUA_USE_LINUX");
    let second = position(&args, "-DLUA_COMPAT_5_3");
    assert!(first < second);
    assert!(!args.contains(&"-DLUA_USE_APICHECK".to_string()));
}

#[test]
fn configure_passes_the_directory_for_headers() {
    let args = arguments(&job());
    let at = position(&args, "-I");
    assert_eq!(args[at + 1], "/pkg/lua-5.4.8");
}

#[test]
fn configure_passes_the_optimization_level() {
    let mut job = job();
    assert!(arguments(&job).contains(&"-O2".to_string()));
    job.opt_level = "0".to_string();
    let args = arguments(&job);
    assert!(args.contains(&"-O0".to_string()));
    assert!(!args.contains(&"-O2".to_string()));
}

#[test]
fn configure_turns_the_warnings_off() {
    let mut job = job();
    job.flags.clear();
    let args = arguments(&job);
    assert!(args.contains(&"-w".to_string()));
    assert!(!args.contains(&"-Wall".to_string()));
    assert!(!args.contains(&"-Wextra".to_string()));
}

#[test]
fn configure_passes_a_flag_only_where_the_job_holds_it() {
    let mut job = job();
    let plain = arguments(&job);
    assert!(!plain.contains(&"-fexceptions".to_string()));
    assert!(plain.contains(&"-fno-common".to_string()));
    assert_eq!(plain.iter().filter(|arg| *arg == "-w").count(), 2);
    job.flags.insert(0, CompilerFlag::Exceptions);
    let args = arguments(&job);
    assert!(position(&args, "-fexceptions") < position(&args, "-fno-common"));
    job.flags.clear();
    let none = arguments(&job);
    assert!(!none.contains(&"-fexceptions".to_string()));
    assert!(!none.contains(&"-fno-common".to_string()));
    assert_eq!(none.iter().filter(|arg| *arg == "-w").count(), 1);
}

#[test]
fn configure_asks_for_debug_information_in_a_debug_job_only() {
    let mut job = job();
    assert!(!arguments(&job).iter().any(|arg| arg.starts_with("-g")));
    job.debug = true;
    assert!(arguments(&job).iter().any(|arg| arg.starts_with("-g")));
}

#[test]
fn configure_selects_the_compiler_for_the_language() {
    let mut job = job();
    let c = job.configure().try_get_compiler().unwrap();
    job.cpp = true;
    let cpp = job.configure().try_get_compiler().unwrap();
    assert_ne!(c.path(), cpp.path());
}

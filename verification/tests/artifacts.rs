use lua_src::{Build, Environment, Lua52, Lua54, Version};

fn artifacts_of(version: Version, out_dir: &str) -> lua_src::Artifacts {
    let env = Environment {
        out_dir: None,
        target: None,
        host: None,
        opt_level: None,
        debug: false,
        manifest_dir: "/pkg".to_string(),
    };
    let mut config = Build::new();
    config.target("x86_64-unknown-linux-gnu").out_dir(out_dir);
    config.plan(version, &env).unwrap().artifacts()
}

#[test]
fn libs_holds_the_one_name_of_the_catalog() {
    for version in [Version::Lua51, Version::Lua52, Version::Lua53, Version::Lua54] {
        let artifacts = artifacts_of(version, "/out");
        assert_eq!(artifacts.libs().len(), 1);
        assert_eq!(artifacts.libs()[0], version.lib_name());
    }
}

#[test]
fn cargo_metadata_names_the_search_path_and_the_library() {
    assert_eq!(
        artifacts_of(Lua54, "/target/out").cargo_metadata(),
        vec![
            "cargo:rustc-link-search=native=/target/out/lib".to_string(),
            "cargo:rustc-link-lib=static=lua5.4".to_string(),
            "cargo:include=/target/out/include".to_string(),
            "cargo:lib=/target/out/lib".to_string(),
        ]
    );
    assert_eq!(
        artifacts_of(Lua52, "rel").cargo_metadata(),
        vec![
            "cargo:rustc-link-search=native=rel/lib".to_string(),
            "cargo:rustc-link-lib=static=lua5.2".to_string(),
            "cargo:include=rel/include".to_string(),
            "cargo:lib=rel/lib".to_string(),
        ]
    );
}

#[test]
fn a_clone_holds_the_same_artifacts() {
    let artifacts = artifacts_of(Lua54, "/out");
    let copy = artifacts.clone();
    assert_eq!(copy, artifacts);
    assert_eq!(copy.lib_dir(), "/out/lib");
    assert_eq!(copy.include_dir(), "/out/include");
    assert_eq!(copy.libs(), artifacts.libs());
    assert_eq!(copy.version(), Lua54);
}

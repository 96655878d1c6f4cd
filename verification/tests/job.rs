use lua_src::job::{select_sources, CompilerFlag};

fn names(list: &[&str]) -> Vec<String> {
    list.iter().map(|name| name.to_string()).collect()
}

#[test]
fn sources_are_the_entries_with_the_extension_c() {
    let listing = names(&[
        "Makefile", "lapi.c", "lapi.h", "lua.c", "lua.hpp", "lvm.c", "README",
    ]);
    assert_eq!(
        select_sources("/src", &listing),
        names(&["/src/lapi.c", "/src/lua.c", "/src/lvm.c"])
    );
}

#[test]
fn sources_keep_the_order_of_the_listing() {
    let listing = names(&["z.c", "a.c", "m.c"]);
    assert_eq!(
        select_sources("dir/", &listing),
        names(&["dir/z.c", "dir/a.c", "dir/m.c"])
    );
}

#[test]
fn sources_leave_out_what_only_looks_like_one() {
    let listing = names(&[".c", "c", "x.C", "x.cc", "x.c.orig", "x.c~", "", "x.", "a.b.c"]);
    assert_eq!(select_sources("/s", &listing), names(&["/s/a.b.c"]));
}

#[test]
fn an_empty_listing_has_no_sources() {
    assert_eq!(select_sources("/s", &Vec::new()), Vec::<String>::new());
    assert_eq!(
        select_sources("/s", &names(&["lua.h", "luaconf.h"])),
        Vec::<String>::new()
    );
}

#[test]
fn flags_have_their_spelling() {
    assert_eq!(CompilerFlag::Exceptions.text(), "-fexceptions");
    assert_eq!(CompilerFlag::NoWarnings.text(), "-w");
    assert_eq!(CompilerFlag::NoCommon.text(), "-fno-common");
}

#[test]
fn only_the_flag_for_common_globals_is_optional() {
    assert!(!CompilerFlag::Exceptions.optional());
    assert!(!CompilerFlag::NoWarnings.optional());
    assert!(CompilerFlag::NoCommon.optional());
}

use lua_src::staging::{
    needs_wrapping, published_header, published_header_count, stage_file,
};

#[test]
fn the_three_interface_headers_are_wrapped() {
    assert!(needs_wrapping("lauxlib.h"));
    assert!(needs_wrapping("lua.h"));
    assert!(needs_wrapping("lualib.h"));
}

#[test]
fn nothing_else_is_wrapped() {
    assert!(!needs_wrapping("luaconf.h"));
    assert!(!needs_wrapping("lua.hpp"));
    assert!(!needs_wrapping("lapi.c"));
    assert!(!needs_wrapping("Lua.h"));
    assert!(!needs_wrapping("lua.h "));
    assert!(!needs_wrapping(""));
}

#[test]
fn a_wrapped_header_stands_between_the_two_markers() {
    let staged = stage_file("lua.h", b"#define LUA_VERSION_NUM 504\n".to_vec());
    assert_eq!(
        staged,
        b"extern \"C\" {\n#define LUA_VERSION_NUM 504\n\n}".to_vec()
    );
    assert!(staged.starts_with(b"extern \"C\" {\n"));
    assert!(staged.ends_with(b"\n}"));
}

#[test]
fn an_empty_header_is_wrapped_too() {
    assert_eq!(
        stage_file("lauxlib.h", Vec::new()),
        vec![101u8, 120, 116, 101, 114, 110, 32, 34, 67, 34, 32, 123, 10, 10, 125]
    );
    assert_eq!(stage_file("lualib.h", Vec::new()), b"extern \"C\" {\n\n}".to_vec());
}

#[test]
fn other_files_are_staged_byte_for_byte() {
    let bytes: Vec<u8> = (0u8..=255).collect();
    assert_eq!(stage_file("lapi.c", bytes.clone()), bytes);
    assert_eq!(stage_file("luaconf.h", bytes.clone()), bytes);
    assert_eq!(stage_file("Makefile", Vec::new()), Vec::<u8>::new());
}

#[test]
fn four_headers_are_published() {
    assert_eq!(published_header_count(), 4);
    let names: Vec<&str> = (0..published_header_count()).map(published_header).collect();
    assert_eq!(names, vec!["lauxlib.h", "lua.h", "luaconf.h", "lualib.h"]);
}

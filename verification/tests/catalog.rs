use lua_src::{Lua51, Lua52, Lua53, Lua54};

#[test]
fn catalog_names_each_release() {
    assert_eq!(Lua51.source_dir(), "lua-5.1.5");
    assert_eq!(Lua52.source_dir(), "lua-5.2.4");
    assert_eq!(Lua53.source_dir(), "lua-5.3.6");
    assert_eq!(Lua54.source_dir(), "lua-5.4.8");
    assert_eq!(Lua51.lib_name(), "lua5.1");
    assert_eq!(Lua52.lib_name(), "lua5.2");
    assert_eq!(Lua53.lib_name(), "lua5.3");
    assert_eq!(Lua54.lib_name(), "lua5.4");
}

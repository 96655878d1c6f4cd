//! Staging a source tree so that it can be compiled as C++: the headers that
//! declare Lua's C interface are wrapped in a block with C linkage, every
//! other file is taken over as it is.

use crate::text::str_equal;
use vstd::prelude::*;
use vstd::utf8::{encode_utf8, is_ascii_chars, is_ascii_chars_encode_utf8};

verus! {

/// The bytes that open the linkage block: `extern "C" {` and a line feed.
pub open spec fn linkage_open() -> Seq<u8> {
    encode_utf8("extern \"C\" {\n"@)
}

/// The bytes that close the linkage block: a line feed and `}`.
pub open spec fn linkage_close() -> Seq<u8> {
    encode_utf8("\n}"@)
}

/// `name` is one of the headers that are wrapped.
pub open spec fn is_wrapped_header(name: Seq<char>) -> bool {
    name == "lauxlib.h"@ || name == "lua.h"@ || name == "lualib.h"@
}

/// What the staged tree holds for the file `name` with the bytes `content`.
pub open spec fn staged(name: Seq<char>, content: Seq<u8>) -> Seq<u8> {
    if is_wrapped_header(name) {
        linkage_open() + content + linkage_close()
    } else {
        content
    }
}

/// The headers that a build publishes, in the order in which they are copied.
pub open spec fn published_headers() -> Seq<Seq<char>> {
    seq!["lauxlib.h"@, "lua.h"@, "luaconf.h"@, "lualib.h"@]
}

/// Whether `name` is one of the headers that are wrapped.
pub fn needs_wrapping(name: &str) -> (b: bool)
    ensures
        b == is_wrapped_header(name@),
{
    str_equal(name, "lauxlib.h") || str_equal(name, "lua.h") || str_equal(name, "lualib.h")
}

/// What the staged tree holds for the file `name` with the bytes `content`.
pub fn stage_file(name: &str, content: Vec<u8>) -> (out: Vec<u8>)
    ensures
        out@ == staged(name@, content@),
{
    if needs_wrapping(name) {
        let mut content = content;
        let mut out = "extern \"C\" {\n".as_bytes_vec();
        out.append(&mut content);
        let mut close = "\n}".as_bytes_vec();
        out.append(&mut close);
        out
    } else {
        content
    }
}

/// How many headers a build publishes.
pub fn published_header_count() -> (n: usize)
    ensures
        n == published_headers().len(),
{
    4
}

/// The header that is published at position `index`.
pub fn published_header(index: usize) -> (name: &'static str)
    requires
        index < published_headers().len(),
    ensures
        name@ == published_headers()[index as int],
{
    if index == 0 {
        "lauxlib.h"
    } else if index == 1 {
        "lua.h"
    } else if index == 2 {
        "luaconf.h"
    } else {
        "lualib.h"
    }
}

/// The two markers, byte by byte.
pub proof fn lemma_linkage_markers()
    ensures
        linkage_open() == seq![
            0x65u8,
            0x78u8,
            0x74u8,
            0x65u8,
            0x72u8,
            0x6eu8,
            0x20u8,
            0x22u8,
            0x43u8,
            0x22u8,
            0x20u8,
            0x7bu8,
            0x0au8,
        ],
        linkage_close() == seq![0x0au8, 0x7du8],
{
    reveal_strlit("extern \"C\" {\n");
    reveal_strlit("\n}");
    let open = "extern \"C\" {\n"@;
    let close = "\n}"@;
    assert(is_ascii_chars(open));
    assert(is_ascii_chars(close));
    is_ascii_chars_encode_utf8(open);
    is_ascii_chars_encode_utf8(close);
    assert(linkage_open() =~= seq![
        0x65u8,
        0x78u8,
        0x74u8,
        0x65u8,
        0x72u8,
        0x6eu8,
        0x20u8,
        0x22u8,
        0x43u8,
        0x22u8,
        0x20u8,
        0x7bu8,
        0x0au8,
    ]);
    assert(linkage_close() =~= seq![0x0au8, 0x7du8]);
}

/// A file that is no wrapped header is staged byte for byte.
pub proof fn lemma_other_files_unchanged(name: Seq<char>, content: Seq<u8>)
    requires
        !is_wrapped_header(name),
    ensures
        staged(name, content) == content,
{
}

/// A wrapped header is staged with the opening marker before its bytes and
/// the closing marker behind them, and nothing else.
pub proof fn lemma_wrapped_header_framed(name: Seq<char>, content: Seq<u8>)
    requires
        is_wrapped_header(name),
    ensures
        ({
            let out = staged(name, content);
            let open = linkage_open().len() as int;
            let close = linkage_close().len() as int;
            &&& out.len() == open + content.len() + close
            &&& out.subrange(0, open) == linkage_open()
            &&& out.subrange(open, open + content.len()) == content
            &&& out.subrange(out.len() - close, out.len() as int) == linkage_close()
        }),
{
    let out = staged(name, content);
    let open = linkage_open().len() as int;
    let close = linkage_close().len() as int;
    assert(out.subrange(0, open) =~= linkage_open());
    assert(out.subrange(open, open + content.len()) =~= content);
    assert(out.subrange(out.len() - close, out.len() as int) =~= linkage_close());
}

} // verus!

//! What the compiler is asked to do for one build.

use crate::platform::Define;
use crate::text::{has_extension, join_path, joined, str_has_extension};
use vstd::prelude::*;

verus! {

/// A flag that a build passes to the compiler.
#[derive(Clone, Copy, Debug, PartialEq, Eq, Structural)]
pub enum CompilerFlag {
    /// `-fexceptions`: lets errors unwind through the compiled code.
    Exceptions,
    /// `-w`: suppresses every warning.
    NoWarnings,
    /// `-fno-common`: treats common globals as ordinary definitions. It is
    /// passed to those compilers only that accept it.
    NoCommon,
}

impl CompilerFlag {
    /// The flag as it stands on the command line.
    pub open spec fn spelling(self) -> Seq<char> {
        match self {
            CompilerFlag::Exceptions => "-fexceptions"@,
            CompilerFlag::NoWarnings => "-w"@,
            CompilerFlag::NoCommon => "-fno-common"@,
        }
    }

    /// The flag is passed only where the compiler accepts it.
    pub open spec fn is_optional(self) -> bool {
        self == CompilerFlag::NoCommon
    }

    /// The flag as it stands on the command line.
    pub fn text(&self) -> (text: &'static str)
        ensures
            text@ == self.spelling(),
    {
        match self {
            CompilerFlag::Exceptions => "-fexceptions",
            CompilerFlag::NoWarnings => "-w",
            CompilerFlag::NoCommon => "-fno-common",
        }
    }

    /// Whether the flag is passed only where the compiler accepts it.
    pub fn optional(&self) -> (b: bool)
        ensures
            b == self.is_optional(),
    {
        match self {
            CompilerFlag::NoCommon => true,
            _ => false,
        }
    }
}

/// One compilation: the settings, the sources, and where the library goes.
#[derive(Debug, PartialEq, Eq)]
pub struct CompileJob {
    /// The triple to compile for.
    pub target: String,
    /// The triple of the machine that compiles.
    pub host: String,
    /// The optimization level.
    pub opt_level: String,
    /// Whether debug information is asked for.
    pub debug: bool,
    /// Whether the sources are compiled as C++.
    pub cpp: bool,
    /// The macros to define, in order.
    pub defines: Vec<Define>,
    /// The flags to pass, in order.
    pub flags: Vec<CompilerFlag>,
    /// The directory in which headers are looked for.
    pub include_dir: String,
    /// The source files.
    pub files: Vec<String>,
    /// The directory that receives the library.
    pub out_dir: String,
    /// The name of the library.
    pub lib_name: String,
}

/// A [`CompileJob`] as a mathematical value.
pub struct CompileJobView {
    pub target: Seq<char>,
    pub host: Seq<char>,
    pub opt_level: Seq<char>,
    pub debug: bool,
    pub cpp: bool,
    pub defines: Seq<Define>,
    pub flags: Seq<CompilerFlag>,
    pub include_dir: Seq<char>,
    pub files: Seq<Seq<char>>,
    pub out_dir: Seq<char>,
    pub lib_name: Seq<char>,
}

impl View for CompileJob {
    type V = CompileJobView;

    open spec fn view(&self) -> CompileJobView {
        CompileJobView {
            target: self.target@,
            host: self.host@,
            opt_level: self.opt_level@,
            debug: self.debug,
            cpp: self.cpp,
            defines: self.defines@,
            flags: self.flags@,
            include_dir: self.include_dir@,
            files: self.files.deep_view(),
            out_dir: self.out_dir@,
            lib_name: self.lib_name@,
        }
    }
}

/// `name` is the name of a C source file.
pub open spec fn is_c_source(name: Seq<char>) -> bool {
    has_extension(name, "c"@)
}

/// The source files among the entries `names` of the directory `dir`: the
/// path of each entry with the extension `c`, in the order of the listing.
pub open spec fn sources_in(dir: Seq<char>, names: Seq<Seq<char>>) -> Seq<Seq<char>> {
    names.filter(|name: Seq<char>| is_c_source(name)).map_values(
        |name: Seq<char>| joined(dir, name),
    )
}

/// The source files among the entries `names` of the directory `dir`.
pub fn select_sources(dir: &str, names: &Vec<String>) -> (files: Vec<String>)
    ensures
        files.deep_view() == sources_in(dir@, names.deep_view()),
{
    let mut files: Vec<String> = Vec::new();
    let mut i: usize = 0;
    assert(names.deep_view().take(0).len() == 0);
    proof {
        reveal(Seq::filter);
    }
    assert(files.deep_view() =~= sources_in(dir@, names.deep_view().take(0)));
    while i < names.len()
        invariant
            i <= names.len(),
            files.deep_view() == sources_in(dir@, names.deep_view().take(i as int)),
        decreases names.len() - i,
    {
        let ghost before = names.deep_view().take(i as int);
        let ghost after = names.deep_view().take(i as int + 1);
        let ghost old_files = files.deep_view();
        let name = names[i].as_str();
        proof {
            reveal(Seq::filter);
            assert(after.drop_last() =~= before);
            assert(after.last() == name@);
        }
        if str_has_extension(name, "c") {
            let path = join_path(dir, name);
            files.push(path);
            assert(files.deep_view() =~= old_files.push(joined(dir@, name@)));
            assert(files.deep_view() =~= sources_in(dir@, after));
        } else {
            assert(files.deep_view() =~= sources_in(dir@, after));
        }
        i += 1;
    }
    assert(names.deep_view().take(i as int) =~= names.deep_view());
    files
}

} // verus!

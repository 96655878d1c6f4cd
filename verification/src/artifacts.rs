//! What a finished build hands to the project that links the library.

use crate::catalog::Version;
use vstd::prelude::*;

verus! {

/// The outcome of a build: where the library and the headers lie, and what
/// the library is called.
#[derive(Debug, PartialEq, Eq)]
pub struct Artifacts {
    version: Version,
    include_dir: String,
    lib_dir: String,
    libs: Vec<String>,
}

/// [`Artifacts`] as a mathematical value.
pub struct ArtifactsView {
    /// The release that was built.
    pub version: Version,
    /// The directory that holds the published headers.
    pub include_dir: Seq<char>,
    /// The directory that holds the library.
    pub lib_dir: Seq<char>,
}

/// The line that tells Cargo to link the static library `lib`.
pub open spec fn link_line(lib: Seq<char>) -> Seq<char> {
    "cargo:rustc-link-lib=static="@ + lib
}

/// The line that tells Cargo to search the directory `dir` for libraries.
pub open spec fn search_line(dir: Seq<char>) -> Seq<char> {
    "cargo:rustc-link-search=native="@ + dir
}

/// The line that declares the directory `dir` of the published headers to
/// the packages that depend on this one.
pub open spec fn include_line(dir: Seq<char>) -> Seq<char> {
    "cargo:include="@ + dir
}

/// The line that declares the directory `dir` of the library to the
/// packages that depend on this one.
pub open spec fn lib_line(dir: Seq<char>) -> Seq<char> {
    "cargo:lib="@ + dir
}

/// One line for each library of `libs`, in order.
pub open spec fn link_lines(libs: Seq<Seq<char>>) -> Seq<Seq<char>> {
    libs.map_values(|lib: Seq<char>| link_line(lib))
}

impl ArtifactsView {
    /// The names of the libraries built: the one that the catalog gives for
    /// the release.
    pub open spec fn libs(self) -> Seq<Seq<char>> {
        seq![self.version.library_name()]
    }

    /// The lines that tell Cargo how to link, and where the outcome lies:
    /// where to search, then one line for each library, then the directory
    /// of the published headers and the directory of the library.
    pub open spec fn cargo_metadata(self) -> Seq<Seq<char>> {
        seq![search_line(self.lib_dir)] + link_lines(self.libs()) + seq![
            include_line(self.include_dir),
            lib_line(self.lib_dir),
        ]
    }
}

impl View for Artifacts {
    type V = ArtifactsView;

    closed spec fn view(&self) -> ArtifactsView {
        ArtifactsView {
            version: self.version,
            include_dir: self.include_dir@,
            lib_dir: self.lib_dir@,
        }
    }
}

impl Clone for Artifacts {
    fn clone(&self) -> (copy: Artifacts)
        ensures
            copy@ == self@,
    {
        Artifacts::new(self.version, self.include_dir.clone(), self.lib_dir.clone())
    }
}

impl Artifacts {
    #[verifier::type_invariant]
    spec fn well_formed(self) -> bool {
        self.libs.deep_view() == seq![self.version.library_name()]
    }

    /// The artifacts of a build of `version` with the two directories given.
    pub(crate) fn new(version: Version, include_dir: String, lib_dir: String) -> (made: Artifacts)
        ensures
            made@ == (ArtifactsView { version, include_dir: include_dir@, lib_dir: lib_dir@ }),
    {
        let mut libs: Vec<String> = Vec::new();
        libs.push(version.lib_name().to_owned());
        assert(libs.deep_view() =~= seq![version.library_name()]);
        Artifacts { version, include_dir, lib_dir, libs }
    }

    /// The release that was built.
    pub fn version(&self) -> (version: Version)
        ensures
            version == self@.version,
    {
        self.version
    }

    /// The directory that holds the published headers.
    pub fn include_dir(&self) -> (dir: &str)
        ensures
            dir@ == self@.include_dir,
    {
        self.include_dir.as_str()
    }

    /// The directory that holds the library.
    pub fn lib_dir(&self) -> (dir: &str)
        ensures
            dir@ == self@.lib_dir,
    {
        self.lib_dir.as_str()
    }

    /// The names of the libraries built: always the one name that the
    /// catalog gives for the release.
    pub fn libs(&self) -> (names: &[String])
        ensures
            names.deep_view() == self@.libs(),
            names.deep_view() == seq![self@.version.library_name()],
    {
        proof {
            use_type_invariant(self);
        }
        self.libs.as_slice()
    }

    /// The lines that tell Cargo how to link against these artifacts, and
    /// where the headers and the library lie.
    pub fn cargo_metadata(&self) -> (lines: Vec<String>)
        ensures
            lines.deep_view() == self@.cargo_metadata(),
    {
        proof {
            use_type_invariant(self);
        }
        let mut lines: Vec<String> = Vec::new();
        let mut search = "cargo:rustc-link-search=native=".to_owned();
        search.append(self.lib_dir.as_str());
        lines.push(search);
        let ghost first = lines.deep_view();
        assert(first =~= seq![search_line(self@.lib_dir)]);
        let mut i: usize = 0;
        while i < self.libs.len()
            invariant
                i <= self.libs.len(),
                self.libs.deep_view() == self@.libs(),
                lines.deep_view() == first + link_lines(self@.libs().take(i as int)),
            decreases self.libs.len() - i,
        {
            let mut line = "cargo:rustc-link-lib=static=".to_owned();
            line.append(self.libs[i].as_str());
            lines.push(line);
            assert(lines.deep_view() =~= first + link_lines(self@.libs().take(i as int + 1)));
            i += 1;
        }
        assert(self@.libs().take(i as int) =~= self@.libs());
        let ghost linked = lines.deep_view();
        let mut headers = "cargo:include=".to_owned();
        headers.append(self.include_dir.as_str());
        lines.push(headers);
        let mut library = "cargo:lib=".to_owned();
        library.append(self.lib_dir.as_str());
        lines.push(library);
        assert(lines.deep_view() =~= linked + seq![
            include_line(self@.include_dir),
            lib_line(self@.lib_dir),
        ]);
        lines
    }
}

} // verus!

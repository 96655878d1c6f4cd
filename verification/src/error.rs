//! Why a build did not succeed.

use vstd::prelude::*;

verus! {

/// A setting without which no build can start.
#[derive(Clone, Copy, Debug, PartialEq, Eq, Structural)]
pub enum Setting {
    /// The target triple.
    Target,
    /// The output directory.
    OutDir,
}

/// What was being done to a path when the file system failed.
#[derive(Debug, PartialEq, Eq)]
pub enum FileOp {
    /// Creating a directory.
    Create,
    /// Removing a directory and what it holds.
    Remove,
    /// Reading a file, or listing or probing a directory.
    Read,
    /// Writing a file.
    Write,
    /// Copying a file to the path given.
    CopyTo(String),
}

/// A failed build. Every failure ends the build; none is retried.
#[derive(Debug, PartialEq, Eq)]
pub enum BuildError {
    /// A required setting was neither configured nor found in the environment.
    MissingConfig(Setting),
    /// No platform is known for the target triple, which is given.
    UnsupportedTarget(String),
    /// A file system operation on `path` failed, for the reason `cause`.
    Filesystem { op: FileOp, path: String, cause: String },
    /// The compiler did not produce the library; its diagnostic is passed through.
    CompileFailure(String),
}

/// A [`FileOp`] as a mathematical value.
pub enum FileOpView {
    Create,
    Remove,
    Read,
    Write,
    CopyTo(Seq<char>),
}

/// A [`BuildError`] as a mathematical value.
pub enum BuildErrorView {
    MissingConfig(Setting),
    UnsupportedTarget(Seq<char>),
    Filesystem { op: FileOpView, path: Seq<char>, cause: Seq<char> },
    CompileFailure(Seq<char>),
}

impl View for FileOp {
    type V = FileOpView;

    open spec fn view(&self) -> FileOpView {
        match self {
            FileOp::Create => FileOpView::Create,
            FileOp::Remove => FileOpView::Remove,
            FileOp::Read => FileOpView::Read,
            FileOp::Write => FileOpView::Write,
            FileOp::CopyTo(to) => FileOpView::CopyTo(to@),
        }
    }
}

impl View for BuildError {
    type V = BuildErrorView;

    open spec fn view(&self) -> BuildErrorView {
        match self {
            BuildError::MissingConfig(setting) => BuildErrorView::MissingConfig(*setting),
            BuildError::UnsupportedTarget(target) => BuildErrorView::UnsupportedTarget(target@),
            BuildError::Filesystem { op, path, cause } => BuildErrorView::Filesystem {
                op: op@,
                path: path@,
                cause: cause@,
            },
            BuildError::CompileFailure(diagnostic) => BuildErrorView::CompileFailure(diagnostic@),
        }
    }
}

impl FileOpView {
    /// How a message about this operation on `path` begins.
    pub open spec fn describe(self, path: Seq<char>) -> Seq<char> {
        match self {
            FileOpView::Create => "Cannot create '"@ + path + "'"@,
            FileOpView::Remove => "Cannot remove '"@ + path + "'"@,
            FileOpView::Read => "Cannot read '"@ + path + "'"@,
            FileOpView::Write => "Cannot write to '"@ + path + "'"@,
            FileOpView::CopyTo(to) => "Cannot copy '"@ + path + "' to '"@ + to + "'"@,
        }
    }
}

impl BuildErrorView {
    /// The message that reports this failure.
    pub open spec fn message(self) -> Seq<char> {
        match self {
            BuildErrorView::MissingConfig(Setting::Target) => "TARGET is not set"@,
            BuildErrorView::MissingConfig(Setting::OutDir) => "OUT_DIR is not set"@,
            BuildErrorView::UnsupportedTarget(target) => "don't know how to build Lua for "@
                + target,
            BuildErrorView::Filesystem { op, path, cause } => op.describe(path) + ": "@ + cause,
            BuildErrorView::CompileFailure(diagnostic) => diagnostic,
        }
    }
}

impl FileOp {
    /// How a message about this operation on `path` begins.
    pub fn describe(&self, path: &str) -> (text: String)
        ensures
            text@ == self@.describe(path@),
    {
        match self {
            FileOp::Create => {
                let mut text = "Cannot create '".to_owned();
                text.append(path);
                text.append("'");
                text
            },
            FileOp::Remove => {
                let mut text = "Cannot remove '".to_owned();
                text.append(path);
                text.append("'");
                text
            },
            FileOp::Read => {
                let mut text = "Cannot read '".to_owned();
                text.append(path);
                text.append("'");
                text
            },
            FileOp::Write => {
                let mut text = "Cannot write to '".to_owned();
                text.append(path);
                text.append("'");
                text
            },
            FileOp::CopyTo(to) => {
                let mut text = "Cannot copy '".to_owned();
                text.append(path);
                text.append("' to '");
                text.append(to.as_str());
                text.append("'");
                text
            },
        }
    }
}

impl BuildError {
    /// The message that reports this failure.
    pub fn message(&self) -> (text: String)
        ensures
            text@ == self@.message(),
    {
        match self {
            BuildError::MissingConfig(Setting::Target) => "TARGET is not set".to_owned(),
            BuildError::MissingConfig(Setting::OutDir) => "OUT_DIR is not set".to_owned(),
            BuildError::UnsupportedTarget(target) => {
                let mut text = "don't know how to build Lua for ".to_owned();
                text.append(target.as_str());
                text
            },
            BuildError::Filesystem { op, path, cause } => {
                let mut text = op.describe(path.as_str());
                text.append(": ");
                text.append(cause.as_str());
                text
            },
            BuildError::CompileFailure(diagnostic) => diagnostic.clone(),
        }
    }
}

} // verus!

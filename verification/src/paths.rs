use vstd::prelude::*;
use crate::text::{copy_text, same_text};

verus! {

/// What the file system holds at a path.
#[derive(Clone, Copy, Debug, PartialEq, Eq)]
pub enum PathKind {
    /// Nothing, or nothing that can be examined.
    Missing,
    /// A regular file.
    RegularFile,
    /// A directory.
    Directory,
    /// Something else: a device, a socket, a pipe.
    Special,
}

/// Why a path was not accepted.
#[derive(Clone, Copy, Debug, PartialEq, Eq)]
pub enum PathError {
    /// The file has to exist and the path leads to nothing.
    Missing,
    /// The file has to exist and the path leads to something that is no
    /// regular file.
    NotAFile,
    /// The path's extension is not `bmp`.
    NotBitmap,
}

/// A path that was accepted as a place to read an image from or to write
/// one to.
#[derive(Debug, PartialEq, Eq)]
pub struct OpenedFile {
    path: String,
}

impl View for OpenedFile {
    type V = Seq<char>;

    closed spec fn view(&self) -> Seq<char> {
        self.path@
    }
}

impl DeepView for OpenedFile {
    type V = Seq<char>;

    open spec fn deep_view(&self) -> Seq<char> {
        self@
    }
}

/// The extension of a path, as `std::path::Path::extension` reads it.
pub uninterp spec fn extension_of(path: Seq<char>) -> Option<Seq<char>>;

/// The stem of a path's file name, as `std::path::Path::file_stem` reads it.
pub uninterp spec fn stem_of(path: Seq<char>) -> Option<Seq<char>>;

/// The extension that a path must have.
pub open spec fn bitmap_extension() -> Seq<char> {
    seq!['b', 'm', 'p']
}

/// What is shown for a path that has no file name.
pub open spec fn nameless() -> Seq<char> {
    seq!['N', 'O', ' ', 'N', 'A', 'M', 'E']
}

/// The name under which a file is listed, given the stem of its file name:
/// the stem where there is one.
pub open spec fn listed_name(stem: Option<Seq<char>>) -> Seq<char> {
    match stem {
        Some(name) => name,
        None => nameless(),
    }
}

/// The name under which a file is listed, given the stem of its file name:
/// the stem, or `NO NAME` where there is none.
pub fn display_name(stem: Option<String>) -> (name: String)
    ensures
        name@ == listed_name(stem.deep_view()),
{
    match stem {
        Some(name) => name,
        None => {
            proof {
                reveal_strlit("NO NAME");
            }
            copy_text("NO NAME")
        },
    }
}

/// Reads the extension of a path.
///
/// Trusted: wraps `std::path::Path::extension`. The contract only gives its
/// result the name `extension_of`; the part of the file name behind its last
/// dot is text whenever the path is.
#[verifier::external_body]
fn path_extension(path: &str) -> (extension: Option<String>)
    ensures
        extension.deep_view() == extension_of(path@),
{
    match std::path::Path::new(path).extension() {
        Some(extension) => match extension.to_str() {
            Some(text) => Some(text.to_string()),
            None => None,
        },
        None => None,
    }
}

/// Reads the stem of a path's file name.
///
/// Trusted: wraps `std::path::Path::file_stem`. The contract only gives its
/// result the name `stem_of`; the part of the file name before its last dot
/// is text whenever the path is.
#[verifier::external_body]
fn path_file_stem(path: &str) -> (stem: Option<String>)
    ensures
        stem.deep_view() == stem_of(path@),
{
    match std::path::Path::new(path).file_stem() {
        Some(stem) => match stem.to_str() {
            Some(text) => Some(text.to_string()),
            None => None,
        },
        None => None,
    }
}

/// The judgement on a path, from what the file system holds there and from
/// the path's extension.
///
/// A file that must exist has to be a regular file; every path has to have
/// the extension `bmp`, in lower case.
pub open spec fn path_verdict(must_exist: bool, kind: PathKind, extension: Option<Seq<char>>) -> Result<(), PathError> {
    if must_exist && kind is Missing {
        Err(PathError::Missing)
    } else if must_exist && !(kind is RegularFile) {
        Err(PathError::NotAFile)
    } else if extension != Some(bitmap_extension()) {
        Err(PathError::NotBitmap)
    } else {
        Ok(())
    }
}

/// Judges a path from what the file system holds there and from the path's
/// extension.
pub fn check_path(must_exist: bool, kind: PathKind, extension: Option<&str>) -> (verdict: Result<(), PathError>)
    ensures
        verdict == path_verdict(must_exist, kind, extension.deep_view()),
{
    if must_exist {
        match kind {
            PathKind::Missing => {
                return Err(PathError::Missing);
            },
            PathKind::RegularFile => {},
            PathKind::Directory => {
                return Err(PathError::NotAFile);
            },
            PathKind::Special => {
                return Err(PathError::NotAFile);
            },
        }
    }
    match extension {
        None => Err(PathError::NotBitmap),
        Some(text) => {
            proof {
                reveal_strlit("bmp");
                assert("bmp"@ =~= bitmap_extension());
            }
            if same_text(text, "bmp") {
                Ok(())
            } else {
                Err(PathError::NotBitmap)
            }
        },
    }
}

/// Accepts or rejects the path that was entered at a file prompt.
///
/// `kind` is what the file system holds at `path`; it is looked at only
/// when the file must exist already. An accepted path is kept as it was
/// entered.
pub fn handle_file_opening(path: &str, must_exist: bool, kind: PathKind) -> (outcome: Result<OpenedFile, PathError>)
    ensures
        match outcome {
            Ok(file) => path_verdict(must_exist, kind, extension_of(path@)) is Ok && file@
                == path@,
            Err(error) => path_verdict(must_exist, kind, extension_of(path@)) == Err::<
                (),
                PathError,
            >(error),
        },
{
    let extension = path_extension(path);
    let verdict = match &extension {
        Some(text) => check_path(must_exist, kind, Some(text.as_str())),
        None => check_path(must_exist, kind, None),
    };
    match verdict {
        Ok(()) => Ok(OpenedFile { path: copy_text(path) }),
        Err(error) => Err(error),
    }
}

impl OpenedFile {
    /// The path, as it was entered.
    pub fn path(&self) -> (path: &str)
        ensures
            path@ == self@,
    {
        self.path.as_str()
    }

    /// The name under which the file is listed: the stem of its file name,
    /// or `NO NAME` where the path has no file name.
    pub fn file_stem(&self) -> (name: String)
        ensures
            name@ == listed_name(stem_of(self@)),
    {
        display_name(path_file_stem(self.path.as_str()))
    }
}

} // verus!

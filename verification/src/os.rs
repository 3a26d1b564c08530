//! Platform strings and paths, as `std::path` holds them.
//!
//! A [`PathBuf`] can hold any string of the platform, valid Unicode or not, so the
//! arguments of a command are kept as `PathBuf`s too. What is inside one is known to
//! the proofs only through the functions named here.
use std::path::PathBuf;
use std::sync::Arc;
use vstd::prelude::*;

verus! {

/// `std::path::PathBuf`, carried as an opaque value.
#[verifier::external_type_specification]
#[verifier::external_body]
pub struct ExPathBuf(PathBuf);

/// The text of a platform string, with U+FFFD in place of what is not Unicode.
pub uninterp spec fn os_text(path: PathBuf) -> Seq<char>;

/// The text that `Path::display` prints.
pub uninterp spec fn path_display(path: PathBuf) -> Seq<char>;

/// The extension of the file name of `path`, if it has one.
pub uninterp spec fn path_extension(path: PathBuf) -> Option<PathBuf>;

/// `path` with `extension` as the extension of its file name.
pub uninterp spec fn path_with_extension(path: PathBuf, extension: Seq<char>) -> PathBuf;

/// `name` adjoined to `dir`.
pub uninterp spec fn path_join(dir: PathBuf, name: Seq<char>) -> PathBuf;

/// The first component of `path`, if it has any.
pub uninterp spec fn path_first(path: PathBuf) -> Option<PathBuf>;

/// No character of `text` separates the components of a path on any platform.
pub open spec fn no_separator(text: Seq<char>) -> bool {
    !text.contains('/') && !text.contains('\\')
}

/// `PathBuf::clone` copies the path.
pub assume_specification[ <PathBuf as Clone>::clone ](path: &PathBuf) -> (copy: PathBuf)
    ensures
        copy == *path,
;

/// Calls `Path::to_string_lossy`. Its result is a function of the path alone.
#[verifier::external_body]
pub(crate) fn lossy_text(path: &PathBuf) -> (text: String)
    ensures
        text@ == os_text(*path),
{
    path.to_string_lossy().into_owned()
}

/// Calls `Path::display` and takes what it prints as a string. That is a function of the
/// path alone.
#[verifier::external_body]
pub(crate) fn display_text(path: &PathBuf) -> (text: String)
    ensures
        text@ == path_display(*path),
{
    path.display().to_string()
}

/// Calls `Path::extension` and takes the extension as a platform string of its own. Whether
/// there is one, and which it is, is a function of the path alone.
#[verifier::external_body]
pub(crate) fn extension(path: &PathBuf) -> (found: Option<PathBuf>)
    ensures
        found == path_extension(*path),
{
    path.extension().map(PathBuf::from)
}

/// Calls `Path::with_extension`. Its result is a function of its arguments alone. It panics
/// on an extension that holds a path separator, so those are left out.
#[verifier::external_body]
pub(crate) fn with_extension(path: &PathBuf, extension: &str) -> (changed: PathBuf)
    requires
        no_separator(extension@),
    ensures
        changed == path_with_extension(*path, extension@),
{
    path.with_extension(extension)
}

/// Calls `Path::join`. Its result is a function of its arguments alone.
#[verifier::external_body]
pub(crate) fn join(dir: &PathBuf, name: &str) -> (joined: PathBuf)
    ensures
        joined == path_join(*dir, name@),
{
    dir.join(name)
}

/// Calls `Path::iter`, which gives the components of the path as platform strings, and takes
/// the first as a path of its own. Whether there is one, and which it is, is a function of
/// the path alone.
#[verifier::external_body]
pub(crate) fn first_component(path: &PathBuf) -> (first: Option<PathBuf>)
    ensures
        first == path_first(*path),
{
    path.iter().next().map(PathBuf::from)
}

/// Calls `Arc::make_mut`. The reference that it gives leads to the value behind `shared`,
/// or, where that value has other owners, to a clone of it; what is written through the
/// reference is what `shared` holds afterwards.
#[verifier::external_body]
pub(crate) fn make_mut<T: Clone>(shared: &mut Arc<T>) -> (value: &mut T)
    ensures
        cloned(**old(shared), *value),
        **final(shared) == *final(value),
{
    Arc::make_mut(shared)
}

} // verus!

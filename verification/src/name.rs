//! The name under which a repository is kept in the table: the final
//! component of its path.
//!
//! Two paths with the same final component share one name, and so one row of
//! the table. The name is taken from the component by a lossy conversion to
//! text, which would put a placeholder where the component held something
//! that is no text; a path that is handed in as text holds nothing of the
//! kind.

use crate::error::{Error, Missing};
use vstd::prelude::*;

verus! {

/// The final component of `path` as `std::path::Path::file_name` reads it,
/// as text: `bin` for `/usr/bin/`, nothing for `/` and for a path that ends
/// in `..`. `Path` reads a path by the rules of the platform that the library
/// is built for; under those rules the same text always has the same final
/// component.
pub uninterp spec fn path_file_name(path: Seq<char>) -> Option<Seq<char>>;

/// The final component of `path`, by `std::path::Path::file_name`. The
/// component is a piece of `path`, cut where a separator stands, so turning it
/// back into text with `to_string_lossy` replaces nothing.
#[verifier::external_body]
fn file_name(path: &str) -> (component: Option<String>)
    ensures
        component.deep_view() == path_file_name(path@),
{
    match std::path::Path::new(path).file_name() {
        Some(component) => Some(component.to_string_lossy().into_owned()),
        None => None,
    }
}

/// The name of a repository, given whether its path leads to a directory and
/// what the final component of that path is. Only a directory is a
/// repository, and only a component that is not empty is a name.
pub open spec fn name_of(is_directory: bool, component: Option<Seq<char>>) -> Result<
    Seq<char>,
    Error,
> {
    if !is_directory {
        Err(Error::NotFound(Missing::NotADirectory))
    } else {
        match component {
            Some(name) if name.len() > 0 => Ok(name),
            _ => Err(Error::NotFound(Missing::NoName)),
        }
    }
}

/// What a resolved name holds, as text.
pub open spec fn name_text(name: Result<String, Error>) -> Result<Seq<char>, Error> {
    match name {
        Ok(text) => Ok(text@),
        Err(error) => Err(error),
    }
}

/// A path resolves to a name exactly where it leads to a directory and has a
/// final component that is not empty; the name is then that component. In
/// every other case it fails, and always with `NotFound`: for a file, for a
/// path that leads nowhere, for a path without a final component.
pub proof fn lemma_only_a_named_directory_resolves(is_directory: bool, component: Option<Seq<char>>)
    ensures
        name_of(is_directory, component) is Ok <==> is_directory && component is Some
            && component->0.len() > 0,
        name_of(is_directory, component) matches Ok(name) ==> component == Some(name),
        name_of(is_directory, component) matches Err(error) ==> error is NotFound,
        !is_directory ==> name_of(is_directory, component) == Err::<Seq<char>, Error>(
            Error::NotFound(Missing::NotADirectory),
        ),
{
}

/// Names a repository from the outcome of the directory probe and the final
/// component of its path.
pub fn name_from_component(is_directory: bool, component: Option<String>) -> (name: Result<
    String,
    Error,
>)
    ensures
        name_text(name) == name_of(is_directory, component.deep_view()),
{
    if !is_directory {
        return Err(Error::NotFound(Missing::NotADirectory));
    }
    match component {
        Some(text) => {
            if text.as_str().is_empty() {
                Err(Error::NotFound(Missing::NoName))
            } else {
                Ok(text)
            }
        },
        None => Err(Error::NotFound(Missing::NoName)),
    }
}

/// Resolves the name of the repository at `repository`. `is_directory` says
/// whether that path leads to a directory.
pub fn get_name(repository: &str, is_directory: bool) -> (name: Result<String, Error>)
    ensures
        name_text(name) == name_of(is_directory, path_file_name(repository@)),
{
    name_from_component(is_directory, file_name(repository))
}

} // verus!

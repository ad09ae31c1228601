//! Paths: the bytes that the system holds for one, and what the standard
//! library says of its last component and of its parent.

use vstd::prelude::*;

verus! {

/// The last component of a path as `std::path::Path::file_name` gives it on
/// the Unix systems this library is for; `None` where the path has none
/// (it is empty, is the root, or ends in `..`).
pub uninterp spec fn final_component(path: Seq<char>) -> Option<Seq<char>>;

/// The path without its last component as `std::path::Path::parent` gives it
/// on the Unix systems this library is for; `None` where the path is empty or
/// ends in the root.
pub uninterp spec fn parent_directory(path: Seq<char>) -> Option<Seq<char>>;

/// Calls `std::path::Path::file_name`. The contract only gives the result its
/// name, `final_component`; a component of a path that was a `str` is a `str`
/// again, so nothing is lost when it is handed back as one.
#[verifier::external_body]
fn file_name<'a>(path: &'a str) -> (name: Option<&'a str>)
    ensures
        match name {
            Some(n) => final_component(path@) == Some(n@),
            None => final_component(path@) is None,
        },
{
    match std::path::Path::new(path).file_name() {
        Some(name) => name.to_str(),
        None => None,
    }
}

/// Calls `std::path::Path::parent`. The contract only gives the result its
/// name, `parent_directory`; the parent of a path that was a `str` is a `str`
/// again.
#[verifier::external_body]
fn parent<'a>(path: &'a str) -> (dir: Option<&'a str>)
    ensures
        match dir {
            Some(d) => parent_directory(path@) == Some(d@),
            None => parent_directory(path@) is None,
        },
{
    match std::path::Path::new(path).parent() {
        Some(dir) => dir.to_str(),
        None => None,
    }
}

/// The name to show for a program: the last component of its path, or
/// `default` where the path has none.
pub open spec fn program_name(component: Option<Seq<char>>, default: Seq<char>) -> Seq<char> {
    match component {
        Some(name) => name,
        None => default,
    }
}

/// Picks the name to show for a program, given the last component of its path.
pub fn name_or_default<'a>(component: Option<&'a str>, default: &'a str) -> (name: &'a str)
    ensures
        name@ == program_name(
            match component {
                Some(n) => Some(n@),
                None => None,
            },
            default@,
        ),
{
    match component {
        Some(n) => n,
        None => default,
    }
}

/// The name of a command, taken from the path it was called by: the last
/// component of `path`, or `default` where `path` has none.
pub fn cmd<'a>(default: &'a String, path: &'a String) -> (name: &'a str)
    ensures
        name@ == program_name(final_component(path@), default@),
{
    name_or_default(file_name(path.as_str()), default.as_str())
}

/// Splits the command line of a program into the name to show for the
/// program, taken from the path it was called by, and its arguments proper.
/// A command line without even the program's path has neither.
pub fn command_line<'a>(strings: &'a Vec<String>) -> (split: Option<(&'a str, &'a [String])>)
    ensures
        match split {
            Some(parts) => {
                &&& strings@.len() > 0
                &&& parts.0@ == program_name(final_component(strings@[0]@), strings@[0]@)
                &&& parts.1@ == strings@.skip(1)
            },
            None => strings@.len() == 0,
        },
{
    if strings.len() == 0 {
        return None;
    }
    let name = cmd(&strings[0], &strings[0]);
    let rest = vstd::slice::slice_subrange(strings.as_slice(), 1, strings.len());
    Some((name, rest))
}

/// The directory that holds a path, if the path names one.
pub fn parent_of(path: &str) -> (dir: Option<String>)
    ensures
        match dir {
            Some(d) => parent_directory(path@) == Some(d@),
            None => parent_directory(path@) is None,
        },
{
    match parent(path) {
        Some(d) => Some(d.to_owned()),
        None => None,
    }
}

/// A path as the operating system holds it: bytes, in no particular encoding.
#[derive(Clone, Debug, PartialEq, Eq)]
pub struct RawPath {
    pub bytes: Vec<u8>,
}

impl View for RawPath {
    type V = Seq<u8>;

    open spec fn view(&self) -> Seq<u8> {
        self.bytes@
    }
}

impl RawPath {
    pub fn duplicate(&self) -> (copy: RawPath)
        ensures
            copy@ == self@,
    {
        RawPath { bytes: self.bytes.clone() }
    }
}

/// Takes the bytes of a path from the user database as they are: every byte
/// is one unit of the path, none is rejected.
pub fn latin1_to_path(s: &[u8]) -> (path: RawPath)
    ensures
        path@ == s@,
{
    RawPath { bytes: vstd::slice::slice_to_vec(s) }
}

} // verus!

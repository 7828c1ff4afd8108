//! Path arithmetic, done by `std::path` and trusted.
//!
//! Paths travel through this crate as UTF-8 text. What `std::path` makes of
//! such a text depends on the platform's separator rules, so each operation
//! gets a name for its result rather than a definition, and the contracts of
//! the crate speak of those names.

use crate::ffprobe::opt_text;
use vstd::prelude::*;

verus! {

/// What `Path::parent` returns for `path`.
pub uninterp spec fn path_parent(path: Seq<char>) -> Option<Seq<char>>;

/// What `Path::file_name` returns for `path`.
pub uninterp spec fn path_file_name(path: Seq<char>) -> Option<Seq<char>>;

/// What `Path::file_stem` returns for `path`.
pub uninterp spec fn path_file_stem(path: Seq<char>) -> Option<Seq<char>>;

/// What `Path::extension` returns for `path`.
pub uninterp spec fn path_extension(path: Seq<char>) -> Option<Seq<char>>;

/// What `Path::join` returns for `base` and `tail`.
pub uninterp spec fn path_join(base: Seq<char>, tail: Seq<char>) -> Seq<char>;

/// Whether `Path`'s own equality holds two paths for the same.
pub uninterp spec fn path_eq(a: Seq<char>, b: Seq<char>) -> bool;

/// Calls `std::path::Path::parent`: the path without its final component,
/// if there is one. Not proved: the contract only names the result.
#[verifier::external_body]
pub(crate) fn parent(path: &str) -> (r: Option<String>)
    ensures
        opt_text(r) == path_parent(path@),
{
    std::path::Path::new(path).parent().and_then(|dir| dir.to_str()).map(str::to_string)
}

/// Calls `std::path::Path::file_name`: the final component of the path, if
/// it is a normal one. Not proved: the contract only names the result.
#[verifier::external_body]
pub(crate) fn file_name(path: &str) -> (r: Option<String>)
    ensures
        opt_text(r) == path_file_name(path@),
{
    std::path::Path::new(path).file_name().and_then(|name| name.to_str()).map(str::to_string)
}

/// Calls `std::path::Path::file_stem`: the file name without its last
/// extension. Not proved: the contract only names the result.
#[verifier::external_body]
pub(crate) fn file_stem(path: &str) -> (r: Option<String>)
    ensures
        opt_text(r) == path_file_stem(path@),
{
    std::path::Path::new(path).file_stem().and_then(|name| name.to_str()).map(str::to_string)
}

/// Calls `std::path::Path::extension`: what follows the last dot of the file
/// name. Not proved: the contract only names the result.
#[verifier::external_body]
pub(crate) fn extension(path: &str) -> (r: Option<String>)
    ensures
        opt_text(r) == path_extension(path@),
{
    std::path::Path::new(path).extension().and_then(|name| name.to_str()).map(str::to_string)
}

/// Calls `std::path::Path::join`: `tail` adjoined to `base`. Not proved: the
/// contract only names the result.
#[verifier::external_body]
pub(crate) fn join(base: &str, tail: &str) -> (r: String)
    ensures
        r@ == path_join(base@, tail@),
{
    std::path::Path::new(base).join(tail).to_string_lossy().into_owned()
}

/// Compares two paths with `Path`'s `==`, which goes component by
/// component. Not proved: the contract only names the result.
#[verifier::external_body]
pub(crate) fn same_path(a: &str, b: &str) -> (r: bool)
    ensures
        r == path_eq(a@, b@),
{
    std::path::Path::new(a) == std::path::Path::new(b)
}

} // verus!

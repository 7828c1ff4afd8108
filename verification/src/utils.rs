//! Output file names, and the pattern matching behind them, which the
//! `regex` crate does and this crate trusts.

use crate::ffprobe::opt_text;
use crate::paths::{extension, path_extension};
use crate::text::{eq_ignore_ascii_case, same_text_ignore_case};
use vstd::prelude::*;
use vstd::string::*;

verus! {

/// What `Regex::replace_all` returns for the regex compiled from `pattern`,
/// the haystack `text` and the replacement `replacement`; `None` when the
/// pattern does not compile.
pub uninterp spec fn regex_replace_all(
    pattern: Seq<char>,
    text: Seq<char>,
    replacement: Seq<char>,
) -> Option<Seq<char>>;

/// What `Regex::is_match` returns for the regex compiled from `pattern` and
/// the haystack `text`; `None` when the pattern does not compile.
pub uninterp spec fn regex_is_match(pattern: Seq<char>, text: Seq<char>) -> Option<bool>;

/// What `Regex::captures` returns for the regex compiled from `pattern` and
/// the haystack `text`, as the text of each group in order, group 0 first;
/// `None` when the pattern does not compile, `Some(None)` when there is no
/// match, and `None` in place of a group that took no part in the match.
pub uninterp spec fn regex_captures(pattern: Seq<char>, text: Seq<char>) -> Option<
    Option<Seq<Option<Seq<char>>>>,
>;

/// The texts of `groups`, in order.
pub open spec fn group_views(groups: Seq<Option<String>>) -> Seq<Option<Seq<char>>> {
    Seq::new(groups.len(), |i: int| opt_text(groups[i]))
}

/// The view of what `captures` returns.
pub open spec fn captures_view(r: Option<Option<Vec<Option<String>>>>) -> Option<
    Option<Seq<Option<Seq<char>>>>,
> {
    match r {
        None => None,
        Some(None) => Some(None),
        Some(Some(groups)) => Some(Some(group_views(groups@))),
    }
}

/// Calls `regex::Regex::new` and then `Regex::replace_all`: every match of
/// the pattern in `text`, leftmost first and not overlapping, is replaced by
/// the expansion of `replacement`. Not proved: the contract only names the
/// result.
#[verifier::external_body]
pub(crate) fn replace_all(pattern: &str, text: &str, replacement: &str) -> (r: Option<String>)
    ensures
        opt_text(r) == regex_replace_all(pattern@, text@, replacement@),
{
    match regex::Regex::new(pattern) {
        Ok(re) => Some(re.replace_all(text, replacement).into_owned()),
        Err(_) => None,
    }
}

/// Calls `regex::Regex::new` and then `Regex::is_match`: whether the
/// pattern matches somewhere in `text`. Not proved: the contract only names
/// the result.
#[verifier::external_body]
pub(crate) fn is_match(pattern: &str, text: &str) -> (r: Option<bool>)
    ensures
        r == regex_is_match(pattern@, text@),
{
    match regex::Regex::new(pattern) {
        Ok(re) => Some(re.is_match(text)),
        Err(_) => None,
    }
}

/// Calls `regex::Regex::new` and then `Regex::captures`: the groups of the
/// leftmost match of the pattern in `text`. Not proved: the contract only
/// names the result.
#[verifier::external_body]
pub(crate) fn captures(pattern: &str, text: &str) -> (r: Option<Option<Vec<Option<String>>>>)
    ensures
        captures_view(r) == regex_captures(pattern@, text@),
{
    match regex::Regex::new(pattern) {
        Ok(re) => Some(
            re.captures(text).map(
                |found| found.iter().map(|group| group.map(|m| m.as_str().to_string())).collect(),
            ),
        ),
        Err(_) => None,
    }
}

/// The pattern of what separates the words of a name: a run of characters
/// that are neither ASCII letters nor ASCII digits.
pub open spec fn separators() -> Seq<char> {
    "[^A-Za-z0-9]+"@
}

/// What every output file name ends in.
pub open spec fn output_suffix() -> Seq<char> {
    ".h264.aac.stereo.remux.mp4"@
}

/// The output file name for `name`: the name with each run of separators
/// replaced by one dot, and the suffix. There is none if the separator
/// pattern does not compile.
pub open spec fn output_file_name(name: Seq<char>) -> Option<Seq<char>> {
    match regex_replace_all(separators(), name, "."@) {
        Some(dotted) => Some(dotted + output_suffix()),
        None => None,
    }
}

/// The output file name for `name`.
pub fn get_output_file_name(name: &String) -> (r: String)
    requires
        regex_replace_all(separators(), name@, "."@) is Some,
    ensures
        Some(r@) == output_file_name(name@),
{
    match replace_all("[^A-Za-z0-9]+", name.as_str(), ".") {
        Some(dotted) => {
            let mut r = dotted;
            r.append(".h264.aac.stereo.remux.mp4");
            r
        },
        None => String::new(),
    }
}

/// The output file name for `name`, if the separator pattern compiles.
pub fn checked_output_file_name(name: &String) -> (r: Option<String>)
    ensures
        opt_text(r) == output_file_name(name@),
{
    match replace_all("[^A-Za-z0-9]+", name.as_str(), ".") {
        Some(_) => Some(get_output_file_name(name)),
        None => None,
    }
}

/// Whether the file at `path` counts as a movie: its extension is `mp4`,
/// in any case.
pub open spec fn is_movie_path(path: Seq<char>) -> bool {
    match path_extension(path) {
        Some(ext) => eq_ignore_ascii_case(ext, "mp4"@),
        None => false,
    }
}

/// Tests `is_movie_path`.
pub fn is_movie_file(path: &str) -> (r: bool)
    ensures
        r == is_movie_path(path@),
{
    match extension(path) {
        Some(ext) => same_text_ignore_case(ext.as_str(), "mp4"),
        None => false,
    }
}

} // verus!

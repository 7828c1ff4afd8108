//! Where the output of a file found on disk goes: beside the input, under a
//! name made from the name of the show or movie folder.

use crate::ffprobe::opt_text;
use crate::paths::{file_name, join, parent, path_file_name, path_join, path_parent};
use crate::utils::{
    captures, checked_output_file_name, is_match, output_file_name, regex_captures, regex_is_match,
};
use vstd::prelude::*;
use vstd::string::*;

verus! {

/// Why no output path could be made.
#[derive(Clone, Copy, Debug, PartialEq, Eq, Structural)]
pub enum NamingError {
    /// The input path has no file name.
    InputName,
    /// The folder of the input has no name.
    FolderName,
    /// The folder is a season folder and has no parent.
    SeasonParent,
    /// The folder is a season folder and its parent has no name.
    SeasonParentName,
    /// The name of the root folder is not one that a name can be made from.
    RootName,
    /// A pattern did not compile.
    Pattern,
}

/// The pattern of a season folder's name.
pub open spec fn season_pattern() -> Seq<char> {
    "^Season \\d+$"@
}

/// The pattern of a root folder's name: its group 1 is the title, its group
/// 2 the year in brackets at the end, if there is one.
pub open spec fn root_pattern() -> Seq<char> {
    "^(.+?)(?: \\((\\d{4})\\))?$"@
}

/// The pattern of an episode tag in a file name.
pub open spec fn episode_pattern() -> Seq<char> {
    "S\\d+E\\d+"@
}

/// `base`, followed by the episode tag and by the year, each after a space
/// and each only if there is one.
pub open spec fn composed_name(
    base: Seq<char>,
    episode: Option<Seq<char>>,
    year: Option<Seq<char>>,
) -> Seq<char> {
    let tagged = match episode {
        Some(tag) => base + " "@ + tag,
        None => base,
    };
    match year {
        Some(y) => tagged + " "@ + y,
        None => tagged,
    }
}

/// Computes `composed_name`.
pub fn compose_name(base: &str, episode: &Option<String>, year: &Option<String>) -> (r: String)
    ensures
        r@ == composed_name(base@, opt_text(*episode), opt_text(*year)),
{
    let mut r = String::from_str(base);
    match episode {
        Some(tag) => {
            r.append(" ");
            r.append(tag.as_str());
        },
        None => {},
    }
    match year {
        Some(y) => {
            r.append(" ");
            r.append(y.as_str());
        },
        None => {},
    }
    r
}

/// The group `i` of a match, if the match has such a group and it took part.
pub open spec fn group(groups: Seq<Option<Seq<char>>>, i: int) -> Option<Seq<char>> {
    if 0 <= i < groups.len() {
        groups[i]
    } else {
        None
    }
}

/// The root folder for an input in `folder`: the parent of a season folder,
/// the folder itself otherwise.
pub open spec fn root_folder(folder: Seq<char>, season: bool) -> Option<Seq<char>> {
    if season {
        path_parent(folder)
    } else {
        Some(folder)
    }
}

/// The name that the output is made from, given the matches of the root
/// folder's name and of the input's file name.
pub open spec fn name_from_matches(
    root: Seq<Option<Seq<char>>>,
    episode: Option<Seq<Option<Seq<char>>>>,
) -> Result<Seq<char>, NamingError> {
    match group(root, 1) {
        None => Err(NamingError::RootName),
        Some(base) => Ok(
            composed_name(
                base,
                match episode {
                    Some(found) => group(found, 0),
                    None => None,
                },
                group(root, 2),
            ),
        ),
    }
}

/// The output path for the input at `input`, which lies in the folder
/// `folder`. The output goes into that folder. Its name is made from the
/// name of the root folder, which is the folder's parent if the folder is
/// named like a season and the folder itself if not: the title, then the
/// episode tag of the input's file name if it has one, then the year of the
/// root folder's name if it has one.
pub open spec fn output_path_for(input: Seq<char>, folder: Seq<char>) -> Result<
    Seq<char>,
    NamingError,
> {
    if path_file_name(input) is None {
        Err(NamingError::InputName)
    } else if path_file_name(folder) is None {
        Err(NamingError::FolderName)
    } else if regex_is_match(season_pattern(), path_file_name(folder)->0) is None {
        Err(NamingError::Pattern)
    } else {
        let season = regex_is_match(season_pattern(), path_file_name(folder)->0)->0;
        if root_folder(folder, season) is None {
            Err(NamingError::SeasonParent)
        } else if path_file_name(root_folder(folder, season)->0) is None {
            Err(NamingError::SeasonParentName)
        } else {
            let root_name = path_file_name(root_folder(folder, season)->0)->0;
            let input_name = path_file_name(input)->0;
            match (
                regex_captures(root_pattern(), root_name),
                regex_captures(episode_pattern(), input_name),
            ) {
                (Some(Some(root)), Some(episode)) => match name_from_matches(root, episode) {
                    Err(why) => Err(why),
                    Ok(name) => match output_file_name(name) {
                        Some(file) => Ok(path_join(folder, file)),
                        None => Err(NamingError::Pattern),
                    },
                },
                (Some(None), Some(_)) => Err(NamingError::RootName),
                _ => Err(NamingError::Pattern),
            }
        }
    }
}

/// The text of an `Ok`, the error of an `Err`.
pub open spec fn text_result(r: Result<String, NamingError>) -> Result<Seq<char>, NamingError> {
    match r {
        Ok(s) => Ok(s@),
        Err(e) => Err(e),
    }
}

fn take_group(groups: &Vec<Option<String>>, i: usize) -> (r: Option<String>)
    ensures
        opt_text(r) == group(crate::utils::group_views(groups@), i as int),
{
    if i < groups.len() {
        crate::ffprobe::clone_opt_text(&groups[i])
    } else {
        None
    }
}

/// Computes `output_path_for`. `folder_path` is the folder of the input,
/// resolved by the caller.
pub fn get_output_path(input_path: &str, folder_path: &str) -> (r: Result<String, NamingError>)
    ensures
        text_result(r) == output_path_for(input_path@, folder_path@),
{
    let input_name = match file_name(input_path) {
        Some(name) => name,
        None => {
            return Err(NamingError::InputName);
        },
    };
    let folder_name = match file_name(folder_path) {
        Some(name) => name,
        None => {
            return Err(NamingError::FolderName);
        },
    };
    let season = match is_match("^Season \\d+$", folder_name.as_str()) {
        Some(b) => b,
        None => {
            return Err(NamingError::Pattern);
        },
    };
    let root = if season {
        match parent(folder_path) {
            Some(dir) => dir,
            None => {
                return Err(NamingError::SeasonParent);
            },
        }
    } else {
        String::from_str(folder_path)
    };
    let root_name = match file_name(root.as_str()) {
        Some(name) => name,
        None => {
            return Err(NamingError::SeasonParentName);
        },
    };
    let root_match = captures("^(.+?)(?: \\((\\d{4})\\))?$", root_name.as_str());
    let episode_match = captures("S\\d+E\\d+", input_name.as_str());
    let (root_groups, episode_groups) = match (root_match, episode_match) {
        (Some(Some(root_groups)), Some(episode_groups)) => (root_groups, episode_groups),
        (Some(None), Some(_)) => {
            return Err(NamingError::RootName);
        },
        _ => {
            return Err(NamingError::Pattern);
        },
    };
    let base = match take_group(&root_groups, 1) {
        Some(base) => base,
        None => {
            return Err(NamingError::RootName);
        },
    };
    let episode = match &episode_groups {
        Some(found) => take_group(found, 0),
        None => None,
    };
    let year = take_group(&root_groups, 2);
    let name = compose_name(base.as_str(), &episode, &year);
    match checked_output_file_name(&name) {
        Some(file) => Ok(join(folder_path, file.as_str())),
        None => Err(NamingError::Pattern),
    }
}

} // verus!

//! Download notifications from the library managers, and the job that each
//! calls for.

use crate::paths::{join, parent, path_join, path_parent};
use crate::text::{chars_of, decimal, decimal_string, same_text};
use crate::utils::{checked_output_file_name, output_file_name};
use vstd::prelude::*;
use vstd::string::*;

verus! {

/// A movie, as the movie manager describes it.
#[derive(Debug, PartialEq, Eq)]
pub struct RadarrMovie {
    pub title: String,
    pub year: u32,
    pub folder_path: String,
}

/// The file of a movie.
#[derive(Debug, PartialEq, Eq)]
pub struct RadarrMovieFile {
    pub relative_path: String,
}

/// A notification from the movie manager.
#[derive(Debug, PartialEq, Eq)]
pub struct RadarrWebhook {
    pub event_type: String,
    pub movie: RadarrMovie,
    pub movie_file: Option<RadarrMovieFile>,
}

/// A series, as the series manager describes it.
#[derive(Debug, PartialEq, Eq)]
pub struct SonarrSeries {
    pub title: String,
    pub year: u32,
    pub path: String,
}

/// An episode of a series.
#[derive(Debug, PartialEq, Eq)]
pub struct SonarrEpisode {
    pub season_number: u32,
    pub episode_number: u32,
    pub title: String,
}

/// The file of an episode.
#[derive(Debug, PartialEq, Eq)]
pub struct SonarrEpisodeFile {
    pub relative_path: String,
    /// The path of the file from the root of the library.
    pub path: String,
}

/// A notification from the series manager.
#[derive(Debug, PartialEq, Eq)]
pub struct SonarrWebhook {
    pub event_type: String,
    pub series: SonarrSeries,
    pub episodes: Vec<SonarrEpisode>,
    pub episode_file: Option<SonarrEpisodeFile>,
}

/// The two paths of a job.
#[derive(Debug, PartialEq, Eq)]
pub struct TaskPaths {
    pub input_path: String,
    pub output_path: String,
}

/// What a `TaskPaths` stands for.
pub struct TaskPathsView {
    pub input_path: Seq<char>,
    pub output_path: Seq<char>,
}

impl View for TaskPaths {
    type V = TaskPathsView;

    open spec fn view(&self) -> TaskPathsView {
        TaskPathsView { input_path: self.input_path@, output_path: self.output_path@ }
    }
}

/// The view of an optional `TaskPaths`.
pub open spec fn opt_paths(o: Option<TaskPaths>) -> Option<TaskPathsView> {
    match o {
        Some(p) => Some(p@),
        None => None,
    }
}

/// The event type of a finished download, the only one that calls for a job.
pub open spec fn download_event() -> Seq<char> {
    "Download"@
}

/// `path` without one leading slash, so that it is taken relative to the
/// root of the library.
pub open spec fn relative(path: Seq<char>) -> Seq<char> {
    if path.len() > 0 && path[0] == '/' {
        path.drop_first()
    } else {
        path
    }
}

/// Computes `relative`.
pub fn strip_root(path: &str) -> (r: String)
    ensures
        r@ == relative(path@),
{
    let chars = chars_of(path);
    if chars.len() > 0 && chars[0] == '/' {
        let rest = path.substring_char(1, chars.len());
        assert(rest@ =~= path@.drop_first());
        String::from_str(rest)
    } else {
        String::from_str(path)
    }
}

/// `n` in at least two decimal digits.
pub open spec fn two_digits(n: nat) -> Seq<char> {
    if n < 10 {
        "0"@ + decimal(n)
    } else {
        decimal(n)
    }
}

/// Computes `two_digits`.
pub fn two_digit_string(n: u32) -> (r: String)
    ensures
        r@ == two_digits(n as nat),
{
    if n < 10 {
        let mut r = String::from_str("0");
        r.append(decimal_string(n as u64).as_str());
        r
    } else {
        decimal_string(n as u64)
    }
}

/// The name that a movie's output is made from: title and year.
pub open spec fn movie_name(title: Seq<char>, year: u32) -> Seq<char> {
    title + " "@ + decimal(year as nat)
}

/// The name that an episode's output is made from: the title of the series
/// and the episode tag.
pub open spec fn episode_name(title: Seq<char>, season: u32, episode: u32) -> Seq<char> {
    title + " S"@ + two_digits(season as nat) + "E"@ + two_digits(episode as nat)
}

/// The job for a movie in the folder `folder_path`, whose file is at
/// `relative_path` in it, under the library root `root`.
pub open spec fn movie_paths(
    root: Seq<char>,
    folder_path: Seq<char>,
    relative_path: Seq<char>,
    title: Seq<char>,
    year: u32,
) -> Option<TaskPathsView> {
    let folder = path_join(root, relative(folder_path));
    match output_file_name(movie_name(title, year)) {
        Some(file) => Some(
            TaskPathsView {
                input_path: path_join(folder, relative_path),
                output_path: path_join(folder, file),
            },
        ),
        None => None,
    }
}

/// The job for an episode whose file is at `path` in the library under the
/// root `root`. The output goes beside the input.
pub open spec fn episode_paths(
    root: Seq<char>,
    path: Seq<char>,
    title: Seq<char>,
    season: u32,
    episode: u32,
) -> Option<TaskPathsView> {
    let input = path_join(root, relative(path));
    match (path_parent(input), output_file_name(episode_name(title, season, episode))) {
        (Some(folder), Some(file)) => Some(
            TaskPathsView { input_path: input, output_path: path_join(folder, file) },
        ),
        _ => None,
    }
}

impl RadarrWebhook {
    /// The job that this notification calls for: none unless it reports a
    /// finished download and names the file.
    pub open spec fn task(&self, root: Seq<char>) -> Option<TaskPathsView> {
        if self.event_type@ != download_event() {
            None
        } else {
            match self.movie_file {
                Some(file) => movie_paths(
                    root,
                    self.movie.folder_path@,
                    file.relative_path@,
                    self.movie.title@,
                    self.movie.year,
                ),
                None => None,
            }
        }
    }

    /// Computes `task`.
    pub fn plan(&self, root_folder_path: &str) -> (r: Option<TaskPaths>)
        ensures
            opt_paths(r) == self.task(root_folder_path@),
    {
        if !same_text(self.event_type.as_str(), "Download") {
            return None;
        }
        let movie_file = match &self.movie_file {
            Some(file) => file,
            None => {
                return None;
            },
        };
        let folder = join(root_folder_path, strip_root(self.movie.folder_path.as_str()).as_str());
        let mut name = self.movie.title.clone();
        name.append(" ");
        name.append(decimal_string(self.movie.year as u64).as_str());
        assert(name@ =~= movie_name(self.movie.title@, self.movie.year));
        match checked_output_file_name(&name) {
            Some(file) => Some(
                TaskPaths {
                    input_path: join(folder.as_str(), movie_file.relative_path.as_str()),
                    output_path: join(folder.as_str(), file.as_str()),
                },
            ),
            None => None,
        }
    }
}

impl SonarrWebhook {
    /// The job that this notification calls for: none unless it reports a
    /// finished download, names the file and lists an episode, the first of
    /// which gives the output its tag.
    pub open spec fn task(&self, root: Seq<char>) -> Option<TaskPathsView> {
        if self.event_type@ != download_event() {
            None
        } else if self.episodes.len() == 0 {
            None
        } else {
            match self.episode_file {
                Some(file) => episode_paths(
                    root,
                    file.path@,
                    self.series.title@,
                    self.episodes[0].season_number,
                    self.episodes[0].episode_number,
                ),
                None => None,
            }
        }
    }

    /// Computes `task`.
    pub fn plan(&self, root_folder_path: &str) -> (r: Option<TaskPaths>)
        ensures
            opt_paths(r) == self.task(root_folder_path@),
    {
        if !same_text(self.event_type.as_str(), "Download") {
            return None;
        }
        let episode_file = match &self.episode_file {
            Some(file) => file,
            None => {
                return None;
            },
        };
        if self.episodes.len() == 0 {
            return None;
        }
        let episode = &self.episodes[0];
        let input = join(root_folder_path, strip_root(episode_file.path.as_str()).as_str());
        let mut name = self.series.title.clone();
        name.append(" S");
        name.append(two_digit_string(episode.season_number).as_str());
        name.append("E");
        name.append(two_digit_string(episode.episode_number).as_str());
        assert(name@ =~= episode_name(
            self.series.title@,
            episode.season_number,
            episode.episode_number,
        ));
        let folder = match parent(input.as_str()) {
            Some(dir) => dir,
            None => {
                return None;
            },
        };
        match checked_output_file_name(&name) {
            Some(file) => Some(
                TaskPaths { input_path: input, output_path: join(folder.as_str(), file.as_str()) },
            ),
            None => None,
        }
    }
}

} // verus!

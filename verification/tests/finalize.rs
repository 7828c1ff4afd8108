use remuxer::ffmpeg::FFMpeg;
use remuxer::finalize::{
    plan_placement, plan_sidecar_layout, plan_sidecar_name, plan_sidecars, FileOp, SidecarLayout,
};

fn rename(from: &str, to: &str) -> FileOp {
    FileOp::Rename { from: from.to_string(), to: to.to_string() }
}

fn copy(from: &str, to: &str) -> FileOp {
    FileOp::Copy { from: from.to_string(), to: to.to_string() }
}

fn remove(path: &str) -> FileOp {
    FileOp::Remove { path: path.to_string() }
}

fn entries(v: &[&str]) -> Vec<String> {
    v.iter().map(|s| s.to_string()).collect()
}

#[test]
fn placement_removes_the_input_unless_kept() {
    assert_eq!(
        plan_placement("/o/m.mp4.part", "/o/m.mp4", "/i/m.mkv", false),
        vec![rename("/o/m.mp4.part", "/o/m.mp4"), remove("/i/m.mkv")]
    );
    assert_eq!(
        plan_placement("/o/m.mp4.part", "/o/m.mp4", "/i/m.mkv", true),
        vec![rename("/o/m.mp4.part", "/o/m.mp4")]
    );
}

#[test]
fn placement_never_removes_the_output_itself() {
    assert_eq!(
        plan_placement("/o/m.mp4.part", "/o/m.mp4", "/o/m.mp4", false),
        vec![rename("/o/m.mp4.part", "/o/m.mp4")]
    );
    // the same file under another spelling of its path
    assert_eq!(
        plan_placement("/o/m.mp4.part", "/o/m.mp4", "/o//m.mp4", false),
        vec![rename("/o/m.mp4.part", "/o/m.mp4")]
    );
    assert_eq!(
        plan_placement("/o/m.mp4.part", "/o/m.mp4", "/o/./m.mp4", false),
        vec![rename("/o/m.mp4.part", "/o/m.mp4")]
    );
}

#[test]
fn layout_of_two_paths() {
    assert_eq!(
        plan_sidecar_layout("/in/Movie.mkv", "/out/Film.2020.mp4"),
        Some(SidecarLayout {
            input_dir: "/in".to_string(),
            input_stem: "Movie".to_string(),
            output_dir: "/out".to_string(),
            output_stem: "Film.2020".to_string(),
        })
    );
    assert_eq!(
        plan_sidecar_layout("Movie.mkv", "Film.mp4"),
        Some(SidecarLayout {
            input_dir: "".to_string(),
            input_stem: "Movie".to_string(),
            output_dir: "".to_string(),
            output_stem: "Film".to_string(),
        })
    );
}

#[test]
fn no_layout_without_parent_or_stem() {
    assert_eq!(plan_sidecar_layout("/", "/out/Film.mp4"), None);
    assert_eq!(plan_sidecar_layout("/in/Movie.mkv", "/"), None);
    assert_eq!(plan_sidecar_layout("", "Film.mp4"), None);
    assert_eq!(plan_sidecar_layout("/in/..", "/out/Film.mp4"), None);
}

#[test]
fn sidecar_names() {
    assert_eq!(plan_sidecar_name("Movie.en.srt", "Movie", "Film"), Some("Film.en.srt".to_string()));
    assert_eq!(plan_sidecar_name("Movie", "Movie", "Film"), Some("Film".to_string()));
    assert_eq!(plan_sidecar_name("Movie2.srt", "Movie", "Film"), Some("Film2.srt".to_string()));
    assert_eq!(plan_sidecar_name("x", "", "Film"), Some("Filmx".to_string()));
    assert_eq!(plan_sidecar_name("Other.srt", "Movie", "Film"), None);
    assert_eq!(plan_sidecar_name("movie.srt", "Movie", "Film"), None);
    assert_eq!(plan_sidecar_name("Movi", "Movie", "Film"), None);
    assert_eq!(plan_sidecar_name("Ünï.de.srt", "Ünï", "Ö"), Some("Ö.de.srt".to_string()));
}

#[test]
fn sidecars_are_moved_when_the_input_goes() {
    let list = entries(&[
        "/in/Movie.mkv",
        "/in/Movie.en.srt",
        "/in/Other.srt",
        "/out/Film.mp4",
        "/in/Movie.nfo",
    ]);
    assert_eq!(
        FFMpeg::move_srt_files("/in/Movie.mkv", "/out/Film.mp4", false, &list),
        vec![
            rename("/in/Movie.en.srt", "/out/Film.en.srt"),
            rename("/in/Movie.nfo", "/out/Film.nfo"),
        ]
    );
}

#[test]
fn sidecars_are_copied_when_the_input_stays() {
    let list = entries(&["/in/Movie.en.srt", "/in/Movie.mkv"]);
    assert_eq!(
        FFMpeg::move_srt_files("/in/Movie.mkv", "/out/Film.mp4", true, &list),
        vec![copy("/in/Movie.en.srt", "/out/Film.en.srt")]
    );
}

#[test]
fn input_and_output_are_no_sidecars() {
    // the output begins with the input's stem and lies beside it
    let list = entries(&["/m/Movie.mkv", "/m/Movie.h264.mp4", "/m//Movie.mkv", "/m/Movie.srt"]);
    assert_eq!(
        FFMpeg::move_srt_files("/m/Movie.mkv", "/m/Movie.h264.mp4", false, &list),
        vec![rename("/m/Movie.srt", "/m/Movie.h264.srt")]
    );
}

#[test]
fn nothing_to_relocate_without_a_layout() {
    let list = entries(&["/in/Movie.srt"]);
    assert_eq!(FFMpeg::move_srt_files("/", "/out/Film.mp4", false, &list), vec![]);
    assert_eq!(FFMpeg::move_srt_files("/in/Movie.mkv", "/out/Film.mp4", false, &vec![]), vec![]);
}

#[test]
fn sidecars_from_a_layout() {
    let layout = plan_sidecar_layout("in/a.mkv", "out/b.mp4").unwrap();
    let list = entries(&["in/a.srt", "in/ab.srt", "in/b.srt", "in/.."]);
    assert_eq!(
        plan_sidecars(&layout, "in/a.mkv", "out/b.mp4", true, &list),
        vec![copy("in/a.srt", "out/b.srt"), copy("in/ab.srt", "out/bb.srt")]
    );
}

#[test]
fn kept_input_is_never_taken_away() {
    let list = entries(&["/in/Movie.mkv", "/in/Movie.en.srt", "/in/Movie.mkv.bak"]);
    let mut ops = plan_placement("/out/Film.mp4.part", "/out/Film.mp4", "/in/Movie.mkv", true);
    ops.extend(FFMpeg::move_srt_files("/in/Movie.mkv", "/out/Film.mp4", true, &list));
    assert_eq!(ops.len(), 3);
    for op in ops {
        match op {
            FileOp::Rename { from, .. } => assert_ne!(from, "/in/Movie.mkv"),
            FileOp::Remove { path } => assert_ne!(path, "/in/Movie.mkv"),
            FileOp::Copy { .. } => {}
        }
    }
}

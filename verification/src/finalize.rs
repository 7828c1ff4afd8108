//! Placing the output of a finished encode: the file operations to carry
//! out, as data. Nothing here touches the file system.

use crate::ffprobe::opt_text;
use crate::paths::{
    file_name, file_stem, join, parent, path_eq, path_file_name, path_file_stem, path_join,
    path_parent, same_path,
};
use crate::text::{chars_of, has_prefix};
use vstd::prelude::*;
use vstd::string::*;

verus! {

/// One file operation.
#[derive(Debug, PartialEq, Eq)]
pub enum FileOp {
    /// Move `from` to `to`, replacing what is there.
    Rename { from: String, to: String },
    /// Delete the file at `path`.
    Remove { path: String },
    /// Copy `from` to `to`, replacing what is there.
    Copy { from: String, to: String },
}

/// What a `FileOp` stands for.
pub enum FileOpView {
    Rename { from: Seq<char>, to: Seq<char> },
    Remove { path: Seq<char> },
    Copy { from: Seq<char>, to: Seq<char> },
}

impl View for FileOp {
    type V = FileOpView;

    open spec fn view(&self) -> FileOpView {
        match self {
            FileOp::Rename { from, to } => FileOpView::Rename { from: from@, to: to@ },
            FileOp::Remove { path } => FileOpView::Remove { path: path@ },
            FileOp::Copy { from, to } => FileOpView::Copy { from: from@, to: to@ },
        }
    }
}

impl FileOpView {
    /// Whether carrying the operation out takes the file at `path` away:
    /// it deletes it or moves it elsewhere.
    pub open spec fn takes_away(self, path: Seq<char>) -> bool {
        match self {
            FileOpView::Rename { from, to } => from == path,
            FileOpView::Remove { path: p } => p == path,
            FileOpView::Copy { from, to } => false,
        }
    }
}

/// The views of `ops`, in order.
pub open spec fn file_op_views(ops: Seq<FileOp>) -> Seq<FileOpView> {
    Seq::new(ops.len(), |i: int| ops[i]@)
}

/// The operations that put a finished output in place: the temporary file
/// is renamed to the output path, and then the input is deleted unless it is
/// to be kept or is the output itself.
pub open spec fn placement_ops(
    tmp: Seq<char>,
    output: Seq<char>,
    input: Seq<char>,
    keep_input: bool,
) -> Seq<FileOpView> {
    if !keep_input && !path_eq(input, output) {
        seq![FileOpView::Rename { from: tmp, to: output }, FileOpView::Remove { path: input }]
    } else {
        seq![FileOpView::Rename { from: tmp, to: output }]
    }
}

/// Computes `placement_ops`.
pub fn plan_placement(tmp: &str, output: &str, input: &str, keep_input: bool) -> (ops: Vec<FileOp>)
    ensures
        file_op_views(ops@) == placement_ops(tmp@, output@, input@, keep_input),
{
    let mut ops: Vec<FileOp> = Vec::new();
    ops.push(FileOp::Rename { from: String::from_str(tmp), to: String::from_str(output) });
    if !keep_input && !same_path(input, output) {
        ops.push(FileOp::Remove { path: String::from_str(input) });
    }
    assert(file_op_views(ops@) =~= placement_ops(tmp@, output@, input@, keep_input));
    ops
}

/// Where the sidecar files of an input are, and where they go.
#[derive(Debug, PartialEq, Eq)]
pub struct SidecarLayout {
    /// The directory of the input.
    pub input_dir: String,
    /// The file name of the input without its extension.
    pub input_stem: String,
    /// The directory of the output.
    pub output_dir: String,
    /// The file name of the output without its extension.
    pub output_stem: String,
}

/// What a `SidecarLayout` stands for.
pub struct SidecarLayoutView {
    pub input_dir: Seq<char>,
    pub input_stem: Seq<char>,
    pub output_dir: Seq<char>,
    pub output_stem: Seq<char>,
}

impl View for SidecarLayout {
    type V = SidecarLayoutView;

    open spec fn view(&self) -> SidecarLayoutView {
        SidecarLayoutView {
            input_dir: self.input_dir@,
            input_stem: self.input_stem@,
            output_dir: self.output_dir@,
            output_stem: self.output_stem@,
        }
    }
}

/// The layout for an input and an output path. There is none when either
/// path lacks a parent directory or a file stem, and then no sidecar is
/// looked for.
pub open spec fn sidecar_layout(input: Seq<char>, output: Seq<char>) -> Option<SidecarLayoutView> {
    if path_parent(input) is Some && path_parent(output) is Some && path_file_stem(input) is Some
        && path_file_stem(output) is Some {
        Some(
            SidecarLayoutView {
                input_dir: path_parent(input)->0,
                input_stem: path_file_stem(input)->0,
                output_dir: path_parent(output)->0,
                output_stem: path_file_stem(output)->0,
            },
        )
    } else {
        None
    }
}

/// The view of an optional layout.
pub open spec fn opt_layout(o: Option<SidecarLayout>) -> Option<SidecarLayoutView> {
    match o {
        Some(l) => Some(l@),
        None => None,
    }
}

/// Computes `sidecar_layout`.
pub fn plan_sidecar_layout(input: &str, output: &str) -> (r: Option<SidecarLayout>)
    ensures
        opt_layout(r) == sidecar_layout(input@, output@),
{
    let input_dir = match parent(input) {
        Some(dir) => dir,
        None => {
            return None;
        },
    };
    let output_dir = match parent(output) {
        Some(dir) => dir,
        None => {
            return None;
        },
    };
    let input_stem = match file_stem(input) {
        Some(stem) => stem,
        None => {
            return None;
        },
    };
    let output_stem = match file_stem(output) {
        Some(stem) => stem,
        None => {
            return None;
        },
    };
    Some(SidecarLayout { input_dir, input_stem, output_dir, output_stem })
}

/// The name that a sidecar named `name` gets beside the output: its own
/// name with the input's stem at its start replaced by the output's. A file
/// whose name does not begin with the input's stem is no sidecar.
pub open spec fn sidecar_name(
    name: Seq<char>,
    input_stem: Seq<char>,
    output_stem: Seq<char>,
) -> Option<Seq<char>> {
    if input_stem.is_prefix_of(name) {
        Some(output_stem + name.skip(input_stem.len() as int))
    } else {
        None
    }
}

/// Where the sidecar at `entry` goes: into the output's directory, under its
/// own name with the input's stem replaced by the output's. There is no
/// target for the input and the output themselves, nor for an entry whose
/// name does not begin with the input's stem.
pub open spec fn sidecar_target(
    layout: SidecarLayoutView,
    input: Seq<char>,
    output: Seq<char>,
    entry: Seq<char>,
) -> Option<Seq<char>> {
    if path_eq(entry, input) || path_eq(entry, output) {
        None
    } else {
        match path_file_name(entry) {
            Some(name) => match sidecar_name(name, layout.input_stem, layout.output_stem) {
                Some(renamed) => Some(path_join(layout.output_dir, renamed)),
                None => None,
            },
            None => None,
        }
    }
}

/// The operation for one directory entry: a copy when the sources are
/// kept, a rename otherwise; none for an entry that is no sidecar.
pub open spec fn sidecar_op(
    layout: SidecarLayoutView,
    input: Seq<char>,
    output: Seq<char>,
    keep_sources: bool,
    entry: Seq<char>,
) -> Option<FileOpView> {
    match sidecar_target(layout, input, output, entry) {
        Some(target) => Some(
            if keep_sources {
                FileOpView::Copy { from: entry, to: target }
            } else {
                FileOpView::Rename { from: entry, to: target }
            },
        ),
        None => None,
    }
}

/// The operations for all of `entries`, in their order.
pub open spec fn sidecar_ops(
    layout: SidecarLayoutView,
    input: Seq<char>,
    output: Seq<char>,
    keep_sources: bool,
    entries: Seq<Seq<char>>,
) -> Seq<FileOpView>
    decreases entries.len(),
{
    if entries.len() == 0 {
        Seq::empty()
    } else {
        let front = sidecar_ops(layout, input, output, keep_sources, entries.drop_last());
        match sidecar_op(layout, input, output, keep_sources, entries.last()) {
            Some(op) => front.push(op),
            None => front,
        }
    }
}

/// The sidecar operations for an input and an output path: those of the
/// layout, or none at all when there is no layout.
pub open spec fn relocation_ops(
    input: Seq<char>,
    output: Seq<char>,
    keep_sources: bool,
    entries: Seq<Seq<char>>,
) -> Seq<FileOpView> {
    match sidecar_layout(input, output) {
        Some(layout) => sidecar_ops(layout, input, output, keep_sources, entries),
        None => Seq::empty(),
    }
}

/// Computes `sidecar_name`.
pub fn plan_sidecar_name(name: &str, input_stem: &str, output_stem: &str) -> (r: Option<String>)
    ensures
        opt_text(r) == sidecar_name(name@, input_stem@, output_stem@),
{
    let name_chars = chars_of(name);
    let stem_chars = chars_of(input_stem);
    if !has_prefix(&name_chars, &stem_chars) {
        return None;
    }
    let rest = name.substring_char(stem_chars.len(), name_chars.len());
    let mut renamed = String::from_str(output_stem);
    renamed.append(rest);
    assert(rest@ =~= name@.skip(input_stem@.len() as int));
    Some(renamed)
}

fn plan_sidecar_target(layout: &SidecarLayout, input: &str, output: &str, entry: &str) -> (r:
    Option<String>)
    ensures
        opt_text(r) == sidecar_target(layout@, input@, output@, entry@),
{
    if same_path(entry, input) || same_path(entry, output) {
        return None;
    }
    match file_name(entry) {
        None => None,
        Some(name) => match plan_sidecar_name(
            name.as_str(),
            layout.input_stem.as_str(),
            layout.output_stem.as_str(),
        ) {
            Some(renamed) => Some(join(layout.output_dir.as_str(), renamed.as_str())),
            None => None,
        },
    }
}

/// Computes `sidecar_ops` for the entries of the input's directory, each
/// given by its path.
pub fn plan_sidecars(
    layout: &SidecarLayout,
    input: &str,
    output: &str,
    keep_sources: bool,
    entries: &Vec<String>,
) -> (ops: Vec<FileOp>)
    ensures
        file_op_views(ops@) == sidecar_ops(
            layout@,
            input@,
            output@,
            keep_sources,
            entries.deep_view(),
        ),
{
    let mut ops: Vec<FileOp> = Vec::new();
    let mut i: usize = 0;
    assert(entries.deep_view().take(0) =~= Seq::<Seq<char>>::empty());
    assert(file_op_views(ops@) =~= Seq::<FileOpView>::empty());
    while i < entries.len()
        invariant
            i <= entries.len(),
            file_op_views(ops@) == sidecar_ops(
                layout@,
                input@,
                output@,
                keep_sources,
                entries.deep_view().take(i as int),
            ),
        decreases entries.len() - i,
    {
        let ghost before = entries.deep_view().take(i as int);
        let ghost after = entries.deep_view().take(i + 1);
        let ghost ops_before = file_op_views(ops@);
        assert(after.drop_last() =~= before);
        assert(after.last() == entries[i as int]@);
        let entry = entries[i].as_str();
        match plan_sidecar_target(layout, input, output, entry) {
            Some(target) => {
                let op = if keep_sources {
                    FileOp::Copy { from: String::from_str(entry), to: target }
                } else {
                    FileOp::Rename { from: String::from_str(entry), to: target }
                };
                ops.push(op);
                assert(file_op_views(ops@) =~= ops_before.push(
                    sidecar_op(layout@, input@, output@, keep_sources, entry@)->0,
                ));
            },
            None => {},
        }
        i = i + 1;
    }
    assert(entries.deep_view().take(i as int) =~= entries.deep_view());
    ops
}

/// Whether none of `entries` is a sidecar of the input: there is no layout,
/// or no entry has a target.
pub open spec fn no_sidecars(input: Seq<char>, output: Seq<char>, entries: Seq<Seq<char>>) -> bool {
    match sidecar_layout(input, output) {
        Some(layout) => forall|i: int|
            0 <= i < entries.len() ==> sidecar_target(layout, input, output, #[trigger] entries[i])
                is None,
        None => true,
    }
}

/// A directory that holds no sidecar of the input calls for no relocation,
/// whatever else it holds.
pub proof fn lemma_no_sidecar_no_relocation(
    input: Seq<char>,
    output: Seq<char>,
    keep_sources: bool,
    entries: Seq<Seq<char>>,
)
    requires
        no_sidecars(input, output, entries),
    ensures
        relocation_ops(input, output, keep_sources, entries) == Seq::<FileOpView>::empty(),
    decreases entries.len(),
{
    match sidecar_layout(input, output) {
        Some(layout) => {
            if entries.len() > 0 {
                let front = entries.drop_last();
                assert forall|i: int| 0 <= i < front.len() implies sidecar_target(
                    layout,
                    input,
                    output,
                    #[trigger] front[i],
                ) is None by {
                    assert(front[i] == entries[i]);
                }
                lemma_no_sidecar_no_relocation(input, output, keep_sources, front);
                assert(sidecar_target(layout, input, output, entries[entries.len() - 1]) is None);
            }
        },
        None => {},
    }
}

/// Whether `op` copies or moves one of `entries` that is neither the input
/// nor the output.
pub open spec fn relocates_a_bystander(
    op: FileOpView,
    input: Seq<char>,
    output: Seq<char>,
    entries: Seq<Seq<char>>,
) -> bool {
    let from = match op {
        FileOpView::Rename { from, to } => Some(from),
        FileOpView::Copy { from, to } => Some(from),
        FileOpView::Remove { path } => None,
    };
    from matches Some(source) && entries.contains(source) && !path_eq(source, input) && !path_eq(
        source,
        output,
    )
}

/// No relocation deletes anything, and none copies or moves the input or
/// the output: every operation takes one of the entries listed that is
/// neither of the two.
pub proof fn lemma_relocation_spares_input_and_output(
    input: Seq<char>,
    output: Seq<char>,
    keep_sources: bool,
    entries: Seq<Seq<char>>,
)
    ensures
        forall|i: int|
            0 <= i < relocation_ops(input, output, keep_sources, entries).len()
                ==> relocates_a_bystander(
                #[trigger] relocation_ops(input, output, keep_sources, entries)[i],
                input,
                output,
                entries,
            ),
    decreases entries.len(),
{
    match sidecar_layout(input, output) {
        Some(layout) => {
            if entries.len() > 0 {
                let front = entries.drop_last();
                let last = entries.last();
                lemma_relocation_spares_input_and_output(input, output, keep_sources, front);
                let ops = relocation_ops(input, output, keep_sources, entries);
                let before = relocation_ops(input, output, keep_sources, front);
                assert forall|i: int| 0 <= i < ops.len() implies relocates_a_bystander(
                    #[trigger] ops[i],
                    input,
                    output,
                    entries,
                ) by {
                    if i < before.len() {
                        assert(ops[i] == before[i]);
                        assert(relocates_a_bystander(before[i], input, output, front));
                        let source = match before[i] {
                            FileOpView::Rename { from, to } => from,
                            FileOpView::Copy { from, to } => from,
                            FileOpView::Remove { path } => path,
                        };
                        let k = choose|k: int| 0 <= k < front.len() && front[k] == source;
                        assert(entries[k] == source);
                    } else {
                        assert(entries[entries.len() - 1] == last);
                    }
                }
            }
        },
        None => {},
    }
}

/// With the sources kept, no sidecar operation takes any file away.
pub proof fn lemma_kept_sidecars_stay(
    layout: SidecarLayoutView,
    input: Seq<char>,
    output: Seq<char>,
    entries: Seq<Seq<char>>,
    path: Seq<char>,
)
    ensures
        forall|i: int|
            0 <= i < sidecar_ops(layout, input, output, true, entries).len() ==> !(
            #[trigger] sidecar_ops(layout, input, output, true, entries)[i]).takes_away(path),
    decreases entries.len(),
{
    if entries.len() > 0 {
        lemma_kept_sidecars_stay(layout, input, output, entries.drop_last(), path);
        let ops = sidecar_ops(layout, input, output, true, entries);
        let front = sidecar_ops(layout, input, output, true, entries.drop_last());
        assert forall|i: int| 0 <= i < ops.len() implies !(#[trigger] ops[i]).takes_away(path) by {
            if i < front.len() {
                assert(ops[i] == front[i]);
            }
        }
    }
}

/// With the input kept, no operation of a finalization takes the input
/// away, as long as the temporary output is not the input itself: the input
/// is neither deleted nor moved, by the placement or by the relocation of
/// sidecars, whatever the directory holds.
pub proof fn lemma_kept_input_stays(
    tmp: Seq<char>,
    output: Seq<char>,
    input: Seq<char>,
    entries: Seq<Seq<char>>,
)
    requires
        tmp != input,
    ensures
        forall|i: int|
            0 <= i < placement_ops(tmp, output, input, true).len() ==> !(
            #[trigger] placement_ops(tmp, output, input, true)[i]).takes_away(input),
        forall|i: int|
            0 <= i < relocation_ops(input, output, true, entries).len() ==> !(
            #[trigger] relocation_ops(input, output, true, entries)[i]).takes_away(input),
{
    match sidecar_layout(input, output) {
        Some(layout) => {
            lemma_kept_sidecars_stay(layout, input, output, entries, input);
        },
        None => {},
    }
}

} // verus!

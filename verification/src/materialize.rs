//! From a rendered file set to the steps that put it on disk.
//!
//! Nothing here touches the file system. The steps are laid out in the
//! order in which they are to be taken, each with the path it works on.

use crate::render::{FileSetView, FileView, RenderedFile, RenderedFileSet};
use vstd::prelude::*;

verus! {

/// A step as plain values.
pub enum StepView {
    /// Create the directory at `path`, with the directories above it.
    CreateDir { path: Seq<char> },
    /// Write `content` to the file at `path`, replacing what is there.
    WriteFile { path: Seq<char>, content: Seq<char> },
    /// Make the directory at `path` a repository.
    InitRepository { path: Seq<char> },
}

/// One action on the file system.
#[derive(Debug)]
pub enum Step {
    /// Create the directory at `path`, with the directories above it. A
    /// directory that exists already is no failure.
    CreateDir { path: String },
    /// Write `content` to the file at `path`, replacing what is there.
    WriteFile { path: String, content: String },
    /// Make the directory at `path` a repository.
    InitRepository { path: String },
}

impl View for Step {
    type V = StepView;

    open spec fn view(&self) -> StepView {
        match self {
            Step::CreateDir { path } => StepView::CreateDir { path: path@ },
            Step::WriteFile { path, content } => StepView::WriteFile {
                path: path@,
                content: content@,
            },
            Step::InitRepository { path } => StepView::InitRepository { path: path@ },
        }
    }
}

impl DeepView for Step {
    type V = StepView;

    open spec fn deep_view(&self) -> StepView {
        self@
    }
}

/// The message for a step that failed: what could not be done, and the path
/// in single quotes.
pub open spec fn failure_of(step: StepView) -> Seq<char> {
    match step {
        StepView::CreateDir { path } => "Failed to create directory '"@ + path + "'."@,
        StepView::WriteFile { path, content } => "Failed to write into file '"@ + path + "'."@,
        StepView::InitRepository { path } => "Failed to create git repository in '"@ + path
            + "'."@,
    }
}

impl Step {
    /// The message for this step when it failed.
    pub fn failure_message(&self) -> (text: String)
        ensures
            text@ == failure_of(self@),
    {
        let mut text = match self {
            Step::CreateDir { path } => {
                let mut text = String::from_str("Failed to create directory '");
                text.append(path.as_str());
                text
            },
            Step::WriteFile { path, content } => {
                let mut text = String::from_str("Failed to write into file '");
                text.append(path.as_str());
                text
            },
            Step::InitRepository { path } => {
                let mut text = String::from_str("Failed to create git repository in '");
                text.append(path.as_str());
                text
            },
        };
        text.append("'.");
        text
    }
}

/// The greatest offset below `end` at which a slash stands in `path`, or -1
/// when there is none.
pub open spec fn last_slash_before(path: Seq<char>, end: int) -> int
    decreases end,
{
    if end <= 0 {
        -1
    } else if end <= path.len() && path[end - 1] == '/' {
        end - 1
    } else {
        last_slash_before(path, end - 1)
    }
}

/// The directory that holds `path`: what stands before its last slash. A
/// path without a slash lies in no directory.
pub open spec fn parent_of(path: Seq<char>) -> Option<Seq<char>> {
    let at = last_slash_before(path, path.len() as int);
    if at < 0 {
        None
    } else {
        Some(path.subrange(0, at))
    }
}

/// The root directory of the project called `name`, below the current
/// directory.
pub open spec fn root_of(name: Seq<char>) -> Seq<char> {
    "./"@ + name
}

/// The place of `rel` below the directory `root`.
pub open spec fn under(root: Seq<char>, rel: Seq<char>) -> Seq<char> {
    root + "/"@ + rel
}

/// The steps for one file below `root`: its directory first, where it lies
/// in one, then the file.
pub open spec fn file_steps(root: Seq<char>, file: FileView) -> Seq<StepView> {
    let write = StepView::WriteFile { path: under(root, file.path), content: file.content };
    match parent_of(file.path) {
        Some(dir) => seq![StepView::CreateDir { path: under(root, dir) }, write],
        None => seq![write],
    }
}

/// The steps for `files` below `root`, file after file.
pub open spec fn files_steps(root: Seq<char>, files: Seq<FileView>) -> Seq<StepView>
    decreases files.len(),
{
    if files.len() == 0 {
        Seq::empty()
    } else {
        files_steps(root, files.drop_last()) + file_steps(root, files.last())
    }
}

/// The steps that create `dirs` below `root`, one after the other.
pub open spec fn dirs_steps(root: Seq<char>, dirs: Seq<Seq<char>>) -> Seq<StepView> {
    Seq::new(dirs.len(), |i: int| StepView::CreateDir { path: under(root, dirs[i]) })
}

/// The steps for version control below `root`: the repository, then the
/// ignore file. None where the set holds no ignore file.
pub open spec fn vcs_steps(root: Seq<char>, ignore_file: Option<FileView>) -> Seq<StepView> {
    match ignore_file {
        Some(file) => seq![StepView::InitRepository { path: root }] + file_steps(root, file),
        None => Seq::empty(),
    }
}

/// The steps that put `set` on disk as the project called `name`: the root
/// directory, the files, the empty directories, and last what version
/// control needs.
pub open spec fn plan(name: Seq<char>, set: FileSetView) -> Seq<StepView> {
    let root = root_of(name);
    seq![StepView::CreateDir { path: root }] + files_steps(root, set.files) + dirs_steps(
        root,
        set.dirs,
    ) + vcs_steps(root, set.ignore_file)
}

/// The directory that holds `path`, if it lies in one.
pub fn parent_dir(path: &str) -> (dir: Option<String>)
    ensures
        dir.deep_view() == parent_of(path@),
{
    let n: usize = path.unicode_len();
    let mut end: usize = n;
    while end > 0
        invariant
            end <= n,
            n == path@.len(),
            last_slash_before(path@, n as int) == last_slash_before(path@, end as int),
        decreases end,
    {
        if path.get_char(end - 1) == '/' {
            return Some(String::from_str(path.substring_char(0, end - 1)));
        }
        end = end - 1;
    }
    None
}

/// The path of `rel` below the directory `root`.
pub fn join_path(root: &str, rel: &str) -> (path: String)
    ensures
        path@ == under(root@, rel@),
{
    let mut path = String::from_str(root);
    path.append("/");
    path.append(rel);
    path
}

/// Appends the steps for one file below `root`.
fn push_file_steps(steps: &mut Vec<Step>, root: &str, file: &RenderedFile)
    ensures
        final(steps).deep_view() == old(steps).deep_view() + file_steps(root@, file@),
{
    let ghost before = steps.deep_view();
    match parent_dir(file.path.as_str()) {
        Some(dir) => {
            steps.push(Step::CreateDir { path: join_path(root, dir.as_str()) });
        },
        None => {},
    }
    steps.push(
        Step::WriteFile {
            path: join_path(root, file.path.as_str()),
            content: file.content.clone(),
        },
    );
    proof {
        assert(steps.deep_view() =~= before + file_steps(root@, file@));
    }
}

/// Lays out the steps that put `set` on disk as the project called `name`.
pub fn materialize(name: &str, set: &RenderedFileSet) -> (steps: Vec<Step>)
    ensures
        steps.deep_view() == plan(name@, set@),
{
    let mut root = String::from_str("./");
    root.append(name);
    let ghost r = root@;
    let mut steps: Vec<Step> = Vec::new();
    steps.push(Step::CreateDir { path: root.clone() });
    let ghost first = steps.deep_view();
    proof {
        assert(first =~= seq![StepView::CreateDir { path: r }]);
    }
    let mut i: usize = 0;
    while i < set.files.len()
        invariant
            i <= set.files.len(),
            root@ == r,
            steps.deep_view() == first + files_steps(r, set@.files.take(i as int)),
        decreases set.files.len() - i,
    {
        let ghost before = steps.deep_view();
        push_file_steps(&mut steps, root.as_str(), &set.files[i]);
        proof {
            let taken = set@.files.take(i + 1);
            assert(taken.drop_last() =~= set@.files.take(i as int));
            assert(taken.last() == set.files[i as int]@);
            assert(steps.deep_view() =~= first + files_steps(r, taken));
        }
        i = i + 1;
    }
    proof {
        assert(set@.files.take(i as int) =~= set@.files);
    }
    let ghost filed = steps.deep_view();
    let mut j: usize = 0;
    while j < set.dirs.len()
        invariant
            j <= set.dirs.len(),
            root@ == r,
            steps.deep_view() == filed + dirs_steps(r, set@.dirs.take(j as int)),
        decreases set.dirs.len() - j,
    {
        let ghost before = steps.deep_view();
        steps.push(Step::CreateDir { path: join_path(root.as_str(), set.dirs[j].as_str()) });
        proof {
            let made = dirs_steps(r, set@.dirs.take(j as int));
            let more = dirs_steps(r, set@.dirs.take(j + 1));
            assert(set@.dirs.take(j + 1)[j as int] == set.dirs[j as int]@);
            assert(more =~= made.push(StepView::CreateDir { path: under(r, set.dirs[j as int]@) }));
            assert(steps.deep_view() =~= before.push(steps[steps.len() - 1]@));
            assert(steps.deep_view() =~= filed + more);
        }
        j = j + 1;
    }
    proof {
        assert(set@.dirs.take(j as int) =~= set@.dirs);
    }
    let ghost placed = steps.deep_view();
    match &set.ignore_file {
        Some(file) => {
            steps.push(Step::InitRepository { path: root.clone() });
            let ghost begun = steps.deep_view();
            push_file_steps(&mut steps, root.as_str(), file);
            proof {
                assert(begun =~= placed + seq![StepView::InitRepository { path: r }]);
                assert(steps.deep_view() =~= placed + vcs_steps(r, set@.ignore_file));
            }
        },
        None => {
            proof {
                assert(steps.deep_view() =~= placed + vcs_steps(r, set@.ignore_file));
            }
        },
    }
    steps
}

} // verus!

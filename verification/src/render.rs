//! Rendering: the text resources of a template with the values of a
//! configuration in place of the markers.

use crate::config::{ConfigView, ProjectConfig};
use crate::template::{placeholders_of, resource_text, Placeholder, Resource, TemplateId};
use crate::text::{replace_all, replaced};
use vstd::prelude::*;

verus! {

/// The value that goes where placeholder `p` stands.
pub open spec fn value_of(cfg: ConfigView, p: Placeholder) -> Seq<char> {
    match p {
        Placeholder::ProjectName => cfg.project_name,
        Placeholder::CmakeMinVersion => cfg.cmake_min_version,
        Placeholder::CppStandard => cfg.std,
        Placeholder::BuildDir => cfg.build_dir,
        Placeholder::BuildDirName => replaced(cfg.build_dir, "./"@, ""@),
    }
}

/// `text` with every marker of placeholder `p` replaced by its value.
pub open spec fn filled_in(text: Seq<char>, cfg: ConfigView, p: Placeholder) -> Seq<char> {
    replaced(text, p.marker(), value_of(cfg, p))
}

/// `text` with the placeholders of `order` filled in, one after the other,
/// the first of `order` first. A marker of a placeholder that is not in
/// `order` stays as it stands.
pub open spec fn rendered(text: Seq<char>, cfg: ConfigView, order: Seq<Placeholder>) -> Seq<char>
    decreases order.len(),
{
    if order.len() == 0 {
        text
    } else {
        filled_in(rendered(text, cfg, order.drop_last()), cfg, order.last())
    }
}

/// A rendered file as plain values.
pub struct FileView {
    /// Where the file goes, relative to the root of the project.
    pub path: Seq<char>,
    /// What the file holds.
    pub content: Seq<char>,
}

/// A file with its content, ready to be written.
#[derive(Debug)]
pub struct RenderedFile {
    /// Where the file goes, relative to the root of the project.
    pub path: String,
    /// What the file holds.
    pub content: String,
}

impl View for RenderedFile {
    type V = FileView;

    open spec fn view(&self) -> FileView {
        FileView { path: self.path@, content: self.content@ }
    }
}

impl DeepView for RenderedFile {
    type V = FileView;

    open spec fn deep_view(&self) -> FileView {
        self@
    }
}

/// A rendered file set as plain values.
pub struct FileSetView {
    /// The files, in the order in which they are written.
    pub files: Seq<FileView>,
    /// The directories that hold no file, in the order in which they are
    /// created.
    pub dirs: Seq<Seq<char>>,
    /// The ignore file, where version control is enabled.
    pub ignore_file: Option<FileView>,
}

/// What one run writes below the root of the project.
#[derive(Debug)]
pub struct RenderedFileSet {
    /// The files, in the order in which they are written.
    pub files: Vec<RenderedFile>,
    /// The directories that hold no file, in the order in which they are
    /// created.
    pub dirs: Vec<String>,
    /// The ignore file, where version control is enabled. It is written
    /// after the repository was made.
    pub ignore_file: Option<RenderedFile>,
}

impl View for RenderedFileSet {
    type V = FileSetView;

    open spec fn view(&self) -> FileSetView {
        FileSetView {
            files: self.files.deep_view(),
            dirs: self.dirs.deep_view(),
            ignore_file: self.ignore_file.deep_view(),
        }
    }
}

/// The text of resource `res` of template `id` rendered with `cfg`: the
/// placeholders of that resource are filled in, and no others.
pub open spec fn content_of(id: TemplateId, res: Resource, cfg: ConfigView) -> Seq<char> {
    rendered(resource_text(id, res), cfg, placeholders_of(id, res))
}

/// What each resource is rendered with, written out: the build script of an
/// executable gets the name and then the build directory, that of a library
/// the name alone, the build configuration the name and then the two
/// versions, the ignore file the name of the build directory, and the
/// starter source is its text as it stands.
pub proof fn lemma_content_written_out(id: TemplateId, cfg: ConfigView)
    ensures
        content_of(TemplateId::Default, Resource::BuildScript, cfg) == filled_in(
            filled_in(
                resource_text(TemplateId::Default, Resource::BuildScript),
                cfg,
                Placeholder::ProjectName,
            ),
            cfg,
            Placeholder::BuildDir,
        ),
        content_of(TemplateId::Library, Resource::BuildScript, cfg) == filled_in(
            resource_text(TemplateId::Library, Resource::BuildScript),
            cfg,
            Placeholder::ProjectName,
        ),
        content_of(id, Resource::CMakeLists, cfg) == filled_in(
            filled_in(
                filled_in(resource_text(id, Resource::CMakeLists), cfg, Placeholder::ProjectName),
                cfg,
                Placeholder::CmakeMinVersion,
            ),
            cfg,
            Placeholder::CppStandard,
        ),
        content_of(id, Resource::IgnoreFile, cfg) == filled_in(
            resource_text(id, Resource::IgnoreFile),
            cfg,
            Placeholder::BuildDirName,
        ),
        content_of(id, Resource::MainSource, cfg) == resource_text(id, Resource::MainSource),
{
    reveal_with_fuel(rendered, 4);
    let two = placeholders_of(TemplateId::Default, Resource::BuildScript);
    assert(two.drop_last() =~= seq![Placeholder::ProjectName]);
    assert(two.drop_last().drop_last() =~= Seq::<Placeholder>::empty());
    let three = placeholders_of(id, Resource::CMakeLists);
    assert(three.drop_last() =~= seq![Placeholder::ProjectName, Placeholder::CmakeMinVersion]);
    assert(three.drop_last().drop_last() =~= seq![Placeholder::ProjectName]);
    assert(three.drop_last().drop_last().drop_last() =~= Seq::<Placeholder>::empty());
    let one = placeholders_of(TemplateId::Library, Resource::BuildScript);
    assert(one.drop_last() =~= Seq::<Placeholder>::empty());
    let name = placeholders_of(id, Resource::IgnoreFile);
    assert(name.drop_last() =~= Seq::<Placeholder>::empty());
}

/// The file at `path` that holds resource `res` of template `id`, rendered
/// with `cfg`.
pub open spec fn rendered_file(
    path: Seq<char>,
    id: TemplateId,
    res: Resource,
    cfg: ConfigView,
) -> FileView {
    FileView { path, content: content_of(id, res, cfg) }
}

/// The file set of template `id` rendered with `cfg`: the build script, the
/// build configuration and the starter source, two empty directories for
/// external libraries, and the ignore file where `vcs` is set.
pub open spec fn rendered_set(id: TemplateId, cfg: ConfigView, vcs: bool) -> FileSetView {
    FileSetView {
        files: seq![
            rendered_file("build.sh"@, id, Resource::BuildScript, cfg),
            rendered_file("CMakeLists.txt"@, id, Resource::CMakeLists, cfg),
            rendered_file("src/main.cpp"@, id, Resource::MainSource, cfg),
        ],
        dirs: seq!["external/lib/win"@, "external/lib/linux"@],
        ignore_file: if vcs {
            Some(rendered_file(".gitignore"@, id, Resource::IgnoreFile, cfg))
        } else {
            None
        },
    }
}

/// `text` with one placeholder filled in.
fn fill_in(text: &str, config: &ProjectConfig, p: Placeholder) -> (out: String)
    ensures
        out@ == filled_in(text@, config@, p),
{
    match p {
        Placeholder::ProjectName => replace_all(text, p.marker_text(), config.project_name()),
        Placeholder::CmakeMinVersion => replace_all(
            text,
            p.marker_text(),
            config.cmake_min_version(),
        ),
        Placeholder::CppStandard => replace_all(text, p.marker_text(), config.standard()),
        Placeholder::BuildDir => replace_all(text, p.marker_text(), config.build_dir()),
        Placeholder::BuildDirName => {
            let name = replace_all(config.build_dir(), "./", "");
            replace_all(text, p.marker_text(), name.as_str())
        },
    }
}

/// Renders one text: fills in the placeholders of `order`, one after the
/// other. Every marker of such a placeholder gives way to the value that
/// `config` holds for it; all other text stays as it stands.
pub fn render_text(text: &str, config: &ProjectConfig, order: &[Placeholder]) -> (out: String)
    ensures
        out@ == rendered(text@, config@, order@),
{
    let mut out = String::from_str(text);
    let mut i: usize = 0;
    proof {
        assert(order@.take(0) =~= Seq::<Placeholder>::empty());
    }
    while i < order.len()
        invariant
            i <= order.len(),
            out@ == rendered(text@, config@, order@.take(i as int)),
        decreases order.len() - i,
    {
        proof {
            assert(order@.take(i + 1).drop_last() =~= order@.take(i as int));
        }
        out = fill_in(out.as_str(), config, order[i]);
        i = i + 1;
    }
    proof {
        assert(order@.take(i as int) =~= order@);
    }
    out
}

/// Renders one resource of a template into the file at `path`.
fn render_file(path: &str, id: TemplateId, res: Resource, config: &ProjectConfig) -> (file:
    RenderedFile)
    ensures
        file@ == rendered_file(path@, id, res, config@),
{
    let order = id.placeholders(res);
    RenderedFile {
        path: String::from_str(path),
        content: render_text(id.resource(res), config, order.as_slice()),
    }
}

/// Renders template `id` with `config`. The ignore file is part of the set
/// only where `vcs` is set.
pub fn render(id: TemplateId, config: &ProjectConfig, vcs: bool) -> (set: RenderedFileSet)
    ensures
        set@ == rendered_set(id, config@, vcs),
{
    let mut files: Vec<RenderedFile> = Vec::new();
    files.push(render_file("build.sh", id, Resource::BuildScript, config));
    files.push(render_file("CMakeLists.txt", id, Resource::CMakeLists, config));
    files.push(render_file("src/main.cpp", id, Resource::MainSource, config));
    let mut dirs: Vec<String> = Vec::new();
    dirs.push(String::from_str("external/lib/win"));
    dirs.push(String::from_str("external/lib/linux"));
    let ignore_file = if vcs {
        Some(render_file(".gitignore", id, Resource::IgnoreFile, config))
    } else {
        None
    };
    let set = RenderedFileSet { files, dirs, ignore_file };
    proof {
        assert(set@.files =~= rendered_set(id, config@, vcs).files);
        assert(set@.dirs =~= rendered_set(id, config@, vcs).dirs);
    }
    set
}

} // verus!

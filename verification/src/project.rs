//! The whole way from a configuration to the steps that create the project.

use crate::config::{ConfigView, ProjectConfig};
use crate::error::{UsageError, UsageErrorView};
use crate::materialize::{
    file_steps, files_steps, last_slash_before, materialize, parent_of, plan, root_of, under, Step,
    StepView,
};
use crate::render::{content_of, render, rendered_set};
use crate::template::{template_named, Resource, TemplateId};
use vstd::prelude::*;

verus! {

/// The steps that create the project of template `id`, in the order in
/// which they are taken: the root directory, the build script, the
/// build configuration, the source directory with the starter source, two
/// empty directories for external libraries and, where `vcs` is set, the
/// repository and then the ignore file.
pub open spec fn layout(id: TemplateId, cfg: ConfigView, vcs: bool) -> Seq<StepView> {
    let root = root_of(cfg.project_name);
    let base = seq![
        StepView::CreateDir { path: root },
        StepView::WriteFile {
            path: under(root, "build.sh"@),
            content: content_of(id, Resource::BuildScript, cfg),
        },
        StepView::WriteFile {
            path: under(root, "CMakeLists.txt"@),
            content: content_of(id, Resource::CMakeLists, cfg),
        },
        StepView::CreateDir { path: under(root, "src"@) },
        StepView::WriteFile {
            path: under(root, "src/main.cpp"@),
            content: content_of(id, Resource::MainSource, cfg),
        },
        StepView::CreateDir { path: under(root, "external/lib/win"@) },
        StepView::CreateDir { path: under(root, "external/lib/linux"@) },
    ];
    if vcs {
        base + seq![
            StepView::InitRepository { path: root },
            StepView::WriteFile {
                path: under(root, ".gitignore"@),
                content: content_of(id, Resource::IgnoreFile, cfg),
            },
        ]
    } else {
        base
    }
}

/// The plan for a rendered template is the fixed layout.
pub proof fn lemma_plan_is_layout(id: TemplateId, cfg: ConfigView, vcs: bool)
    ensures
        plan(cfg.project_name, rendered_set(id, cfg, vcs)) == layout(id, cfg, vcs),
{
    reveal_strlit("build.sh");
    reveal_strlit("CMakeLists.txt");
    reveal_strlit("src/main.cpp");
    reveal_strlit("src");
    reveal_strlit(".gitignore");
    reveal_with_fuel(last_slash_before, 16);
    reveal_with_fuel(files_steps, 4);
    let root = root_of(cfg.project_name);
    let set = rendered_set(id, cfg, vcs);
    assert(parent_of("build.sh"@) is None);
    assert(parent_of("CMakeLists.txt"@) is None);
    assert(parent_of(".gitignore"@) is None);
    assert(last_slash_before("src/main.cpp"@, 12) == 3);
    assert("src/main.cpp"@.subrange(0, 3) =~= "src"@);
    assert(parent_of("src/main.cpp"@) == Some("src"@));
    let two = set.files.drop_last();
    let one = two.drop_last();
    assert(one.drop_last() =~= Seq::empty());
    assert(files_steps(root, one) =~= file_steps(root, set.files[0]));
    assert(files_steps(root, two) =~= file_steps(root, set.files[0]) + file_steps(
        root,
        set.files[1],
    ));
    assert(plan(cfg.project_name, set) =~= layout(id, cfg, vcs));
}

/// Lays out the project that `config` describes: looks its template up,
/// renders it, and returns the steps that create the project. The ignore
/// file and the repository are part of it where `vcs` is set.
///
/// A template name that the registry does not know is an error, and then no
/// step at all is returned.
pub fn create_new_project(config: &ProjectConfig, vcs: bool) -> (outcome: Result<
    Vec<Step>,
    UsageError,
>)
    ensures
        match outcome {
            Ok(steps) => template_named(config@.template_name) matches Some(id)
                && steps.deep_view() == layout(id, config@, vcs),
            Err(error) => template_named(config@.template_name) is None && error@
                == UsageErrorView::UnknownTemplate(config@.template_name),
        },
{
    match TemplateId::from_name(config.template_name()) {
        Some(id) => {
            let set = render(id, config, vcs);
            proof {
                lemma_plan_is_layout(id, config@, vcs);
            }
            Ok(materialize(config.project_name(), &set))
        },
        None => Err(UsageError::UnknownTemplate(String::from_str(config.template_name()))),
    }
}

/// The line that tells of a project that was created.
pub open spec fn confirmation_of(cfg: ConfigView) -> Seq<char> {
    "Project '"@ + cfg.project_name + "' was successfully created! (template: '"@
        + cfg.template_name + "')"@
}

/// The line that tells of a project that was created, with its name and the
/// name of its template as given.
pub fn confirmation(config: &ProjectConfig) -> (line: String)
    ensures
        line@ == confirmation_of(config@),
{
    let mut line = String::from_str("Project '");
    line.append(config.project_name());
    line.append("' was successfully created! (template: '");
    line.append(config.template_name());
    line.append("')");
    line
}

} // verus!

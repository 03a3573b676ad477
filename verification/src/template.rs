//! The registry of project templates: which templates exist, under which
//! names, and the text resources of each.

use crate::const_data::{
    DEFAULT_EXE_BUILD_SH, DEFAULT_EXE_CMAKE_LISTS, DEFAULT_LIB_BUILD_SH, DEFAULT_LIB_CMAKE_LISTS,
    DEFAULT_MAIN_SRC, GITIGNORE_SRC,
};
use crate::text::str_eq;
use vstd::prelude::*;

verus! {

/// A project template.
#[derive(Clone, Copy, Debug, PartialEq, Eq, Structural)]
pub enum TemplateId {
    /// An executable.
    Default,
    /// A static library.
    Library,
}

/// A text resource of a template.
#[derive(Clone, Copy, Debug, PartialEq, Eq, Structural)]
pub enum Resource {
    /// The script that configures and builds the project.
    BuildScript,
    /// The build configuration.
    CMakeLists,
    /// The starter source file.
    MainSource,
    /// The ignore file of the version-control system.
    IgnoreFile,
}

/// A place in a template's text where a value of the configuration goes.
#[derive(Clone, Copy, Debug, PartialEq, Eq, Structural)]
pub enum Placeholder {
    /// The name of the project.
    ProjectName,
    /// The minimal version of CMake.
    CmakeMinVersion,
    /// The version of the C++ standard.
    CppStandard,
    /// The directory that the build writes to, as configured.
    BuildDir,
    /// The directory that the build writes to, without any `./` in it.
    BuildDirName,
}

impl Placeholder {
    /// The marker that stands for this placeholder in a template's text.
    pub open spec fn marker(self) -> Seq<char> {
        match self {
            Placeholder::ProjectName => "{{project_name}}"@,
            Placeholder::CmakeMinVersion => "{{cmake_min_version}}"@,
            Placeholder::CppStandard => "{{cpp_standard}}"@,
            Placeholder::BuildDir => "{{build_dir}}"@,
            Placeholder::BuildDirName => "{{build_dir_name}}"@,
        }
    }

    /// The marker that stands for this placeholder in a template's text.
    pub fn marker_text(self) -> (marker: &'static str)
        ensures
            marker@ == self.marker(),
    {
        match self {
            Placeholder::ProjectName => "{{project_name}}",
            Placeholder::CmakeMinVersion => "{{cmake_min_version}}",
            Placeholder::CppStandard => "{{cpp_standard}}",
            Placeholder::BuildDir => "{{build_dir}}",
            Placeholder::BuildDirName => "{{build_dir_name}}",
        }
    }
}

/// The template that `name` selects, if any: `default` selects the
/// executable, `lib` and `library` select the library.
pub open spec fn template_named(name: Seq<char>) -> Option<TemplateId> {
    if name == "default"@ {
        Some(TemplateId::Default)
    } else if name == "lib"@ || name == "library"@ {
        Some(TemplateId::Library)
    } else {
        None
    }
}

/// The text of resource `res` of template `id`, with its markers in place.
pub open spec fn resource_text(id: TemplateId, res: Resource) -> Seq<char> {
    match (id, res) {
        (TemplateId::Default, Resource::BuildScript) => DEFAULT_EXE_BUILD_SH@,
        (TemplateId::Default, Resource::CMakeLists) => DEFAULT_EXE_CMAKE_LISTS@,
        (TemplateId::Library, Resource::BuildScript) => DEFAULT_LIB_BUILD_SH@,
        (TemplateId::Library, Resource::CMakeLists) => DEFAULT_LIB_CMAKE_LISTS@,
        (_, Resource::MainSource) => DEFAULT_MAIN_SRC@,
        (_, Resource::IgnoreFile) => GITIGNORE_SRC@,
    }
}

/// The placeholders that resource `res` of template `id` is rendered with,
/// in the order in which they are filled in. A marker of any other
/// placeholder stays in the text as it stands.
pub open spec fn placeholders_of(id: TemplateId, res: Resource) -> Seq<Placeholder> {
    match (id, res) {
        (TemplateId::Default, Resource::BuildScript) => seq![
            Placeholder::ProjectName,
            Placeholder::BuildDir,
        ],
        (TemplateId::Library, Resource::BuildScript) => seq![Placeholder::ProjectName],
        (_, Resource::CMakeLists) => seq![
            Placeholder::ProjectName,
            Placeholder::CmakeMinVersion,
            Placeholder::CppStandard,
        ],
        (_, Resource::MainSource) => Seq::empty(),
        (_, Resource::IgnoreFile) => seq![Placeholder::BuildDirName],
    }
}

impl TemplateId {
    /// Looks a template up by name.
    pub fn from_name(name: &str) -> (id: Option<TemplateId>)
        ensures
            id == template_named(name@),
    {
        if str_eq(name, "default") {
            Some(TemplateId::Default)
        } else if str_eq(name, "lib") || str_eq(name, "library") {
            Some(TemplateId::Library)
        } else {
            None
        }
    }

    /// The text of one resource of this template, with its markers in place.
    pub fn resource(self, res: Resource) -> (text: &'static str)
        ensures
            text@ == resource_text(self, res),
    {
        match (self, res) {
            (TemplateId::Default, Resource::BuildScript) => DEFAULT_EXE_BUILD_SH,
            (TemplateId::Default, Resource::CMakeLists) => DEFAULT_EXE_CMAKE_LISTS,
            (TemplateId::Library, Resource::BuildScript) => DEFAULT_LIB_BUILD_SH,
            (TemplateId::Library, Resource::CMakeLists) => DEFAULT_LIB_CMAKE_LISTS,
            (_, Resource::MainSource) => DEFAULT_MAIN_SRC,
            (_, Resource::IgnoreFile) => GITIGNORE_SRC,
        }
    }

    /// The placeholders that one resource of this template is rendered
    /// with, in the order in which they are filled in.
    pub fn placeholders(self, res: Resource) -> (order: Vec<Placeholder>)
        ensures
            order@ == placeholders_of(self, res),
    {
        let mut order: Vec<Placeholder> = Vec::new();
        match (self, res) {
            (TemplateId::Default, Resource::BuildScript) => {
                order.push(Placeholder::ProjectName);
                order.push(Placeholder::BuildDir);
            },
            (TemplateId::Library, Resource::BuildScript) => {
                order.push(Placeholder::ProjectName);
            },
            (_, Resource::CMakeLists) => {
                order.push(Placeholder::ProjectName);
                order.push(Placeholder::CmakeMinVersion);
                order.push(Placeholder::CppStandard);
            },
            (_, Resource::MainSource) => {},
            (_, Resource::IgnoreFile) => {
                order.push(Placeholder::BuildDirName);
            },
        }
        proof {
            assert(order@ =~= placeholders_of(self, res));
        }
        order
    }
}

} // verus!

//! The configuration of one project, and how command-line tokens resolve to
//! it: fixed defaults first, then what the tokens override.

use crate::flags::{find_parameter, resolved};
use crate::text::starts_with_char;
use vstd::prelude::*;

verus! {

/// A parameter that a flag can set.
#[derive(Clone, Copy, Debug, PartialEq, Eq, Structural)]
pub enum Parameter {
    /// The name of the project.
    ProjectName,
    /// The version of the C++ standard.
    Standard,
    /// The minimal version of CMake.
    CmakeMinVersion,
}

impl Parameter {
    /// The accepted spellings of the flag of this parameter.
    pub open spec fn spellings(self) -> Seq<Seq<char>> {
        match self {
            Parameter::ProjectName => seq!["-n"@, "--name"@],
            Parameter::Standard => seq!["-s"@, "--std"@],
            Parameter::CmakeMinVersion => seq!["-c"@, "--cmake-min"@],
        }
    }

    /// The accepted spellings of the flag of this parameter.
    pub fn flags(self) -> (flags: [&'static str; 2])
        ensures
            flags@.len() == 2,
            self.spellings() == seq![flags@[0]@, flags@[1]@],
    {
        match self {
            Parameter::ProjectName => ["-n", "--name"],
            Parameter::Standard => ["-s", "--std"],
            Parameter::CmakeMinVersion => ["-c", "--cmake-min"],
        }
    }

    /// The value that the tokens `cmds` give to this parameter, if any.
    pub fn resolve(self, cmds: &[String]) -> (value: Option<String>)
        ensures
            value.deep_view() == resolved(cmds.deep_view(), self.spellings()),
    {
        let flags = self.flags();
        let slice = flags.as_slice();
        assert(slice.deep_view() =~= self.spellings());
        find_parameter(cmds, slice)
    }
}

/// A project configuration as plain values.
pub struct ConfigView {
    /// The name of the template, as given.
    pub template_name: Seq<char>,
    /// The name of the project.
    pub project_name: Seq<char>,
    /// The version of the C++ standard.
    pub std: Seq<char>,
    /// The minimal version of CMake.
    pub cmake_min_version: Seq<char>,
    /// The directory that the build writes to.
    pub build_dir: Seq<char>,
}

/// The configuration of a project. Every field has a value, and the name of
/// the project is never empty.
#[derive(Debug)]
pub struct ProjectConfig {
    template_name: String,
    project_name: String,
    std: String,
    cmake_min_version: String,
    build_dir: String,
}

/// The configuration that stands when the tokens override nothing.
pub open spec fn default_config() -> ConfigView {
    ConfigView {
        template_name: "default"@,
        project_name: "MyProject"@,
        std: "17"@,
        cmake_min_version: "3.22"@,
        build_dir: "./bin"@,
    }
}

/// The template name that `tokens` select over `base`: the second token,
/// unless it is missing or begins with a dash.
pub open spec fn selected_template(base: Seq<char>, tokens: Seq<Seq<char>>) -> Seq<char> {
    if tokens.len() < 2 || (tokens[1].len() > 0 && tokens[1][0] == '-') {
        base
    } else {
        tokens[1]
    }
}

/// `base` unless `value` holds something.
pub open spec fn or_base(value: Option<Seq<char>>, base: Seq<char>) -> Seq<char> {
    match value {
        Some(v) => v,
        None => base,
    }
}

/// `base` unless `value` holds something that is not empty.
pub open spec fn or_base_if_empty(value: Option<Seq<char>>, base: Seq<char>) -> Seq<char> {
    match value {
        Some(v) => if v.len() > 0 {
            v
        } else {
            base
        },
        None => base,
    }
}

/// `base` with what `tokens` override. The build directory has no flag and
/// stays as it is.
pub open spec fn overridden(base: ConfigView, tokens: Seq<Seq<char>>) -> ConfigView {
    ConfigView {
        template_name: selected_template(base.template_name, tokens),
        project_name: or_base_if_empty(
            resolved(tokens, Parameter::ProjectName.spellings()),
            base.project_name,
        ),
        std: or_base(resolved(tokens, Parameter::Standard.spellings()), base.std),
        cmake_min_version: or_base(
            resolved(tokens, Parameter::CmakeMinVersion.spellings()),
            base.cmake_min_version,
        ),
        build_dir: base.build_dir,
    }
}

/// The name of the project is never empty: the default name is not, and no
/// token list overrides a name with an empty one.
pub proof fn lemma_name_never_empty(base: ConfigView, tokens: Seq<Seq<char>>)
    ensures
        default_config().project_name.len() > 0,
        base.project_name.len() > 0 ==> overridden(base, tokens).project_name.len() > 0,
{
    reveal_strlit("MyProject");
}

impl View for ProjectConfig {
    type V = ConfigView;

    closed spec fn view(&self) -> ConfigView {
        ConfigView {
            template_name: self.template_name@,
            project_name: self.project_name@,
            std: self.std@,
            cmake_min_version: self.cmake_min_version@,
            build_dir: self.build_dir@,
        }
    }
}

impl Default for ProjectConfig {
    /// The configuration that stands when the tokens override nothing.
    fn default() -> (config: Self)
        ensures
            config@ == default_config(),
    {
        proof {
            reveal_strlit("MyProject");
        }
        ProjectConfig {
            template_name: String::from_str("default"),
            project_name: String::from_str("MyProject"),
            std: String::from_str("17"),
            cmake_min_version: String::from_str("3.22"),
            build_dir: String::from_str("./bin"),
        }
    }
}

impl ProjectConfig {
    #[verifier::type_invariant]
    spec fn named(self) -> bool {
        self.project_name@.len() > 0
    }

    /// The configuration that `cmds` resolve to over the defaults.
    pub fn from_tokens(cmds: &[String]) -> (config: Self)
        ensures
            config@ == overridden(default_config(), cmds.deep_view()),
    {
        ProjectConfig::default().apply_overrides(cmds)
    }

    /// This configuration with what `cmds` override.
    pub fn apply_overrides(self, cmds: &[String]) -> (config: Self)
        ensures
            config@ == overridden(self@, cmds.deep_view()),
    {
        proof {
            use_type_invariant(&self);
        }
        let template_name = if cmds.len() < 2 || starts_with_char(cmds[1].as_str(), '-') {
            self.template_name
        } else {
            cmds[1].clone()
        };
        let project_name = match Parameter::ProjectName.resolve(cmds) {
            Some(name) => if name.as_str().unicode_len() > 0 {
                name
            } else {
                self.project_name
            },
            None => self.project_name,
        };
        let std = match Parameter::Standard.resolve(cmds) {
            Some(value) => value,
            None => self.std,
        };
        let cmake_min_version = match Parameter::CmakeMinVersion.resolve(cmds) {
            Some(value) => value,
            None => self.cmake_min_version,
        };
        ProjectConfig {
            template_name,
            project_name,
            std,
            cmake_min_version,
            build_dir: self.build_dir,
        }
    }

    /// The name of the template, as given.
    pub fn template_name(&self) -> (name: &str)
        ensures
            name@ == self@.template_name,
    {
        self.template_name.as_str()
    }

    /// The name of the project.
    pub fn project_name(&self) -> (name: &str)
        ensures
            name@ == self@.project_name,
            name@.len() > 0,
    {
        proof {
            use_type_invariant(self);
        }
        self.project_name.as_str()
    }

    /// The version of the C++ standard.
    pub fn standard(&self) -> (version: &str)
        ensures
            version@ == self@.std,
    {
        self.std.as_str()
    }

    /// The minimal version of CMake.
    pub fn cmake_min_version(&self) -> (version: &str)
        ensures
            version@ == self@.cmake_min_version,
    {
        self.cmake_min_version.as_str()
    }

    /// The directory that the build writes to.
    pub fn build_dir(&self) -> (dir: &str)
        ensures
            dir@ == self@.build_dir,
    {
        self.build_dir.as_str()
    }
}

} // verus!

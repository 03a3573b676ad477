use cpp_scaffold::config::ProjectConfig;
use cpp_scaffold::const_data::{
    DEFAULT_EXE_BUILD_SH, DEFAULT_EXE_CMAKE_LISTS, DEFAULT_LIB_BUILD_SH, DEFAULT_LIB_CMAKE_LISTS,
    DEFAULT_MAIN_SRC, GITIGNORE_SRC,
};
use cpp_scaffold::render::{render, render_text};
use cpp_scaffold::template::{Placeholder, Resource, TemplateId};

fn tokens(words: &[&str]) -> Vec<String> {
    words.iter().map(|w| w.to_string()).collect()
}

fn config(words: &[&str]) -> ProjectConfig {
    ProjectConfig::from_tokens(&tokens(words))
}

const MARKERS: [&str; 5] = [
    "{{project_name}}",
    "{{cmake_min_version}}",
    "{{cpp_standard}}",
    "{{build_dir}}",
    "{{build_dir_name}}",
];

#[test]
fn template_names_select_templates() {
    assert_eq!(TemplateId::from_name("default"), Some(TemplateId::Default));
    assert_eq!(TemplateId::from_name("lib"), Some(TemplateId::Library));
    assert_eq!(TemplateId::from_name("library"), Some(TemplateId::Library));
}

#[test]
fn other_names_select_no_template() {
    assert_eq!(TemplateId::from_name("unknown-template"), None);
    assert_eq!(TemplateId::from_name(""), None);
    assert_eq!(TemplateId::from_name("Default"), None);
    assert_eq!(TemplateId::from_name("LIB"), None);
    assert_eq!(TemplateId::from_name("libs"), None);
    assert_eq!(TemplateId::from_name("exe"), None);
}

#[test]
fn markers_are_in_double_braces() {
    assert_eq!(Placeholder::ProjectName.marker_text(), "{{project_name}}");
    assert_eq!(Placeholder::CmakeMinVersion.marker_text(), "{{cmake_min_version}}");
    assert_eq!(Placeholder::CppStandard.marker_text(), "{{cpp_standard}}");
    assert_eq!(Placeholder::BuildDir.marker_text(), "{{build_dir}}");
    assert_eq!(Placeholder::BuildDirName.marker_text(), "{{build_dir_name}}");
}

#[test]
fn no_marker_is_part_of_another() {
    for a in MARKERS {
        for b in MARKERS {
            if a != b {
                assert!(!a.contains(b));
            }
        }
    }
}

#[test]
fn registry_hands_out_the_resources() {
    let exe = TemplateId::Default;
    let lib = TemplateId::Library;
    assert_eq!(exe.resource(Resource::BuildScript), DEFAULT_EXE_BUILD_SH);
    assert_eq!(exe.resource(Resource::CMakeLists), DEFAULT_EXE_CMAKE_LISTS);
    assert_eq!(lib.resource(Resource::BuildScript), DEFAULT_LIB_BUILD_SH);
    assert_eq!(lib.resource(Resource::CMakeLists), DEFAULT_LIB_CMAKE_LISTS);
    assert_eq!(exe.resource(Resource::MainSource), DEFAULT_MAIN_SRC);
    assert_eq!(lib.resource(Resource::MainSource), DEFAULT_MAIN_SRC);
    assert_eq!(exe.resource(Resource::IgnoreFile), GITIGNORE_SRC);
    assert_eq!(lib.resource(Resource::IgnoreFile), GITIGNORE_SRC);
}

#[test]
fn templates_use_the_placeholders_they_are_meant_to() {
    assert!(DEFAULT_EXE_BUILD_SH.contains("{{build_dir}}"));
    assert!(DEFAULT_EXE_BUILD_SH.contains("{{project_name}}"));
    assert!(!DEFAULT_LIB_BUILD_SH.contains("{{build_dir}}"));
    assert!(DEFAULT_LIB_BUILD_SH.contains("{{project_name}}"));
    for cmake in [DEFAULT_EXE_CMAKE_LISTS, DEFAULT_LIB_CMAKE_LISTS] {
        assert!(cmake.contains("{{project_name}}"));
        assert!(cmake.contains("{{cmake_min_version}}"));
        assert!(cmake.contains("{{cpp_standard}}"));
        assert!(!cmake.contains("{{build_dir}}"));
    }
    assert!(GITIGNORE_SRC.contains("{{build_dir_name}}"));
    for marker in MARKERS {
        assert!(!DEFAULT_MAIN_SRC.contains(marker));
    }
}

const ALL: [Placeholder; 5] = [
    Placeholder::ProjectName,
    Placeholder::CmakeMinVersion,
    Placeholder::CppStandard,
    Placeholder::BuildDir,
    Placeholder::BuildDirName,
];

#[test]
fn each_resource_has_its_own_placeholders() {
    let exe = TemplateId::Default;
    let lib = TemplateId::Library;
    assert_eq!(
        exe.placeholders(Resource::BuildScript),
        [Placeholder::ProjectName, Placeholder::BuildDir]
    );
    assert_eq!(lib.placeholders(Resource::BuildScript), [Placeholder::ProjectName]);
    for id in [exe, lib] {
        assert_eq!(
            id.placeholders(Resource::CMakeLists),
            [Placeholder::ProjectName, Placeholder::CmakeMinVersion, Placeholder::CppStandard]
        );
        assert_eq!(id.placeholders(Resource::MainSource), []);
        assert_eq!(id.placeholders(Resource::IgnoreFile), [Placeholder::BuildDirName]);
    }
}

#[test]
fn render_text_puts_each_value_in_its_place() {
    let config = config(&["new", "-n", "app", "-s", "20", "-c", "3.16"]);
    let text = "{{project_name}}|{{cmake_min_version}}|{{cpp_standard}}|{{build_dir}}|{{build_dir_name}}";
    assert_eq!(render_text(text, &config, &ALL), "app|3.16|20|./bin|bin");
}

#[test]
fn render_text_fills_only_what_it_is_asked_to() {
    let config = config(&["new", "-n", "app", "-s", "20", "-c", "3.16"]);
    let text = "{{project_name}}|{{cmake_min_version}}|{{cpp_standard}}|{{build_dir}}|{{build_dir_name}}";
    assert_eq!(render_text(text, &config, &[]), text);
    assert_eq!(
        render_text(text, &config, &[Placeholder::ProjectName]),
        "app|{{cmake_min_version}}|{{cpp_standard}}|{{build_dir}}|{{build_dir_name}}"
    );
    assert_eq!(
        render_text(text, &config, &[Placeholder::ProjectName, Placeholder::BuildDir]),
        "app|{{cmake_min_version}}|{{cpp_standard}}|./bin|{{build_dir_name}}"
    );
    assert_eq!(
        render_text(text, &config, &[Placeholder::BuildDirName]),
        "{{project_name}}|{{cmake_min_version}}|{{cpp_standard}}|{{build_dir}}|bin"
    );
}

#[test]
fn render_text_fills_repeated_and_adjacent_markers() {
    let config = config(&["new", "-n", "app"]);
    assert_eq!(render_text("{{project_name}}{{project_name}}", &config, &ALL), "appapp");
    assert_eq!(
        render_text("{{cpp_standard}}{{project_name}}{{cpp_standard}}", &config, &ALL),
        "17app17"
    );
}

#[test]
fn render_text_passes_unknown_markers_through() {
    let config = config(&["new", "-n", "app"]);
    assert_eq!(render_text("{{author}} {{project_name}}", &config, &ALL), "{{author}} app");
    assert_eq!(
        render_text("{project_name} {{ project_name }}", &config, &ALL),
        "{project_name} {{ project_name }}"
    );
}

#[test]
fn render_text_leaves_plain_text_alone() {
    let config = config(&["new"]);
    assert_eq!(render_text(DEFAULT_MAIN_SRC, &config, &ALL), DEFAULT_MAIN_SRC);
    assert_eq!(render_text("", &config, &ALL), "");
}

#[test]
fn render_text_works_one_placeholder_after_the_other() {
    let config = config(&["new", "-n", "{{cpp_standard}}", "-s", "20"]);
    let name_then_standard = [Placeholder::ProjectName, Placeholder::CppStandard];
    let standard_then_name = [Placeholder::CppStandard, Placeholder::ProjectName];
    assert_eq!(render_text("{{project_name}}", &config, &name_then_standard), "20");
    assert_eq!(
        render_text("{{project_name}}", &config, &standard_then_name),
        "{{cpp_standard}}"
    );
    let config = config_with_name("{{project_name}}");
    assert_eq!(render_text("{{project_name}}", &config, &ALL), "{{project_name}}");
}

fn config_with_name(name: &str) -> ProjectConfig {
    config(&["new", "-n", name])
}

fn config_with_name_and_standard(name: &str, standard: &str) -> ProjectConfig {
    config(&["new", "-n", name, "-s", standard])
}

#[test]
fn build_script_keeps_a_name_that_looks_like_another_marker() {
    for standard in ["17", "20"] {
        let config = config(&["new", "-n", "{{cpp_standard}}", "-s", standard]);
        let set = render(TemplateId::Default, &config, false);
        let expected = "#!/bin/sh
set -e

cmake -S . -B ./bin
cmake --build ./bin
echo \"Built {{cpp_standard}} in ./bin\"
";
        assert_eq!(set.files[0].content, expected);
    }
}

#[test]
fn build_configuration_fills_name_then_versions() {
    let config = config(&["new", "-n", "{{cpp_standard}}", "-s", "20"]);
    let set = render(TemplateId::Default, &config, false);
    assert!(set.files[1].content.contains("project(20 LANGUAGES CXX)"));
    let odd = config_with_name_and_standard("{{build_dir}}", "{{build_dir_name}}");
    let set = render(TemplateId::Default, &odd, false);
    assert!(set.files[1].content.contains("project({{build_dir}} LANGUAGES CXX)"));
    assert!(set.files[1].content.contains("set(CMAKE_CXX_STANDARD {{build_dir_name}})"));
}

#[test]
fn library_build_script_keeps_a_name_that_names_the_build_directory() {
    for name in ["{{build_dir_name}}", "{{build_dir}}"] {
        let config = config(&["new", "lib", "-n", name]);
        let set = render(TemplateId::Library, &config, true);
        let expected = format!(
            "#!/bin/sh
set -e

cmake -S . -B build
cmake --build build
echo \"Built library {}\"
",
            name
        );
        assert_eq!(set.files[0].content, expected);
    }
}

#[test]
fn ignore_file_reads_the_build_directory_alone() {
    let plain = config(&["new"]);
    let odd = config(&["new", "-n", "{{build_dir_name}}", "-s", "{{build_dir_name}}"]);
    let one = render(TemplateId::Default, &plain, true).ignore_file.expect("ignore file");
    let other = render(TemplateId::Default, &odd, true).ignore_file.expect("ignore file");
    assert_eq!(one.content, other.content);
}

#[test]
fn default_cmake_lists_rendered_exactly() {
    let config = config(&["new", "-n", "app", "-s", "20", "-c", "3.16"]);
    let set = render(TemplateId::Default, &config, false);
    let expected = "cmake_minimum_required(VERSION 3.16)

project(app LANGUAGES CXX)

set(CMAKE_CXX_STANDARD 20)
set(CMAKE_CXX_STANDARD_REQUIRED ON)
set(CMAKE_CXX_EXTENSIONS OFF)

add_executable(app src/main.cpp)
";
    assert_eq!(set.files[1].path, "CMakeLists.txt");
    assert_eq!(set.files[1].content, expected);
}

#[test]
fn default_build_script_rendered_exactly() {
    let config = config(&["new", "-n", "app"]);
    let set = render(TemplateId::Default, &config, false);
    let expected = "#!/bin/sh
set -e

cmake -S . -B ./bin
cmake --build ./bin
echo \"Built app in ./bin\"
";
    assert_eq!(set.files[0].path, "build.sh");
    assert_eq!(set.files[0].content, expected);
}

#[test]
fn library_files_rendered_exactly() {
    let config = config(&["new", "lib", "-n", "core", "-s", "14", "-c", "3.10"]);
    let set = render(TemplateId::Library, &config, false);
    let script = "#!/bin/sh
set -e

cmake -S . -B build
cmake --build build
echo \"Built library core\"
";
    let cmake = "cmake_minimum_required(VERSION 3.10)

project(core LANGUAGES CXX)

set(CMAKE_CXX_STANDARD 14)
set(CMAKE_CXX_STANDARD_REQUIRED ON)
set(CMAKE_CXX_EXTENSIONS OFF)

add_library(core STATIC src/main.cpp)
target_include_directories(core PUBLIC src)
";
    assert_eq!(set.files[0].content, script);
    assert_eq!(set.files[1].content, cmake);
}

#[test]
fn ignore_file_names_the_build_directory_without_dot_slash() {
    let config = config(&["new"]);
    let set = render(TemplateId::Default, &config, true);
    let ignore = set.ignore_file.expect("ignore file");
    let expected = "# Build output
bin/
build/

# Editor and system files
.vscode/
.idea/
.DS_Store
";
    assert_eq!(ignore.path, ".gitignore");
    assert_eq!(ignore.content, expected);
}

#[test]
fn standard_flag_reaches_the_build_configuration() {
    let config = config(&["new", "-s", "20"]);
    let set = render(TemplateId::Default, &config, false);
    let cmake = &set.files[1].content;
    assert!(cmake.contains("set(CMAKE_CXX_STANDARD 20)"));
    assert!(!cmake.contains("17"));
}

#[test]
fn starter_source_is_the_same_for_every_template() {
    let config = config(&["new", "-n", "app"]);
    for id in [TemplateId::Default, TemplateId::Library] {
        let set = render(id, &config, false);
        assert_eq!(set.files[2].path, "src/main.cpp");
        assert_eq!(set.files[2].content, DEFAULT_MAIN_SRC);
    }
}

#[test]
fn no_marker_is_left_in_any_rendered_file() {
    let configs = [
        config(&["new"]),
        config(&["new", "-n", "app", "-s", "20", "-c", "3.16"]),
        config(&["new", "-n", "my project", "-s", "", "-c", ""]),
        config(&["new", "-n", "project_name", "-s", "cpp_standard", "-c", "}}"]),
    ];
    for config in &configs {
        for id in [TemplateId::Default, TemplateId::Library] {
            let set = render(id, config, true);
            let ignore = set.ignore_file.as_ref().expect("ignore file");
            let mut contents: Vec<&String> = set.files.iter().map(|f| &f.content).collect();
            contents.push(&ignore.content);
            for content in contents {
                for marker in MARKERS {
                    assert!(!content.contains(marker));
                }
            }
        }
    }
}

#[test]
fn default_set_has_five_entries_and_six_with_version_control() {
    let config = config(&["new"]);
    let set = render(TemplateId::Default, &config, false);
    let paths: Vec<&str> = set.files.iter().map(|f| f.path.as_str()).collect();
    assert_eq!(paths, ["build.sh", "CMakeLists.txt", "src/main.cpp"]);
    assert_eq!(set.dirs, ["external/lib/win", "external/lib/linux"]);
    assert!(set.ignore_file.is_none());
    assert_eq!(set.files.len() + set.dirs.len(), 5);

    let set = render(TemplateId::Default, &config, true);
    let paths: Vec<&str> = set.files.iter().map(|f| f.path.as_str()).collect();
    assert_eq!(paths, ["build.sh", "CMakeLists.txt", "src/main.cpp"]);
    assert_eq!(set.dirs, ["external/lib/win", "external/lib/linux"]);
    assert_eq!(set.ignore_file.as_ref().map(|f| f.path.as_str()), Some(".gitignore"));
    assert_eq!(set.files.len() + set.dirs.len() + set.ignore_file.iter().count(), 6);
}

#[test]
fn library_differs_from_default_and_has_no_build_dir() {
    let config = config(&["new", "library", "-n", "core"]);
    let exe = render(TemplateId::Default, &config, false);
    let lib = render(TemplateId::Library, &config, false);
    assert_eq!(exe.files[0].path, lib.files[0].path);
    assert_eq!(exe.files[1].path, lib.files[1].path);
    assert_ne!(exe.files[0].content, lib.files[0].content);
    assert_ne!(exe.files[1].content, lib.files[1].content);
    assert!(!lib.files[0].content.contains("{{build_dir}}"));
    assert!(!lib.files[1].content.contains("{{build_dir}}"));
    assert!(!lib.files[0].content.contains("./bin"));
    assert!(lib.files[1].content.contains("add_library(core"));
    assert!(exe.files[1].content.contains("add_executable(core"));
}

//! The text of the project templates. A marker in double braces stands where
//! a value of the configuration goes.

use vstd::prelude::*;

verus! {

/// Build script of an executable project.
pub const DEFAULT_EXE_BUILD_SH: &'static str = "#!/bin/sh
set -e

cmake -S . -B {{build_dir}}
cmake --build {{build_dir}}
echo \"Built {{project_name}} in {{build_dir}}\"
";

/// Build configuration of an executable project.
pub const DEFAULT_EXE_CMAKE_LISTS: &'static str = "cmake_minimum_required(VERSION {{cmake_min_version}})

project({{project_name}} LANGUAGES CXX)

set(CMAKE_CXX_STANDARD {{cpp_standard}})
set(CMAKE_CXX_STANDARD_REQUIRED ON)
set(CMAKE_CXX_EXTENSIONS OFF)

add_executable({{project_name}} src/main.cpp)
";

/// Build script of a library project. It builds into a fixed directory.
pub const DEFAULT_LIB_BUILD_SH: &'static str = "#!/bin/sh
set -e

cmake -S . -B build
cmake --build build
echo \"Built library {{project_name}}\"
";

/// Build configuration of a library project.
pub const DEFAULT_LIB_CMAKE_LISTS: &'static str = "cmake_minimum_required(VERSION {{cmake_min_version}})

project({{project_name}} LANGUAGES CXX)

set(CMAKE_CXX_STANDARD {{cpp_standard}})
set(CMAKE_CXX_STANDARD_REQUIRED ON)
set(CMAKE_CXX_EXTENSIONS OFF)

add_library({{project_name}} STATIC src/main.cpp)
target_include_directories({{project_name}} PUBLIC src)
";

/// Starter source file, the same for every template.
pub const DEFAULT_MAIN_SRC: &'static str = "#include <iostream>

int main() {
    std::cout << \"Hello, World!\" << std::endl;
    return 0;
}
";

/// Ignore file of the version-control system.
pub const GITIGNORE_SRC: &'static str = "# Build output
{{build_dir_name}}/
build/

# Editor and system files
.vscode/
.idea/
.DS_Store
";

} // verus!

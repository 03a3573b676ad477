//! The templates of the registry, read as pieces.
//!
//! Each template's text is cut at its markers, and the cut is proved to give
//! back the text. The literal pieces keep the holes apart, and every hole is
//! one of a placeholder that its resource is rendered with. So rendering a
//! resource of the registry fills its holes and leaves no marker behind,
//! unless a value that goes into it holds two opening braces in a row.

use crate::config::ConfigView;
use crate::const_data::{
    DEFAULT_EXE_BUILD_SH, DEFAULT_EXE_CMAKE_LISTS, DEFAULT_LIB_BUILD_SH, DEFAULT_LIB_CMAKE_LISTS,
    DEFAULT_MAIN_SRC, GITIGNORE_SRC,
};
use crate::pieces::{
    filled, holes_within, lemma_render_fills_all_holes, lemma_render_reads_its_placeholders,
    members, pieces_apart, template_text, values_fit, Piece,
};
use crate::render::{content_of, value_of};
use crate::template::{placeholders_of, resource_text, Placeholder, Resource, TemplateId};
use crate::text::occurs;
use vstd::prelude::*;

verus! {

/// The pieces of the build script of an executable.
pub open spec fn exe_build_sh_pieces() -> Seq<Piece> {
    seq![
        Piece::Text("#!/bin/sh\nset -e\n\ncmake -S . -B "@),
        Piece::Hole(Placeholder::BuildDir),
        Piece::Text("\ncmake --build "@),
        Piece::Hole(Placeholder::BuildDir),
        Piece::Text("\necho \"Built "@),
        Piece::Hole(Placeholder::ProjectName),
        Piece::Text(" in "@),
        Piece::Hole(Placeholder::BuildDir),
        Piece::Text("\"\n"@),
    ]
}

/// The pieces of the build configuration of an executable.
pub open spec fn exe_cmake_lists_pieces() -> Seq<Piece> {
    seq![
        Piece::Text("cmake_minimum_required(VERSION "@),
        Piece::Hole(Placeholder::CmakeMinVersion),
        Piece::Text(")\n\nproject("@),
        Piece::Hole(Placeholder::ProjectName),
        Piece::Text(" LANGUAGES CXX)\n\nset(CMAKE_CXX_STANDARD "@),
        Piece::Hole(Placeholder::CppStandard),
        Piece::Text(")\nset(CMAKE_CXX_STANDARD_REQUIRED ON)\nset(CMAKE_CXX_EXTENSIONS OFF)\n\nadd_executable("@),
        Piece::Hole(Placeholder::ProjectName),
        Piece::Text(" src/main.cpp)\n"@),
    ]
}

/// The pieces of the build script of a library.
pub open spec fn lib_build_sh_pieces() -> Seq<Piece> {
    seq![
        Piece::Text("#!/bin/sh\nset -e\n\ncmake -S . -B build\ncmake --build build\necho \"Built library "@),
        Piece::Hole(Placeholder::ProjectName),
        Piece::Text("\"\n"@),
    ]
}

/// The pieces of the build configuration of a library.
pub open spec fn lib_cmake_lists_pieces() -> Seq<Piece> {
    seq![
        Piece::Text("cmake_minimum_required(VERSION "@),
        Piece::Hole(Placeholder::CmakeMinVersion),
        Piece::Text(")\n\nproject("@),
        Piece::Hole(Placeholder::ProjectName),
        Piece::Text(" LANGUAGES CXX)\n\nset(CMAKE_CXX_STANDARD "@),
        Piece::Hole(Placeholder::CppStandard),
        Piece::Text(")\nset(CMAKE_CXX_STANDARD_REQUIRED ON)\nset(CMAKE_CXX_EXTENSIONS OFF)\n\nadd_library("@),
        Piece::Hole(Placeholder::ProjectName),
        Piece::Text(" STATIC src/main.cpp)\ntarget_include_directories("@),
        Piece::Hole(Placeholder::ProjectName),
        Piece::Text(" PUBLIC src)\n"@),
    ]
}

/// The pieces of the starter source.
pub open spec fn main_src_pieces() -> Seq<Piece> {
    seq![
        Piece::Text("#include <iostream>\n\nint main() {\n    std::cout << \"Hello, World!\" << std::endl;\n    return 0;\n}\n"@),
    ]
}

/// The pieces of the ignore file.
pub open spec fn gitignore_pieces() -> Seq<Piece> {
    seq![
        Piece::Text("# Build output\n"@),
        Piece::Hole(Placeholder::BuildDirName),
        Piece::Text("/\nbuild/\n\n# Editor and system files\n.vscode/\n.idea/\n.DS_Store\n"@),
    ]
}

/// The pieces of resource `res` of template `id`.
pub open spec fn resource_pieces(id: TemplateId, res: Resource) -> Seq<Piece> {
    match (id, res) {
        (TemplateId::Default, Resource::BuildScript) => exe_build_sh_pieces(),
        (TemplateId::Default, Resource::CMakeLists) => exe_cmake_lists_pieces(),
        (TemplateId::Library, Resource::BuildScript) => lib_build_sh_pieces(),
        (TemplateId::Library, Resource::CMakeLists) => lib_cmake_lists_pieces(),
        (_, Resource::MainSource) => main_src_pieces(),
        (_, Resource::IgnoreFile) => gitignore_pieces(),
    }
}

proof fn lemma_exe_build_sh_pieces()
    ensures
        DEFAULT_EXE_BUILD_SH@ == template_text(exe_build_sh_pieces()),
        pieces_apart(exe_build_sh_pieces()),
        holes_within(exe_build_sh_pieces(), members(placeholders_of(TemplateId::Default, Resource::BuildScript))),
{
    reveal_strlit("#!/bin/sh\nset -e\n\ncmake -S . -B {{build_dir}}\ncmake --build {{build_dir}}\necho \"Built {{project_name}} in {{build_dir}}\"\n");
    reveal_strlit("#!/bin/sh\nset -e\n\ncmake -S . -B ");
    reveal_strlit("{{build_dir}}");
    reveal_strlit("\ncmake --build ");
    reveal_strlit("\necho \"Built ");
    reveal_strlit("{{project_name}}");
    reveal_strlit(" in ");
    reveal_strlit("\"\n");
    reveal_with_fuel(template_text, 10);
    let pieces = exe_build_sh_pieces();
    let order = placeholders_of(TemplateId::Default, Resource::BuildScript);
    assert(pieces.drop_first().drop_first().drop_first().drop_first().drop_first().drop_first().drop_first().drop_first().drop_first() =~= Seq::<Piece>::empty());
    assert(DEFAULT_EXE_BUILD_SH@ =~= template_text(pieces));
    assert(order.contains(Placeholder::BuildDir)) by {
        assert(order[1] == Placeholder::BuildDir);
    }
    assert(order.contains(Placeholder::ProjectName)) by {
        assert(order[0] == Placeholder::ProjectName);
    }
}

proof fn lemma_exe_cmake_lists_pieces()
    ensures
        DEFAULT_EXE_CMAKE_LISTS@ == template_text(exe_cmake_lists_pieces()),
        pieces_apart(exe_cmake_lists_pieces()),
        holes_within(exe_cmake_lists_pieces(), members(placeholders_of(TemplateId::Default, Resource::CMakeLists))),
{
    reveal_strlit("cmake_minimum_required(VERSION {{cmake_min_version}})\n\nproject({{project_name}} LANGUAGES CXX)\n\nset(CMAKE_CXX_STANDARD {{cpp_standard}})\nset(CMAKE_CXX_STANDARD_REQUIRED ON)\nset(CMAKE_CXX_EXTENSIONS OFF)\n\nadd_executable({{project_name}} src/main.cpp)\n");
    reveal_strlit("cmake_minimum_required(VERSION ");
    reveal_strlit("{{cmake_min_version}}");
    reveal_strlit(")\n\nproject(");
    reveal_strlit("{{project_name}}");
    reveal_strlit(" LANGUAGES CXX)\n\nset(CMAKE_CXX_STANDARD ");
    reveal_strlit("{{cpp_standard}}");
    reveal_strlit(")\nset(CMAKE_CXX_STANDARD_REQUIRED ON)\nset(CMAKE_CXX_EXTENSIONS OFF)\n\nadd_executable(");
    reveal_strlit(" src/main.cpp)\n");
    reveal_with_fuel(template_text, 10);
    let pieces = exe_cmake_lists_pieces();
    let order = placeholders_of(TemplateId::Default, Resource::CMakeLists);
    assert(pieces.drop_first().drop_first().drop_first().drop_first().drop_first().drop_first().drop_first().drop_first().drop_first() =~= Seq::<Piece>::empty());
    assert(DEFAULT_EXE_CMAKE_LISTS@ =~= template_text(pieces));
    assert(order.contains(Placeholder::CmakeMinVersion)) by {
        assert(order[1] == Placeholder::CmakeMinVersion);
    }
    assert(order.contains(Placeholder::ProjectName)) by {
        assert(order[0] == Placeholder::ProjectName);
    }
    assert(order.contains(Placeholder::CppStandard)) by {
        assert(order[2] == Placeholder::CppStandard);
    }
}

proof fn lemma_lib_build_sh_pieces()
    ensures
        DEFAULT_LIB_BUILD_SH@ == template_text(lib_build_sh_pieces()),
        pieces_apart(lib_build_sh_pieces()),
        holes_within(lib_build_sh_pieces(), members(placeholders_of(TemplateId::Library, Resource::BuildScript))),
{
    reveal_strlit("#!/bin/sh\nset -e\n\ncmake -S . -B build\ncmake --build build\necho \"Built library {{project_name}}\"\n");
    reveal_strlit("#!/bin/sh\nset -e\n\ncmake -S . -B build\ncmake --build build\necho \"Built library ");
    reveal_strlit("{{project_name}}");
    reveal_strlit("\"\n");
    reveal_with_fuel(template_text, 4);
    let pieces = lib_build_sh_pieces();
    let order = placeholders_of(TemplateId::Library, Resource::BuildScript);
    assert(pieces.drop_first().drop_first().drop_first() =~= Seq::<Piece>::empty());
    assert(DEFAULT_LIB_BUILD_SH@ =~= template_text(pieces));
    assert(order.contains(Placeholder::ProjectName)) by {
        assert(order[0] == Placeholder::ProjectName);
    }
}

proof fn lemma_lib_cmake_lists_pieces()
    ensures
        DEFAULT_LIB_CMAKE_LISTS@ == template_text(lib_cmake_lists_pieces()),
        pieces_apart(lib_cmake_lists_pieces()),
        holes_within(lib_cmake_lists_pieces(), members(placeholders_of(TemplateId::Library, Resource::CMakeLists))),
{
    reveal_strlit("cmake_minimum_required(VERSION {{cmake_min_version}})\n\nproject({{project_name}} LANGUAGES CXX)\n\nset(CMAKE_CXX_STANDARD {{cpp_standard}})\nset(CMAKE_CXX_STANDARD_REQUIRED ON)\nset(CMAKE_CXX_EXTENSIONS OFF)\n\nadd_library({{project_name}} STATIC src/main.cpp)\ntarget_include_directories({{project_name}} PUBLIC src)\n");
    reveal_strlit("cmake_minimum_required(VERSION ");
    reveal_strlit("{{cmake_min_version}}");
    reveal_strlit(")\n\nproject(");
    reveal_strlit("{{project_name}}");
    reveal_strlit(" LANGUAGES CXX)\n\nset(CMAKE_CXX_STANDARD ");
    reveal_strlit("{{cpp_standard}}");
    reveal_strlit(")\nset(CMAKE_CXX_STANDARD_REQUIRED ON)\nset(CMAKE_CXX_EXTENSIONS OFF)\n\nadd_library(");
    reveal_strlit(" STATIC src/main.cpp)\ntarget_include_directories(");
    reveal_strlit(" PUBLIC src)\n");
    reveal_with_fuel(template_text, 12);
    let pieces = lib_cmake_lists_pieces();
    let order = placeholders_of(TemplateId::Library, Resource::CMakeLists);
    assert(pieces.drop_first().drop_first().drop_first().drop_first().drop_first().drop_first().drop_first().drop_first().drop_first().drop_first().drop_first() =~= Seq::<Piece>::empty());
    assert(DEFAULT_LIB_CMAKE_LISTS@ =~= template_text(pieces));
    assert(order.contains(Placeholder::CmakeMinVersion)) by {
        assert(order[1] == Placeholder::CmakeMinVersion);
    }
    assert(order.contains(Placeholder::ProjectName)) by {
        assert(order[0] == Placeholder::ProjectName);
    }
    assert(order.contains(Placeholder::CppStandard)) by {
        assert(order[2] == Placeholder::CppStandard);
    }
}

proof fn lemma_main_src_pieces()
    ensures
        DEFAULT_MAIN_SRC@ == template_text(main_src_pieces()),
        pieces_apart(main_src_pieces()),
        holes_within(main_src_pieces(), members(placeholders_of(TemplateId::Default, Resource::MainSource))),
{
    reveal_strlit("#include <iostream>\n\nint main() {\n    std::cout << \"Hello, World!\" << std::endl;\n    return 0;\n}\n");
    reveal_with_fuel(template_text, 2);
    let pieces = main_src_pieces();
    let order = placeholders_of(TemplateId::Default, Resource::MainSource);
    assert(pieces.drop_first() =~= Seq::<Piece>::empty());
    assert(DEFAULT_MAIN_SRC@ =~= template_text(pieces));
}

proof fn lemma_gitignore_pieces()
    ensures
        GITIGNORE_SRC@ == template_text(gitignore_pieces()),
        pieces_apart(gitignore_pieces()),
        holes_within(gitignore_pieces(), members(placeholders_of(TemplateId::Default, Resource::IgnoreFile))),
{
    reveal_strlit("# Build output\n{{build_dir_name}}/\nbuild/\n\n# Editor and system files\n.vscode/\n.idea/\n.DS_Store\n");
    reveal_strlit("# Build output\n");
    reveal_strlit("{{build_dir_name}}");
    reveal_strlit("/\nbuild/\n\n# Editor and system files\n.vscode/\n.idea/\n.DS_Store\n");
    reveal_with_fuel(template_text, 4);
    let pieces = gitignore_pieces();
    let order = placeholders_of(TemplateId::Default, Resource::IgnoreFile);
    assert(pieces.drop_first().drop_first().drop_first() =~= Seq::<Piece>::empty());
    assert(GITIGNORE_SRC@ =~= template_text(pieces));
    assert(order.contains(Placeholder::BuildDirName)) by {
        assert(order[0] == Placeholder::BuildDirName);
    }
}

/// The cut of each template gives back its text, its literal pieces keep
/// the holes apart, and each of its holes is one of a placeholder that the
/// resource is rendered with.
pub proof fn lemma_resource_pieces(id: TemplateId, res: Resource)
    ensures
        resource_text(id, res) == template_text(resource_pieces(id, res)),
        pieces_apart(resource_pieces(id, res)),
        holes_within(resource_pieces(id, res), members(placeholders_of(id, res))),
{
    lemma_exe_build_sh_pieces();
    lemma_exe_cmake_lists_pieces();
    lemma_lib_build_sh_pieces();
    lemma_lib_cmake_lists_pieces();
    lemma_main_src_pieces();
    lemma_gitignore_pieces();
}

/// Rendering a resource of the registry gives its literal pieces with each
/// marker replaced by exactly the value of its placeholder, and no marker of
/// any placeholder is left in the rendered text. This holds where no value
/// that goes into the resource holds two opening braces in a row.
pub proof fn lemma_registry_renders_clean(id: TemplateId, res: Resource, cfg: ConfigView)
    requires
        values_fit(cfg, members(placeholders_of(id, res))),
    ensures
        content_of(id, res, cfg) == filled(resource_pieces(id, res), cfg),
        forall|p: Placeholder| !occurs(content_of(id, res, cfg), #[trigger] p.marker()),
{
    lemma_resource_pieces(id, res);
    lemma_render_fills_all_holes(resource_pieces(id, res), cfg, placeholders_of(id, res));
}

/// A resource reads no value but those of its own placeholders: two
/// configurations that agree on them give the same text.
pub proof fn lemma_content_reads_its_placeholders(
    id: TemplateId,
    res: Resource,
    one: ConfigView,
    other: ConfigView,
)
    requires
        forall|p: Placeholder|
            placeholders_of(id, res).contains(p) ==> #[trigger] value_of(one, p) == value_of(
                other,
                p,
            ),
    ensures
        content_of(id, res, one) == content_of(id, res, other),
{
    lemma_render_reads_its_placeholders(
        resource_text(id, res),
        one,
        other,
        placeholders_of(id, res),
    );
}

/// The build directory is nothing to a library: its build script reads the
/// name of the project alone, and its build configuration the name and the
/// two versions.
pub proof fn lemma_library_ignores_build_dir(one: ConfigView, other: ConfigView)
    ensures
        one.project_name == other.project_name ==> content_of(
            TemplateId::Library,
            Resource::BuildScript,
            one,
        ) == content_of(TemplateId::Library, Resource::BuildScript, other),
        one.project_name == other.project_name && one.cmake_min_version
            == other.cmake_min_version && one.std == other.std ==> content_of(
            TemplateId::Library,
            Resource::CMakeLists,
            one,
        ) == content_of(TemplateId::Library, Resource::CMakeLists, other),
{
    if one.project_name == other.project_name {
        lemma_content_reads_its_placeholders(
            TemplateId::Library,
            Resource::BuildScript,
            one,
            other,
        );
        if one.cmake_min_version == other.cmake_min_version && one.std == other.std {
            lemma_content_reads_its_placeholders(
                TemplateId::Library,
                Resource::CMakeLists,
                one,
                other,
            );
        }
    }
}

/// The build script of a library is never that of an executable with the
/// same values: the two differ in length, whatever the name and the build
/// directory are, as long as neither holds two opening braces in a row.
pub proof fn lemma_library_build_script_differs(cfg: ConfigView)
    requires
        values_fit(cfg, members(placeholders_of(TemplateId::Default, Resource::BuildScript))),
    ensures
        content_of(TemplateId::Library, Resource::BuildScript, cfg) != content_of(
            TemplateId::Default,
            Resource::BuildScript,
            cfg,
        ),
{
    let exe_order = placeholders_of(TemplateId::Default, Resource::BuildScript);
    let lib_order = placeholders_of(TemplateId::Library, Resource::BuildScript);
    assert(exe_order[0] == Placeholder::ProjectName);
    assert forall|p: Placeholder| members(lib_order).contains(p) implies members(
        exe_order,
    ).contains(p) by {
        assert(lib_order[0] == Placeholder::ProjectName);
    }
    lemma_registry_renders_clean(TemplateId::Default, Resource::BuildScript, cfg);
    lemma_registry_renders_clean(TemplateId::Library, Resource::BuildScript, cfg);
    reveal_strlit("#!/bin/sh\nset -e\n\ncmake -S . -B ");
    reveal_strlit("\ncmake --build ");
    reveal_strlit("\necho \"Built ");
    reveal_strlit(" in ");
    reveal_strlit("\"\n");
    reveal_strlit(
        "#!/bin/sh\nset -e\n\ncmake -S . -B build\ncmake --build build\necho \"Built library ",
    );
    reveal_with_fuel(filled, 10);
    let exe = exe_build_sh_pieces();
    let lib = lib_build_sh_pieces();
    let name = cfg.project_name.len();
    let dir = cfg.build_dir.len();
    let exe_tail = exe.drop_first().drop_first().drop_first().drop_first().drop_first();
    assert(exe_tail.drop_first().drop_first().drop_first().drop_first() =~= Seq::<Piece>::empty());
    assert(lib.drop_first().drop_first().drop_first() =~= Seq::<Piece>::empty());
    assert(filled(exe, cfg).len() == 66 + 3 * dir + name);
    assert(filled(lib, cfg).len() == 80 + name);
}

/// The build configuration of a library is never that of an executable with
/// the same values: behind what the two have in common the one adds an
/// executable and the other a library, whatever the name and the versions
/// are, as long as none of them holds two opening braces in a row.
pub proof fn lemma_library_cmake_lists_differs(cfg: ConfigView)
    requires
        values_fit(cfg, members(placeholders_of(TemplateId::Default, Resource::CMakeLists))),
    ensures
        content_of(TemplateId::Library, Resource::CMakeLists, cfg) != content_of(
            TemplateId::Default,
            Resource::CMakeLists,
            cfg,
        ),
{
    lemma_registry_renders_clean(TemplateId::Default, Resource::CMakeLists, cfg);
    lemma_registry_renders_clean(TemplateId::Library, Resource::CMakeLists, cfg);
    reveal_strlit("cmake_minimum_required(VERSION ");
    reveal_strlit(")\n\nproject(");
    reveal_strlit(" LANGUAGES CXX)\n\nset(CMAKE_CXX_STANDARD ");
    reveal_strlit(
        ")\nset(CMAKE_CXX_STANDARD_REQUIRED ON)\nset(CMAKE_CXX_EXTENSIONS OFF)\n\nadd_executable(",
    );
    reveal_strlit(
        ")\nset(CMAKE_CXX_STANDARD_REQUIRED ON)\nset(CMAKE_CXX_EXTENSIONS OFF)\n\nadd_library(",
    );
    reveal_with_fuel(filled, 8);
    let exe = filled(exe_cmake_lists_pieces(), cfg);
    let lib = filled(lib_cmake_lists_pieces(), cfg);
    let common = "cmake_minimum_required(VERSION "@ + cfg.cmake_min_version + ")\n\nproject("@
        + cfg.project_name + " LANGUAGES CXX)\n\nset(CMAKE_CXX_STANDARD "@ + cfg.std;
    let at = common.len() as int + 73;
    assert(exe.subrange(0, common.len() as int) =~= common);
    assert(lib.subrange(0, common.len() as int) =~= common);
    assert(exe[at] == 'e');
    assert(lib[at] == 'l');
}

} // verus!

//! Bindings assembly and the write plan.
//!
//! Rendering itself is an external collaborator: the caller renders the
//! bridging header, the wrapper source and the module map and hands the
//! outcomes in as plain values (`None` for a template failure).  This module
//! assembles them, plans exactly which directory to create and which three
//! files to write where, and tags every failure with the artifact concerned.

use vstd::prelude::*;
use crate::errors::{Artifact, BindingsError};
use crate::paths::{
    directly_inside, fs_safe_name, header_path, lemma_layout_isolation, module_dir_path,
    module_map_path, plan_layout, source_path,
};

verus! {

/// One planned file write: the full path and the bytes to put there.
pub struct FileWrite {
    pub path: String,
    pub contents: String,
}

/// The planned effect of one writer run: the directory to create (with any
/// missing parents) and the three file writes, in order.  Each write
/// truncates or creates its file.
pub struct WritePlan {
    pub module_dir: String,
    pub writes: Vec<FileWrite>,
}

/// `plan` is the write plan for `out` and `ns` with the given rendered
/// texts: the module directory, then the header, the module map and the
/// wrapper source at their planned paths.
pub open spec fn write_plan_matches(
    plan: WritePlan,
    out: Seq<char>,
    ns: Seq<char>,
    header: Seq<char>,
    library: Seq<char>,
    module_map: Seq<char>,
) -> bool {
    &&& plan.module_dir@ == module_dir_path(out, ns)
    &&& plan.writes@.len() == 3
    &&& plan.writes@[0].path@ == header_path(out, ns)
    &&& plan.writes@[0].contents@ == header
    &&& plan.writes@[1].path@ == module_map_path(out, ns)
    &&& plan.writes@[1].contents@ == module_map
    &&& plan.writes@[2].path@ == source_path(out, ns)
    &&& plan.writes@[2].contents@ == library
}

/// The two in-memory binding artifacts, no identity beyond one render call.
pub struct Bindings {
    pub header: String,
    pub library: String,
}

/// Assembles the bindings from the outcomes of the header and wrapper-source
/// renders.  A missing header outcome is reported first, as the header is
/// rendered first.
pub fn generate_bindings(header: Option<String>, library: Option<String>) -> (r: Result<
    Bindings,
    BindingsError,
>)
    ensures
        header is Some && library is Some ==> (r matches Ok(b) && b.header@ == header->0@
            && b.library@ == library->0@),
        header is None ==> (r matches Err(e) && e == BindingsError::Render(Artifact::Header)),
        header is Some && library is None ==> (r matches Err(e) && e == BindingsError::Render(
            Artifact::Library,
        )),
{
    match header {
        None => Err(BindingsError::Render(Artifact::Header)),
        Some(h) => match library {
            None => Err(BindingsError::Render(Artifact::Library)),
            Some(l) => Ok(Bindings { header: h, library: l }),
        },
    }
}

/// The header path that the module-map render must be given: the module map
/// has to reference the header by its final planned location.
pub fn module_map_render_input(namespace: &str, out_dir: &str) -> (p: String)
    ensures
        p@ == header_path(out_dir@, namespace@),
{
    let layout = plan_layout(out_dir, namespace);
    layout.header_file
}

/// Plans the whole write: which directory to create and which three files to
/// write, in order, with their contents.  `header` and `library` are the
/// outcomes of the two binding renders, `module_map` the outcome of the
/// module-map render (made against [`module_map_render_input`]).  Any failed
/// render aborts the plan with the artifact's tag; nothing is written then.
pub fn write_bindings(
    namespace: &str,
    out_dir: &str,
    header: Option<String>,
    library: Option<String>,
    module_map: Option<String>,
) -> (r: Result<WritePlan, BindingsError>)
    ensures
        header is None ==> (r matches Err(e) && e == BindingsError::Render(Artifact::Header)),
        header is Some && library is None ==> (r matches Err(e) && e == BindingsError::Render(
            Artifact::Library,
        )),
        header is Some && library is Some && module_map is None ==> (r matches Err(e) && e
            == BindingsError::Render(Artifact::ModuleMap)),
        header is Some && library is Some && module_map is Some ==> (r matches Ok(plan)
            && write_plan_matches(
            plan,
            out_dir@,
            namespace@,
            header->0@,
            library->0@,
            module_map->0@,
        )),
{
    let bindings = match generate_bindings(header, library) {
        Ok(b) => b,
        Err(e) => {
            return Err(e);
        },
    };
    let map_text = match module_map {
        None => {
            return Err(BindingsError::Render(Artifact::ModuleMap));
        },
        Some(m) => m,
    };
    let layout = plan_layout(out_dir, namespace);
    let mut writes: Vec<FileWrite> = Vec::new();
    writes.push(FileWrite { path: layout.header_file, contents: bindings.header });
    writes.push(FileWrite { path: layout.module_map_file, contents: map_text });
    writes.push(FileWrite { path: layout.source_file, contents: bindings.library });
    Ok(WritePlan { module_dir: layout.module_dir, writes })
}

/// Law: a write plan for a separator-free namespace creates exactly one
/// directory, directly under the output root, and writes exactly three
/// files: the header and the module map directly inside that directory and
/// the wrapper source directly under the output root, at pairwise distinct
/// paths.
pub proof fn lemma_write_plan_isolation(
    plan: WritePlan,
    out: Seq<char>,
    ns: Seq<char>,
    header: Seq<char>,
    library: Seq<char>,
    module_map: Seq<char>,
)
    requires
        fs_safe_name(ns),
        write_plan_matches(plan, out, ns, header, library, module_map),
    ensures
        directly_inside(plan.module_dir@, out),
        plan.writes@.len() == 3,
        directly_inside(plan.writes@[0].path@, plan.module_dir@),
        directly_inside(plan.writes@[1].path@, plan.module_dir@),
        directly_inside(plan.writes@[2].path@, out),
        plan.writes@[0].path@ != plan.writes@[1].path@,
        plan.writes@[0].path@ != plan.writes@[2].path@,
        plan.writes@[1].path@ != plan.writes@[2].path@,
        plan.writes@[2].path@ != plan.module_dir@,
{
    lemma_layout_isolation(out, ns);
}

/// Law: the write plan is a function of its inputs alone.  Two plans built
/// from the same namespace, output directory and rendered texts create the
/// same directory and write byte-for-byte the same contents to the same
/// paths, so re-running the writer with unchanged inputs overwrites each
/// file with identical bytes.
pub proof fn lemma_write_plan_deterministic(
    p1: WritePlan,
    p2: WritePlan,
    out: Seq<char>,
    ns: Seq<char>,
    header: Seq<char>,
    library: Seq<char>,
    module_map: Seq<char>,
)
    requires
        write_plan_matches(p1, out, ns, header, library, module_map),
        write_plan_matches(p2, out, ns, header, library, module_map),
    ensures
        p1.module_dir@ == p2.module_dir@,
        p1.writes@.len() == p2.writes@.len(),
        forall|i: int|
            0 <= i < p1.writes@.len() ==> p1.writes@[i].path@ == p2.writes@[i].path@
                && p1.writes@[i].contents@ == p2.writes@[i].contents@,
{
    assert forall|i: int| 0 <= i < p1.writes@.len() implies p1.writes@[i].path@
        == p2.writes@[i].path@ && p1.writes@[i].contents@ == p2.writes@[i].contents@ by {
        if i == 0 {
        } else if i == 1 {
        } else {
            assert(i == 2);
        }
    }
}

/// Law: the module map is rendered strictly after header-path planning and
/// embeds the final planned header location.  The path handed to the
/// module-map renderer and the path at which a matching write plan writes
/// the header are one and the same.
pub proof fn lemma_module_map_sees_final_header_path(
    plan: WritePlan,
    out: Seq<char>,
    ns: Seq<char>,
    header: Seq<char>,
    library: Seq<char>,
    module_map: Seq<char>,
)
    requires
        write_plan_matches(plan, out, ns, header, library, module_map),
    ensures
        plan.writes@[0].path@ == header_path(out, ns),
{
}

} // verus!

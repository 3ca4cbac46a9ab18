//! Layout planning: where each generated artifact lives on disk.
//!
//! All paths are pure string arithmetic over an output directory and a module
//! namespace.  Each generated module gets a subdirectory of its own under the
//! output root, because the target toolchain refuses two umbrella header
//! declarations in one directory.

use vstd::prelude::*;
use vstd::string::StringExecFns;

verus! {

/// True when `c` occurs somewhere in `s`.
pub open spec fn has_char(s: Seq<char>, c: char) -> bool
    decreases s.len(),
{
    s.len() > 0 && (s.last() == c || has_char(s.drop_last(), c))
}

/// A string usable as a single path component: non-empty and free of
/// separators.
pub open spec fn fs_safe_name(s: Seq<char>) -> bool {
    s.len() > 0 && !has_char(s, '/')
}

/// `dir` and `name` joined with one separator.
pub open spec fn joined(dir: Seq<char>, name: Seq<char>) -> Seq<char> {
    dir + seq!['/'] + name
}

/// Name of the per-namespace module directory.
pub open spec fn module_dir_name(ns: Seq<char>) -> Seq<char> {
    ns + ".swiftmodule-dir"@
}

/// Path of the per-namespace module directory under the output root.
pub open spec fn module_dir_path(out: Seq<char>, ns: Seq<char>) -> Seq<char> {
    joined(out, module_dir_name(ns))
}

/// Path of the module map, inside the module directory.
pub open spec fn module_map_path(out: Seq<char>, ns: Seq<char>) -> Seq<char> {
    joined(module_dir_path(out, ns), "uniffi.modulemap"@)
}

/// Name of the bridging header.
pub open spec fn header_name(ns: Seq<char>) -> Seq<char> {
    ns + "-Bridging-Header.h"@
}

/// Path of the bridging header, beside the module map.
pub open spec fn header_path(out: Seq<char>, ns: Seq<char>) -> Seq<char> {
    joined(module_dir_path(out, ns), header_name(ns))
}

/// Path of the wrapper source, directly under the output root.
pub open spec fn source_path(out: Seq<char>, ns: Seq<char>) -> Seq<char> {
    joined(out, ns + ".swift"@)
}

/// Name of the dynamic library the compiler is told to emit.
pub open spec fn dylib_name(ns: Seq<char>) -> Seq<char> {
    "lib"@ + ns + ".dylib"@
}

/// Path of the emitted dynamic library, directly under the output root.
pub open spec fn dylib_path(out: Seq<char>, ns: Seq<char>) -> Seq<char> {
    joined(out, dylib_name(ns))
}

/// Concatenation of two string slices.
pub fn concat2(a: &str, b: &str) -> (r: String)
    ensures
        r@ == a@ + b@,
{
    let s = String::from_str(a);
    s.concat(b)
}

/// `dir` and `name` joined with one separator.
pub fn join_path(dir: &str, name: &str) -> (r: String)
    ensures
        r@ == joined(dir@, name@),
{
    let mut s = String::from_str(dir);
    s.append("/");
    s.append(name);
    proof {
        reveal_strlit("/");
        assert("/"@ =~= seq!['/']);
        assert(s@ =~= joined(dir@, name@));
    }
    s
}

/// The planned locations of the three written artifacts and their directory.
pub struct Layout {
    pub module_dir: String,
    pub module_map_file: String,
    pub header_file: String,
    pub source_file: String,
}

/// Every field of `l` holds the planned path for `out` and `ns`.
pub open spec fn layout_matches(l: Layout, out: Seq<char>, ns: Seq<char>) -> bool {
    &&& l.module_dir@ == module_dir_path(out, ns)
    &&& l.module_map_file@ == module_map_path(out, ns)
    &&& l.header_file@ == header_path(out, ns)
    &&& l.source_file@ == source_path(out, ns)
}

/// Computes the artifact layout for one namespace: pure path arithmetic,
/// no side effects.
pub fn plan_layout(out_dir: &str, namespace: &str) -> (l: Layout)
    ensures
        layout_matches(l, out_dir@, namespace@),
{
    let dir_name = concat2(namespace, ".swiftmodule-dir");
    let module_dir = join_path(out_dir, dir_name.as_str());
    let module_map_file = join_path(module_dir.as_str(), "uniffi.modulemap");
    let hdr_name = concat2(namespace, "-Bridging-Header.h");
    let header_file = join_path(module_dir.as_str(), hdr_name.as_str());
    let src_name = concat2(namespace, ".swift");
    let source_file = join_path(out_dir, src_name.as_str());
    Layout { module_dir, module_map_file, header_file, source_file }
}

/// `c` occurs in `a + b` exactly when it occurs in `a` or in `b`.
pub proof fn lemma_has_char_concat(a: Seq<char>, b: Seq<char>, c: char)
    ensures
        has_char(a + b, c) == (has_char(a, c) || has_char(b, c)),
    decreases b.len(),
{
    if b.len() == 0 {
        assert(a + b =~= a);
    } else {
        assert((a + b).drop_last() =~= a + b.drop_last());
        assert((a + b).last() == b.last());
        lemma_has_char_concat(a, b.drop_last(), c);
    }
}

/// `c` occurs in `s` exactly when some position of `s` holds it.
pub proof fn lemma_has_char_index(s: Seq<char>, c: char)
    ensures
        has_char(s, c) <==> (exists|i: int| 0 <= i < s.len() && s[i] == c),
    decreases s.len(),
{
    if s.len() > 0 {
        lemma_has_char_index(s.drop_last(), c);
        if s.last() == c {
            assert(s[s.len() - 1] == c);
        }
        if has_char(s.drop_last(), c) {
            let i = choose|i: int| 0 <= i < s.drop_last().len() && s.drop_last()[i] == c;
            assert(s[i] == c);
        }
        if exists|i: int| 0 <= i < s.len() && s[i] == c {
            let i = choose|i: int| 0 <= i < s.len() && s[i] == c;
            if i < s.len() - 1 {
                assert(s.drop_last()[i] == c);
            }
        }
    }
}

/// `p` names an entry directly inside directory `d`: one separator-free,
/// non-empty component below it.
pub open spec fn directly_inside(p: Seq<char>, d: Seq<char>) -> bool {
    exists|name: Seq<char>| p == joined(d, name) && fs_safe_name(name)
}

/// The fixed name parts contain no separator, and their lengths.
proof fn lemma_name_literals()
    ensures
        !has_char(".swiftmodule-dir"@, '/'),
        !has_char("uniffi.modulemap"@, '/'),
        !has_char("-Bridging-Header.h"@, '/'),
        !has_char(".swift"@, '/'),
        ".swiftmodule-dir"@.len() == 16,
        "uniffi.modulemap"@.len() == 16,
        "-Bridging-Header.h"@.len() == 18,
        ".swift"@.len() == 6,
{
    reveal_strlit(".swiftmodule-dir");
    reveal_strlit("uniffi.modulemap");
    reveal_strlit("-Bridging-Header.h");
    reveal_strlit(".swift");
    lemma_has_char_index(".swiftmodule-dir"@, '/');
    lemma_has_char_index("uniffi.modulemap"@, '/');
    lemma_has_char_index("-Bridging-Header.h"@, '/');
    lemma_has_char_index(".swift"@, '/');
}

/// Law: for a separator-free namespace the planned layout isolates the
/// module.  The module directory is one entry directly under the output
/// root; the header and the module map are entries directly inside the
/// module directory; the wrapper source is one entry directly under the
/// output root; and the four planned paths are pairwise distinct.
pub proof fn lemma_layout_isolation(out: Seq<char>, ns: Seq<char>)
    requires
        fs_safe_name(ns),
    ensures
        directly_inside(module_dir_path(out, ns), out),
        directly_inside(header_path(out, ns), module_dir_path(out, ns)),
        directly_inside(module_map_path(out, ns), module_dir_path(out, ns)),
        directly_inside(source_path(out, ns), out),
        module_dir_path(out, ns) != header_path(out, ns),
        module_dir_path(out, ns) != module_map_path(out, ns),
        module_dir_path(out, ns) != source_path(out, ns),
        header_path(out, ns) != module_map_path(out, ns),
        header_path(out, ns) != source_path(out, ns),
        module_map_path(out, ns) != source_path(out, ns),
{
    lemma_name_literals();
    lemma_has_char_concat(ns, ".swiftmodule-dir"@, '/');
    lemma_has_char_concat(ns, "-Bridging-Header.h"@, '/');
    lemma_has_char_concat(ns, ".swift"@, '/');
    assert(fs_safe_name(module_dir_name(ns)));
    assert(fs_safe_name(header_name(ns)));
    assert(fs_safe_name(ns + ".swift"@));
    assert(module_dir_path(out, ns) == joined(out, module_dir_name(ns))
        && fs_safe_name(module_dir_name(ns)));
    assert(header_path(out, ns) == joined(module_dir_path(out, ns), header_name(ns))
        && fs_safe_name(header_name(ns)));
    assert(module_map_path(out, ns) == joined(module_dir_path(out, ns), "uniffi.modulemap"@)
        && fs_safe_name("uniffi.modulemap"@));
    assert(source_path(out, ns) == joined(out, ns + ".swift"@)
        && fs_safe_name(ns + ".swift"@));
    let n = ns.len();
    assert(module_dir_path(out, ns).len() == out.len() + 1 + n + 16);
    assert(header_path(out, ns).len() == out.len() + 1 + n + 16 + 1 + n + 18);
    assert(module_map_path(out, ns).len() == out.len() + 1 + n + 16 + 1 + 16);
    assert(source_path(out, ns).len() == out.len() + 1 + n + 6);
}

/// Law: two different namespaces never share a module directory, so their
/// umbrella header declarations can never collide.
pub proof fn lemma_distinct_namespaces_distinct_dirs(out: Seq<char>, ns1: Seq<char>, ns2: Seq<char>)
    requires
        ns1 != ns2,
    ensures
        module_dir_path(out, ns1) != module_dir_path(out, ns2),
{
    if ns1.len() != ns2.len() {
        assert(module_dir_path(out, ns1).len() == out.len() + 1 + ns1.len()
            + ".swiftmodule-dir"@.len());
        assert(module_dir_path(out, ns2).len() == out.len() + 1 + ns2.len()
            + ".swiftmodule-dir"@.len());
    } else {
        assert(exists|i: int| 0 <= i < ns1.len() && ns1[i] != ns2[i]) by {
            if forall|i: int| 0 <= i < ns1.len() ==> ns1[i] == ns2[i] {
                assert(ns1 =~= ns2);
            }
        }
        let i = choose|i: int| 0 <= i < ns1.len() && ns1[i] != ns2[i];
        assert(module_dir_path(out, ns1)[out.len() + 1 + i] == ns1[i]);
        assert(module_dir_path(out, ns2)[out.len() + 1 + i] == ns2[i]);
    }
}

} // verus!

//! The external-interpreter invocation.
//!
//! The caller scans the output directory and hands in the names of its
//! immediate entries, in whatever order the filesystem returned them.  Every
//! entry whose extension marks a generated module directory contributes a
//! module-map override, every entry whose extension marks a shared library
//! contributes a link flag; the optional script path goes last.

use vstd::prelude::*;
use crate::invoke::Invocation;
use crate::paths::{concat2, join_path, joined};
use vstd::string::{StrSliceExecFns, StringExecFns};

verus! {

/// The characters after the last '.' of `s`; `None` when `s` holds no '.'.
pub open spec fn after_last_dot(s: Seq<char>) -> Option<Seq<char>>
    decreases s.len(),
{
    if s.len() == 0 {
        None
    } else if s.last() == '.' {
        Some(Seq::empty())
    } else {
        match after_last_dot(s.drop_last()) {
            None => None,
            Some(t) => Some(t.push(s.last())),
        }
    }
}

/// The extension of a file name, as the standard library's path handling
/// reads it: the part after the last '.', except that a '.' leading an
/// otherwise dot-free name marks no extension.
pub open spec fn extension_of(name: Seq<char>) -> Option<Seq<char>> {
    match after_last_dot(name) {
        None => None,
        Some(e) => if e.len() == name.len() - 1 {
            None
        } else {
            Some(e)
        },
    }
}

/// The interpreter flags one directory entry contributes, by its extension:
/// a module directory yields the passthrough module-map override for the map
/// inside it, a shared library yields a link flag embedding its full path,
/// anything else yields nothing.
pub open spec fn entry_flags(out: Seq<char>, name: Seq<char>) -> Seq<Seq<char>> {
    match extension_of(name) {
        None => seq![],
        Some(e) => if e == "swiftmodule-dir"@ {
            seq!["-Xcc"@, "-fmodule-map-file="@ + joined(joined(out, name), "uniffi.modulemap"@)]
        } else if e == "dylib"@ || e == "so"@ {
            seq!["-l"@ + joined(out, name)]
        } else {
            seq![]
        },
    }
}

/// The flags of a whole directory listing, each entry's in turn.
pub open spec fn entries_flags(out: Seq<char>, names: Seq<Seq<char>>) -> Seq<Seq<char>>
    decreases names.len(),
{
    if names.len() == 0 {
        seq![]
    } else {
        entries_flags(out, names.drop_last()) + entry_flags(out, names.last())
    }
}

/// The view of an optional string argument.
pub open spec fn opt_view(o: Option<&str>) -> Option<Seq<char>> {
    match o {
        None => None,
        Some(s) => Some(s@),
    }
}

/// The full interpreter argument vector: when an output directory is given,
/// it serves as include path and library search path and its entries
/// contribute their flags; a given script path is the sole trailing
/// positional argument.
pub open spec fn run_args(
    out: Option<Seq<char>>,
    names: Seq<Seq<char>>,
    script: Option<Seq<char>>,
) -> Seq<Seq<char>> {
    (match out {
        None => Seq::<Seq<char>>::empty(),
        Some(o) => seq!["-I"@, o, "-L"@, o] + entries_flags(o, names),
    }) + (match script {
        None => Seq::<Seq<char>>::empty(),
        Some(p) => seq![p],
    })
}

/// Law: an empty output directory contributes only the base include and
/// library search flags — no module-map overrides and no link flags — with
/// a given script path still the sole trailing argument.
pub proof fn lemma_run_args_empty_dir(o: Seq<char>, script: Option<Seq<char>>)
    ensures
        run_args(Some(o), Seq::empty(), script) == seq!["-I"@, o, "-L"@, o] + (match script {
            None => Seq::<Seq<char>>::empty(),
            Some(p) => seq![p],
        }),
{
    assert(seq!["-I"@, o, "-L"@, o] + entries_flags(o, Seq::empty()) =~= seq!["-I"@, o, "-L"@, o]);
}

/// `after_last_dot` finds the suffix behind a dot that no later dot follows.
proof fn lemma_after_last_dot_at(s: Seq<char>, k: int)
    requires
        0 <= k < s.len(),
        s[k] == '.',
        forall|j: int| k < j < s.len() ==> s[j] != '.',
    ensures
        after_last_dot(s) == Some(s.subrange(k + 1, s.len() as int)),
    decreases s.len(),
{
    if k == s.len() - 1 {
        assert(s.last() == '.');
        assert(s.subrange(k + 1, s.len() as int) =~= Seq::<char>::empty());
    } else {
        assert(s[s.len() - 1] != '.');
        let d = s.drop_last();
        assert(d[k] == '.');
        assert(forall|j: int| k < j < d.len() ==> d[j] != '.');
        lemma_after_last_dot_at(d, k);
        assert(after_last_dot(s) == Some(d.subrange(k + 1, d.len() as int).push(s.last())));
        assert(d.subrange(k + 1, d.len() as int).push(s.last()) =~= s.subrange(
            k + 1,
            s.len() as int,
        ));
    }
}

/// A name without any dot has no `after_last_dot` suffix.
proof fn lemma_after_last_dot_none(s: Seq<char>)
    requires
        forall|j: int| 0 <= j < s.len() ==> s[j] != '.',
    ensures
        after_last_dot(s) is None,
    decreases s.len(),
{
    if s.len() > 0 {
        lemma_after_last_dot_none(s.drop_last());
    }
}

/// The extension of one file name, matching [`extension_of`].
pub fn extension_of_name(name: &str) -> (r: Option<String>)
    ensures
        match extension_of(name@) {
            None => r is None,
            Some(e) => r matches Some(s) && s@ == e,
        },
{
    let n: usize = name.unicode_len();
    let mut i: usize = n;
    while i > 0
        invariant
            i <= n,
            n == name@.len(),
            forall|j: int| i <= j < n ==> name@[j] != '.',
        decreases i,
    {
        let c = name.get_char(i - 1);
        if c == '.' {
            proof {
                lemma_after_last_dot_at(name@, i - 1);
            }
            if i == 1 {
                return None;
            }
            let ext = name.substring_char(i, n);
            return Some(String::from_str(ext));
        }
        i = i - 1;
    }
    proof {
        lemma_after_last_dot_none(name@);
    }
    None
}

/// The flags one directory entry contributes, matching [`entry_flags`].
fn entry_flags_exec(out_dir: &str, name: &str) -> (flags: Vec<String>)
    ensures
        flags.deep_view() == entry_flags(out_dir@, name@),
{
    let mut flags: Vec<String> = Vec::new();
    match extension_of_name(name) {
        None => {
            assert(flags.deep_view() =~= entry_flags(out_dir@, name@));
        },
        Some(ext) => {
            if ext == String::from_str("swiftmodule-dir") {
                let entry_path = join_path(out_dir, name);
                let map_file = join_path(entry_path.as_str(), "uniffi.modulemap");
                flags.push(String::from_str("-Xcc"));
                flags.push(concat2("-fmodule-map-file=", map_file.as_str()));
                assert(flags.deep_view() =~= entry_flags(out_dir@, name@));
            } else if ext == String::from_str("dylib") || ext == String::from_str("so") {
                flags.push(concat2("-l", join_path(out_dir, name).as_str()));
                assert(flags.deep_view() =~= entry_flags(out_dir@, name@));
            } else {
                assert(flags.deep_view() =~= entry_flags(out_dir@, name@));
            }
        },
    }
    flags
}

/// Splitting a listing one entry off the end splits its flags the same way.
proof fn lemma_entries_flags_step(out: Seq<char>, names: Seq<Seq<char>>, i: int)
    requires
        0 <= i < names.len(),
    ensures
        entries_flags(out, names.take(i + 1)) == entries_flags(out, names.take(i)) + entry_flags(
            out,
            names[i],
        ),
{
    assert(names.take(i + 1).drop_last() =~= names.take(i));
    assert(names.take(i + 1).last() == names[i]);
}

/// Plans the interpreter run: `swift` with exactly [`run_args`] for the
/// given output directory, its immediate entry names in the order the caller
/// scanned them, and the optional script path.
pub fn run_script(out_dir: Option<&str>, entries: &Vec<String>, script_file: Option<&str>) -> (inv:
    Invocation)
    ensures
        inv.program@ == "swift"@,
        inv.args.deep_view() == run_args(opt_view(out_dir), entries.deep_view(), opt_view(
            script_file,
        )),
{
    let mut args: Vec<String> = Vec::new();
    match out_dir {
        None => {},
        Some(o) => {
            args.push(String::from_str("-I"));
            args.push(String::from_str(o));
            args.push(String::from_str("-L"));
            args.push(String::from_str(o));
            let ghost base: Seq<Seq<char>> = seq!["-I"@, o@, "-L"@, o@];
            assert(args.deep_view() =~= base);
            let n: usize = entries.len();
            let mut i: usize = 0;
            while i < n
                invariant
                    i <= n,
                    n == entries@.len(),
                    args.deep_view() == base + entries_flags(o@, entries.deep_view().take(i as int)),
                decreases n - i,
            {
                let flags = entry_flags_exec(o, entries[i].as_str());
                let ghost before = args.deep_view();
                let m: usize = flags.len();
                let mut k: usize = 0;
                while k < m
                    invariant
                        k <= m,
                        m == flags@.len(),
                        args.deep_view() == before + flags.deep_view().take(k as int),
                    decreases m - k,
                {
                    let ghost prev = args.deep_view();
                    args.push(flags[k].clone());
                    proof {
                        assert(args.deep_view() =~= prev.push(flags@[k as int]@));
                        assert(flags.deep_view()[k as int] == flags@[k as int]@);
                        assert(flags.deep_view().take(k as int + 1) =~= flags.deep_view().take(
                            k as int,
                        ).push(flags.deep_view()[k as int]));
                        assert(args.deep_view() =~= before + flags.deep_view().take(k as int + 1));
                    }
                    k = k + 1;
                }
                proof {
                    assert(flags.deep_view().take(m as int) =~= flags.deep_view());
                    assert(entries.deep_view()[i as int] == entries@[i as int]@);
                    lemma_entries_flags_step(o@, entries.deep_view(), i as int);
                    assert(entries_flags(o@, entries.deep_view().take(i + 1)) == entries_flags(
                        o@,
                        entries.deep_view().take(i as int),
                    ) + entry_flags(o@, entries.deep_view()[i as int]));
                }
                i = i + 1;
            }
            proof {
                assert(entries.deep_view().take(n as int) =~= entries.deep_view());
            }
        },
    }
    match script_file {
        None => {},
        Some(p) => {
            args.push(String::from_str(p));
        },
    }
    proof {
        assert(args.deep_view() =~= run_args(
            opt_view(out_dir),
            entries.deep_view(),
            opt_view(script_file),
        ));
    }
    Invocation { program: String::from_str("swift"), args }
}

} // verus!

//! The external-compiler invocation.
//!
//! Builds the exact, order-sensitive argument vector that compiles a
//! previously written module against the native library.  The caller reports
//! whether the planned module map is present on disk; a missing module map is
//! an I/O failure at that path, never a toolchain failure.

use vstd::prelude::*;
use crate::errors::BindingsError;
use crate::invoke::Invocation;
use crate::paths::{concat2, dylib_path, join_path, module_map_path, plan_layout, source_path};
use vstd::string::StringExecFns;

verus! {

/// The full compiler argument vector, in its required order: module name,
/// emit-library with the dynamic-library output path, emit-module with the
/// output directory as module path, parse-as-library, the output directory
/// as library search path, the link flag for the native library, the
/// module-map override handed through to the C compiler as one token, and
/// the wrapper source as the final positional argument.
pub open spec fn compile_args(out: Seq<char>, ns: Seq<char>) -> Seq<Seq<char>> {
    seq![
        "-module-name"@,
        ns,
        "-emit-library"@,
        "-o"@,
        dylib_path(out, ns),
        "-emit-module"@,
        "-emit-module-path"@,
        out,
        "-parse-as-library"@,
        "-L"@,
        out,
        "-luniffi_"@ + ns,
        "-Xcc"@,
        "-fmodule-map-file="@ + module_map_path(out, ns),
        source_path(out, ns),
    ]
}

/// Plans the compiler run for an already written module.  When the caller
/// reports the planned module map present, the result is the `swiftc`
/// invocation with exactly [`compile_args`]; when absent, the run aborts
/// with an I/O failure at the module-map path, and no tool is invoked.
pub fn compile_bindings(namespace: &str, out_dir: &str, module_map_present: bool) -> (r: Result<
    Invocation,
    BindingsError,
>)
    ensures
        !module_map_present ==> (r matches Err(e) && e matches BindingsError::Io { path } && path@
            == module_map_path(out_dir@, namespace@)),
        module_map_present ==> (r matches Ok(inv) && inv.program@ == "swiftc"@
            && inv.args.deep_view() == compile_args(out_dir@, namespace@)),
{
    let layout = plan_layout(out_dir, namespace);
    if !module_map_present {
        return Err(BindingsError::Io { path: layout.module_map_file });
    }
    let dylib_file = join_path(out_dir, concat2("lib", namespace).concat(".dylib").as_str());
    let map_option = concat2("-fmodule-map-file=", layout.module_map_file.as_str());
    let mut args: Vec<String> = Vec::new();
    args.push(String::from_str("-module-name"));
    args.push(String::from_str(namespace));
    args.push(String::from_str("-emit-library"));
    args.push(String::from_str("-o"));
    args.push(dylib_file);
    args.push(String::from_str("-emit-module"));
    args.push(String::from_str("-emit-module-path"));
    args.push(String::from_str(out_dir));
    args.push(String::from_str("-parse-as-library"));
    args.push(String::from_str("-L"));
    args.push(String::from_str(out_dir));
    args.push(concat2("-luniffi_", namespace));
    args.push(String::from_str("-Xcc"));
    args.push(map_option);
    args.push(layout.source_file);
    proof {
        assert(args.deep_view() =~= compile_args(out_dir@, namespace@));
    }
    Ok(Invocation { program: String::from_str("swiftc"), args })
}

} // verus!

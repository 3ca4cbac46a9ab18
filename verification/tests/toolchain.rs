use swift_bindings::compile::compile_bindings;
use swift_bindings::errors::BindingsError;
use swift_bindings::invoke::process_outcome;
use swift_bindings::script::{extension_of_name, run_script};

#[test]
fn compile_invocation_example() {
    let inv = compile_bindings("mylib", "/out", true).unwrap();
    assert_eq!(inv.program, "swiftc");
    let expected = vec![
        "-module-name".to_string(),
        "mylib".to_string(),
        "-emit-library".to_string(),
        "-o".to_string(),
        "/out/libmylib.dylib".to_string(),
        "-emit-module".to_string(),
        "-emit-module-path".to_string(),
        "/out".to_string(),
        "-parse-as-library".to_string(),
        "-L".to_string(),
        "/out".to_string(),
        "-luniffi_mylib".to_string(),
        "-Xcc".to_string(),
        "-fmodule-map-file=/out/mylib.swiftmodule-dir/uniffi.modulemap".to_string(),
        "/out/mylib.swift".to_string(),
    ];
    assert_eq!(inv.args, expected);
}

#[test]
fn compile_before_write_is_io_error() {
    let r = compile_bindings("mylib", "/out", false);
    match r {
        Err(BindingsError::Io { path }) => {
            assert_eq!(path, "/out/mylib.swiftmodule-dir/uniffi.modulemap");
        },
        _ => panic!("expected an I/O error at the module-map path"),
    }
}

#[test]
fn run_script_empty_dir() {
    let entries: Vec<String> = vec![];
    let inv = run_script(Some("/out"), &entries, None);
    assert_eq!(inv.program, "swift");
    assert_eq!(inv.args, vec!["-I".to_string(), "/out".to_string(), "-L".to_string(), "/out".to_string()]);
}

#[test]
fn run_script_discovers_entries() {
    let entries: Vec<String> = vec![
        "mylib.swiftmodule-dir".to_string(),
        "libmylib.dylib".to_string(),
        "notes.txt".to_string(),
        "libother.so".to_string(),
        ".hidden".to_string(),
        "noext".to_string(),
    ];
    let inv = run_script(Some("/out"), &entries, Some("demo.swift"));
    let expected = vec![
        "-I".to_string(),
        "/out".to_string(),
        "-L".to_string(),
        "/out".to_string(),
        "-Xcc".to_string(),
        "-fmodule-map-file=/out/mylib.swiftmodule-dir/uniffi.modulemap".to_string(),
        "-l/out/libmylib.dylib".to_string(),
        "-l/out/libother.so".to_string(),
        "demo.swift".to_string(),
    ];
    assert_eq!(inv.args, expected);
}

#[test]
fn run_script_without_dir() {
    let entries: Vec<String> = vec!["ignored.dylib".to_string()];
    let inv = run_script(None, &entries, Some("demo.swift"));
    assert_eq!(inv.args, vec!["demo.swift".to_string()]);
}

#[test]
fn run_script_bare_repl() {
    let entries: Vec<String> = vec![];
    let inv = run_script(None, &entries, None);
    assert_eq!(inv.program, "swift");
    assert!(inv.args.is_empty());
}

#[test]
fn extension_rules() {
    assert_eq!(extension_of_name("a.b"), Some("b".to_string()));
    assert_eq!(extension_of_name("x.tar.gz"), Some("gz".to_string()));
    assert_eq!(extension_of_name("trailing."), Some("".to_string()));
    assert_eq!(extension_of_name(".hidden"), None);
    assert_eq!(extension_of_name("."), None);
    assert_eq!(extension_of_name(".a.b"), Some("b".to_string()));
    assert_eq!(extension_of_name("noext"), None);
}

#[test]
fn process_outcomes() {
    assert!(process_outcome("swiftc", true).is_ok());
    let e = process_outcome("swiftc", false).err().unwrap();
    match &e {
        BindingsError::Toolchain { tool } => assert_eq!(tool, "swiftc"),
        _ => panic!("expected a toolchain error"),
    }
    assert_eq!(e.message(), "running `swiftc` failed");
    let e = process_outcome("swift", false).err().unwrap();
    assert_eq!(e.message(), "running `swift` failed");
}

#[test]
fn io_error_message() {
    let e = BindingsError::Io { path: "/out/mylib.swift".to_string() };
    assert_eq!(e.message(), "I/O error at /out/mylib.swift");
}

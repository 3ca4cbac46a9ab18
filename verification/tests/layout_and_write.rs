use swift_bindings::errors::{Artifact, BindingsError};
use swift_bindings::paths::plan_layout;
use swift_bindings::writer::{generate_bindings, module_map_render_input, write_bindings};

#[test]
fn layout_example() {
    let l = plan_layout("/out", "mylib");
    assert_eq!(l.module_dir, "/out/mylib.swiftmodule-dir");
    assert_eq!(l.module_map_file, "/out/mylib.swiftmodule-dir/uniffi.modulemap");
    assert_eq!(l.header_file, "/out/mylib.swiftmodule-dir/mylib-Bridging-Header.h");
    assert_eq!(l.source_file, "/out/mylib.swift");
}

#[test]
fn two_namespaces_get_their_own_directories() {
    let a = plan_layout("/out", "alpha");
    let b = plan_layout("/out", "beta");
    assert_ne!(a.module_dir, b.module_dir);
    assert_eq!(a.module_dir, "/out/alpha.swiftmodule-dir");
    assert_eq!(b.module_dir, "/out/beta.swiftmodule-dir");
}

#[test]
fn write_plan_example() {
    let plan = write_bindings(
        "mylib",
        "/out",
        Some("HEADER TEXT".to_string()),
        Some("LIBRARY TEXT".to_string()),
        Some("MODULE MAP TEXT".to_string()),
    )
    .unwrap();
    assert_eq!(plan.module_dir, "/out/mylib.swiftmodule-dir");
    assert_eq!(plan.writes.len(), 3);
    assert_eq!(plan.writes[0].path, "/out/mylib.swiftmodule-dir/mylib-Bridging-Header.h");
    assert_eq!(plan.writes[0].contents, "HEADER TEXT");
    assert_eq!(plan.writes[1].path, "/out/mylib.swiftmodule-dir/uniffi.modulemap");
    assert_eq!(plan.writes[1].contents, "MODULE MAP TEXT");
    assert_eq!(plan.writes[2].path, "/out/mylib.swift");
    assert_eq!(plan.writes[2].contents, "LIBRARY TEXT");
}

#[test]
fn write_plan_rerun_is_identical() {
    let run = || {
        write_bindings(
            "mylib",
            "/out",
            Some("HEADER TEXT".to_string()),
            Some("LIBRARY TEXT".to_string()),
            Some("MODULE MAP TEXT".to_string()),
        )
        .unwrap()
    };
    let a = run();
    let b = run();
    assert_eq!(a.module_dir, b.module_dir);
    assert_eq!(a.writes.len(), b.writes.len());
    for (wa, wb) in a.writes.iter().zip(b.writes.iter()) {
        assert_eq!(wa.path, wb.path);
        assert_eq!(wa.contents, wb.contents);
    }
}

#[test]
fn module_map_render_input_is_final_header_path() {
    let input = module_map_render_input("mylib", "/out");
    let plan = write_bindings(
        "mylib",
        "/out",
        Some(String::new()),
        Some(String::new()),
        Some(String::new()),
    )
    .unwrap();
    assert_eq!(input, plan.writes[0].path);
    assert_eq!(input, "/out/mylib.swiftmodule-dir/mylib-Bridging-Header.h");
}

#[test]
fn generate_bindings_success() {
    let b = generate_bindings(Some("h".to_string()), Some("l".to_string())).unwrap();
    assert_eq!(b.header, "h");
    assert_eq!(b.library, "l");
}

#[test]
fn render_failure_header() {
    let r = generate_bindings(None, Some("l".to_string()));
    let e = r.err().unwrap();
    assert!(matches!(e, BindingsError::Render(Artifact::Header)));
    assert_eq!(e.message(), "failed to render Swift bridging header");
}

#[test]
fn render_failure_library() {
    let r = write_bindings("mylib", "/out", Some("h".to_string()), None, Some("m".to_string()));
    let e = r.err().unwrap();
    assert!(matches!(e, BindingsError::Render(Artifact::Library)));
    assert_eq!(e.message(), "failed to render Swift library");
}

#[test]
fn render_failure_module_map() {
    let r = write_bindings("mylib", "/out", Some("h".to_string()), Some("l".to_string()), None);
    let e = r.err().unwrap();
    assert!(matches!(e, BindingsError::Render(Artifact::ModuleMap)));
    assert_eq!(e.message(), "failed to render Swift module map");
}

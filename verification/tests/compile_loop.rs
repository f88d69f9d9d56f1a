use cwatch::compiler::CompilerChoice;
use cwatch::choose_compiler;
use cwatch::executable_name;
use cwatch::compiler_flags;
use cwatch::handle;
use cwatch::plan_compile;
use cwatch::report_outcome;
use cwatch::split_path;
use cwatch::ChangeEvent;

#[test]
fn discovery_prefers_gpp() {
    assert_eq!(choose_compiler(true, true), Some(CompilerChoice::Gpp));
    assert_eq!(choose_compiler(true, false), Some(CompilerChoice::Gpp));
}

#[test]
fn discovery_takes_the_one_present() {
    assert_eq!(choose_compiler(false, true), Some(CompilerChoice::Clang));
}

#[test]
fn discovery_with_neither_present_finds_none() {
    assert_eq!(choose_compiler(false, false), None);
}

#[test]
fn executable_names() {
    assert_eq!(executable_name(CompilerChoice::Gpp), "g++");
    assert_eq!(executable_name(CompilerChoice::Clang), "clang++");
}

#[test]
fn gpp_flags_exact() {
    assert_eq!(
        compiler_flags(CompilerChoice::Gpp),
        vec!["-fdiagnostics-color=always", "-O2", "-Wall", "-std=c++17"]
    );
}

#[test]
fn clang_flags_exact() {
    assert_eq!(
        compiler_flags(CompilerChoice::Clang),
        vec!["-fcolor-diagnostics", "-O2", "-Wall", "-std=c++17"]
    );
}

#[test]
fn split_path_with_directories() {
    let (stem, ext) = split_path("dir/sub/x.cc");
    assert_eq!(stem, "x");
    assert_eq!(ext.as_deref(), Some("cc"));
}

#[test]
fn split_path_without_extension() {
    let (stem, ext) = split_path("noext");
    assert_eq!(stem, "noext");
    assert_eq!(ext, None);
}

#[test]
fn split_path_hidden_file_has_no_extension() {
    let (stem, ext) = split_path(".bashrc");
    assert_eq!(stem, ".bashrc");
    assert_eq!(ext, None);
}

#[test]
fn split_path_trailing_dot_gives_empty_extension() {
    let (stem, ext) = split_path("a.");
    assert_eq!(stem, "a");
    assert_eq!(ext.as_deref(), Some(""));
}

#[test]
fn split_path_ignores_dots_in_directories() {
    let (stem, ext) = split_path("v1.2/main");
    assert_eq!(stem, "main");
    assert_eq!(ext, None);
    let (stem, ext) = split_path("v1.2/a.cpp");
    assert_eq!(stem, "a");
    assert_eq!(ext.as_deref(), Some("cpp"));
}

#[test]
fn hidden_file_named_like_an_extension_is_not_one() {
    assert!(plan_compile(".cpp", true, CompilerChoice::Gpp).is_none());
}

#[test]
fn plan_compile_recognized_cpp() {
    let cmd = plan_compile("a.cpp", true, CompilerChoice::Gpp).unwrap();
    assert_eq!(cmd.program, "g++");
    assert_eq!(
        cmd.args,
        vec!["-fdiagnostics-color=always", "-O2", "-Wall", "-std=c++17", "a.cpp", "-o", "a"]
    );
}

#[test]
fn plan_compile_recognized_cc_with_clang() {
    let cmd = plan_compile("src/b.cc", true, CompilerChoice::Clang).unwrap();
    assert_eq!(cmd.program, "clang++");
    assert_eq!(
        cmd.args,
        vec!["-fcolor-diagnostics", "-O2", "-Wall", "-std=c++17", "src/b.cc", "-o", "b"]
    );
}

#[test]
fn plan_compile_recognized_c() {
    let cmd = plan_compile("c.c", true, CompilerChoice::Gpp).unwrap();
    assert_eq!(cmd.program, "g++");
    assert_eq!(cmd.args.last().map(String::as_str), Some("c"));
}

#[test]
fn plan_compile_unrecognized_extension_is_a_no_op() {
    assert!(plan_compile("a.rs", true, CompilerChoice::Gpp).is_none());
    assert!(plan_compile("a.cpp.txt", true, CompilerChoice::Gpp).is_none());
    assert!(plan_compile("noext", true, CompilerChoice::Clang).is_none());
    assert!(plan_compile(".bashrc", true, CompilerChoice::Gpp).is_none());
}

#[test]
fn plan_compile_missing_file_is_a_no_op() {
    assert!(plan_compile("a.cpp", false, CompilerChoice::Gpp).is_none());
}

#[test]
fn report_success_when_no_diagnostics() {
    let line = report_outcome("a.cpp", Some(""));
    assert_eq!(line, "a.cpp was compiled successfully");
}

#[test]
fn report_diagnostics_verbatim() {
    let diag = "a.cpp:1:20: error: expected '}'";
    let line = report_outcome("a.cpp", Some(diag));
    assert_eq!(line, diag);
    assert_ne!(line, "a.cpp was compiled successfully");
}

#[test]
fn report_launch_failure() {
    let line = report_outcome("a.cpp", None);
    assert_eq!(line, "failed to run the compiler");
}

#[test]
fn handle_write_requests_compile() {
    let d = handle(&ChangeEvent::Written("a.cpp".to_string()));
    assert_eq!(d.notice.as_deref(), Some("WRITE: a.cpp is written"));
    assert_eq!(d.compile.as_deref(), Some("a.cpp"));
}

#[test]
fn handle_create_requests_compile() {
    let d = handle(&ChangeEvent::Created("d/a.cpp".to_string()));
    assert_eq!(d.notice.as_deref(), Some("CREATE: d/a.cpp is created"));
    assert_eq!(d.compile.as_deref(), Some("d/a.cpp"));
}

#[test]
fn handle_remove_is_notice_only() {
    let d = handle(&ChangeEvent::Removed("a.cpp".to_string()));
    assert_eq!(d.notice.as_deref(), Some("REMOVE: a.cpp was removed"));
    assert_eq!(d.compile, None);
}

#[test]
fn handle_rename_is_notice_only() {
    let d = handle(&ChangeEvent::Renamed("old.cc".to_string(), "new.cc".to_string()));
    assert_eq!(d.notice.as_deref(), Some("RENAME old.cc was renamed to new.cc"));
    assert_eq!(d.compile, None);
}

#[test]
fn handle_chmod_is_notice_only() {
    let d = handle(&ChangeEvent::PermissionsChanged("a.cpp".to_string()));
    assert_eq!(
        d.notice.as_deref(),
        Some("CHMOD: file permissions of a.cpp has been changed")
    );
    assert_eq!(d.compile, None);
}

#[test]
fn handle_rescan_is_notice_only() {
    let d = handle(&ChangeEvent::RescanRequested);
    assert_eq!(
        d.notice.as_deref(),
        Some("RESCAN: problem detected\nrescanned file/directory.")
    );
    assert_eq!(d.compile, None);
}

#[test]
fn handle_error_with_path() {
    let d = handle(&ChangeEvent::Error(
        "watch failed".to_string(),
        Some("a.cpp".to_string()),
    ));
    assert_eq!(d.notice.as_deref(), Some("ERROR: error watch failed at a.cpp"));
    assert_eq!(d.compile, None);
}

#[test]
fn handle_error_without_path() {
    let d = handle(&ChangeEvent::Error("watch failed".to_string(), None));
    assert_eq!(d.notice.as_deref(), Some("ERROR: error watch failed"));
    assert_eq!(d.compile, None);
}

#[test]
fn handle_other_is_silent() {
    let d = handle(&ChangeEvent::Other);
    assert_eq!(d.notice, None);
    assert_eq!(d.compile, None);
}

#[test]
fn scenario_create_then_successful_compile() {
    let d = handle(&ChangeEvent::Created("a.cpp".to_string()));
    assert_eq!(d.notice.as_deref(), Some("CREATE: a.cpp is created"));
    let path = d.compile.unwrap();
    let cmd = plan_compile(&path, true, CompilerChoice::Gpp).unwrap();
    assert_eq!(cmd.program, "g++");
    assert_eq!(cmd.args.last().map(String::as_str), Some("a"));
    let line = report_outcome(&path, Some(""));
    assert_eq!(line, "a.cpp was compiled successfully");
}

#[test]
fn scenario_write_then_diagnostics() {
    let d = handle(&ChangeEvent::Written("a.cpp".to_string()));
    assert_eq!(d.notice.as_deref(), Some("WRITE: a.cpp is written"));
    let path = d.compile.unwrap();
    assert!(plan_compile(&path, true, CompilerChoice::Gpp).is_some());
    let diag = "a.cpp:1:22: error: expected '}' at end of input";
    let line = report_outcome(&path, Some(diag));
    assert_eq!(line, diag);
    assert_ne!(line, "a.cpp was compiled successfully");
}

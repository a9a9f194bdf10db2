use rebuild::deps::parse_dependencies;
use rebuild::paths::{is_object_name, is_source_name, join_path, object_file_name};
use rebuild::staleness::is_stale;

fn strings(v: &[&str]) -> Vec<String> {
    v.iter().map(|s| s.to_string()).collect()
}

#[test]
fn absent_artifact_is_stale() {
    assert!(is_stale(None, &vec![]));
    assert!(is_stale(None, &vec![1, 2, 3]));
}

#[test]
fn strictly_newer_input_makes_stale() {
    assert!(is_stale(Some(10), &vec![5, 11]));
    assert!(is_stale(Some(0), &vec![1]));
}

#[test]
fn equal_timestamp_is_not_stale() {
    assert!(!is_stale(Some(10), &vec![10, 10]));
}

#[test]
fn older_inputs_are_not_stale() {
    assert!(!is_stale(Some(10), &vec![1, 9, 10]));
    assert!(!is_stale(Some(10), &vec![]));
}

#[test]
fn parse_simple_dependency_line() {
    let out = parse_dependencies("a.o: a.cpp a.h");
    assert_eq!(out, strings(&["a.cpp", "a.h"]));
}

#[test]
fn parse_discards_continuation_markers() {
    let out = parse_dependencies("a.o: a.cpp \\\n a.h \\\n b.h");
    assert_eq!(out, strings(&["a.cpp", "a.h", "b.h"]));
}

#[test]
fn parse_empty_output_gives_no_dependencies() {
    let out = parse_dependencies("");
    assert!(out.is_empty());
}

#[test]
fn parse_target_alone_gives_no_dependencies() {
    let out = parse_dependencies("a.o:");
    assert!(out.is_empty());
}

#[test]
fn parse_keeps_paths_as_reported() {
    let out = parse_dependencies("main.o: /usr/include/stdio.h src/main.cpp");
    assert_eq!(out, strings(&["/usr/include/stdio.h", "src/main.cpp"]));
}

#[test]
fn source_name_recognition() {
    assert!(is_source_name("a.cpp"));
    assert!(is_source_name("x.cc"));
    assert!(is_source_name("a.b.cpp"));
    assert!(!is_source_name("a.h"));
    assert!(!is_source_name("a.o"));
    assert!(!is_source_name(".cpp"));
    assert!(!is_source_name("acpp"));
    assert!(!is_source_name(""));
}

#[test]
fn object_name_recognition() {
    assert!(is_object_name("a.o"));
    assert!(is_object_name("a.b.o"));
    assert!(!is_object_name(".o"));
    assert!(!is_object_name("a.cpp"));
    assert!(!is_object_name("ao"));
}

#[test]
fn object_file_name_replaces_extension() {
    assert_eq!(object_file_name("a.cpp"), "a.o");
    assert_eq!(object_file_name("x.cc"), "x.o");
    assert_eq!(object_file_name("a.b.cpp"), "a.b.o");
}

#[test]
fn join_path_inserts_separator() {
    assert_eq!(join_path("/tmp/src", "a.cpp"), "/tmp/src/a.cpp");
    assert_eq!(join_path("out", "target"), "out/target");
}

use rpc_bootstrap::schema::{build_request, discover, has_schema_extension, GenerationOptions};

fn paths(names: &[&str]) -> Vec<String> {
    names.iter().map(|n| String::from(*n)).collect()
}

#[test]
fn discover_finds_only_matching() {
    let root = String::from("schemas");
    let entries = paths(&["a.proto", "b.proto", "c.txt"]);
    let set = discover(&root, &entries).ok().expect("two matches");
    assert_eq!(set.len(), 2);
    assert_eq!(set.files[0], "a.proto");
    assert_eq!(set.files[1], "b.proto");
}

#[test]
fn discover_keeps_traversal_order() {
    let root = String::from("schemas");
    let entries = paths(&["b.proto", "sub/a.proto", "notes.md", "z.proto"]);
    let set = discover(&root, &entries).ok().expect("three matches");
    assert_eq!(set.files, paths(&["b.proto", "sub/a.proto", "z.proto"]));
}

#[test]
fn discover_empty_match_fails() {
    let root = String::from("schemas");
    let entries = paths(&["c.txt", "readme.md"]);
    match discover(&root, &entries) {
        Ok(_) => panic!("no schema file, discovery must fail"),
        Err(e) => assert_eq!(e.message(), "no schema files found in schemas"),
    }
}

#[test]
fn discover_no_entries_fails() {
    let root = String::from("empty_dir");
    let entries: Vec<String> = Vec::new();
    match discover(&root, &entries) {
        Ok(_) => panic!("an empty directory must fail discovery"),
        Err(e) => assert_eq!(e.message(), "no schema files found in empty_dir"),
    }
}

#[test]
fn extension_matching_edges() {
    assert!(has_schema_extension(&String::from(".proto")));
    assert!(has_schema_extension(&String::from("x.proto")));
    assert!(!has_schema_extension(&String::from("proto")));
    assert!(!has_schema_extension(&String::from("x.protox")));
    assert!(!has_schema_extension(&String::from("a.Proto")));
    assert!(!has_schema_extension(&String::from("")));
}

#[test]
fn request_shape_is_fixed() {
    let root = String::from("schemas");
    let entries = paths(&["one.proto", "two.proto"]);
    let set = discover(&root, &entries).ok().expect("two matches");
    let request = build_request(set, paths(&["schemas"]), String::from("src/generated"));
    assert!(
        request.options
            == GenerationOptions { server: true, client: false, transport: true }
    );
    assert_eq!(request.out_dir, "src/generated");
    assert_eq!(request.combined_file, "_includes");
    assert_eq!(request.include_dirs, paths(&["schemas"]));
    assert_eq!(request.schemas.files, paths(&["one.proto", "two.proto"]));
}

#[test]
fn regeneration_builds_identical_request() {
    let root = String::from("schemas");
    let entries = paths(&["one.proto", "two.proto"]);
    let first_set = discover(&root, &entries).ok().expect("two matches");
    let second_set = discover(&root, &entries).ok().expect("two matches");
    let first = build_request(first_set, paths(&["schemas"]), String::from("src/generated"));
    let second = build_request(second_set, paths(&["schemas"]), String::from("src/generated"));
    assert_eq!(first.schemas.files, second.schemas.files);
    assert_eq!(first.include_dirs, second.include_dirs);
    assert_eq!(first.out_dir, second.out_dir);
    assert!(first.options == second.options);
    assert_eq!(first.combined_file, second.combined_file);
}

#[test]
fn compiler_failure_is_wrapped() {
    let detail = String::from("missing import");
    let message = rpc_bootstrap::schema::compiler_failure_message(&detail);
    assert_eq!(message, "Protobuf compilation error: missing import");
}

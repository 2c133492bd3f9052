use backend_supervisor::candidate_paths;
use backend_supervisor::ends_with;
use backend_supervisor::join_path;
use backend_supervisor::select_first_existing;

#[test]
fn resource_dir_candidates_come_first() {
    // With a resource directory supplied, its candidates open the list, in
    // base-name order, before every development fallback.
    let paths = candidate_paths(Some("/opt/app/resources"), "");
    assert_eq!(paths[0], "/opt/app/resources/translate_backend");
    assert_eq!(paths[1], "/opt/app/resources/translate_backend.exe");
    assert_eq!(paths[2], "./translate_backend");
    assert_eq!(paths[3], "./backend/dist/translate_backend");
    assert_eq!(paths[4], "../backend/dist/translate_backend");
    assert_eq!(paths.len(), 5);
}

#[test]
fn resource_dir_wins_over_fallback() {
    // A match in the resource directory and a match among the fallbacks:
    // the resource path is selected, never the fallback.
    let paths = candidate_paths(Some("/opt/app/resources"), "");
    let exists: Vec<bool> = paths
        .iter()
        .map(|p| p == "/opt/app/resources/translate_backend" || p == "./translate_backend")
        .collect();
    let selected = select_first_existing(&paths, &exists).expect("a candidate exists");
    assert_eq!(paths[selected], "/opt/app/resources/translate_backend");
}

#[test]
fn suffix_variant_follows_each_unsuffixed_candidate() {
    let paths = candidate_paths(None, ".exe");
    let expected = vec![
        "./translate_backend",
        "./translate_backend.exe",
        "./backend/dist/translate_backend",
        "./backend/dist/translate_backend.exe",
        "../backend/dist/translate_backend",
        "../backend/dist/translate_backend.exe",
    ];
    assert_eq!(paths, expected);
}

#[test]
fn suffixed_candidate_gets_no_second_variant() {
    // The Windows-named resource candidate already ends in the suffix, so it
    // appears once; the neutral name is followed by its suffixed variant.
    let paths = candidate_paths(Some("res"), ".exe");
    let expected = vec![
        "res/translate_backend",
        "res/translate_backend.exe",
        "res/translate_backend.exe",
        "./translate_backend",
        "./translate_backend.exe",
        "./backend/dist/translate_backend",
        "./backend/dist/translate_backend.exe",
        "../backend/dist/translate_backend",
        "../backend/dist/translate_backend.exe",
    ];
    assert_eq!(paths, expected);
}

#[test]
fn suffix_fallback_finds_suffixed_file() {
    // Only the suffixed variant of an unsuffixed candidate exists: it is
    // still found.
    let paths = candidate_paths(None, ".exe");
    let exists: Vec<bool> = paths.iter().map(|p| p == "./translate_backend.exe").collect();
    let selected = select_first_existing(&paths, &exists).expect("the suffixed file exists");
    assert_eq!(paths[selected], "./translate_backend.exe");
}

#[test]
fn empty_suffix_adds_no_variants() {
    let paths = candidate_paths(None, "");
    assert_eq!(
        paths,
        vec![
            "./translate_backend",
            "./backend/dist/translate_backend",
            "../backend/dist/translate_backend",
        ]
    );
}

#[test]
fn no_existing_candidate_selects_nothing() {
    let paths = candidate_paths(Some("/somewhere"), ".exe");
    let exists = vec![false; paths.len()];
    assert_eq!(select_first_existing(&paths, &exists), None);
}

#[test]
fn first_existing_wins_among_several() {
    let paths = candidate_paths(None, ".exe");
    let exists: Vec<bool> = paths.iter().map(|_| true).collect();
    assert_eq!(select_first_existing(&paths, &exists), Some(0));
}

#[test]
fn ends_with_checks_the_tail() {
    assert!(ends_with("translate_backend.exe", ".exe"));
    assert!(!ends_with("translate_backend", ".exe"));
    assert!(ends_with("anything", ""));
    assert!(!ends_with("exe", ".exe"));
    assert!(ends_with(".exe", ".exe"));
}

#[test]
fn join_path_inserts_separator() {
    assert_eq!(join_path("/opt/res", "translate_backend"), "/opt/res/translate_backend");
}

//! The path-safety rules: semantic containment and the whiteout
//! conventions.

use opencontainers::paths::{
    canon_step, check_path_in, classify_change, classify_change_bytes, get_whiteout_path,
    get_whiteout_path_bytes, CanonOutcome, CanonStep, ChangeAction, ChangeActionBytes,
    UnpackError,
};

#[test]
fn check_path_in_posix_plain() {
    assert_eq!(true, check_path_in("/var/", "/var/empty/foo/bar").unwrap());
}

#[test]
fn check_path_in_posix_dotdot_through_sibling() {
    assert_eq!(true, check_path_in("/var/", "/lib/../var/empty/foo/bar").unwrap());
}

#[test]
fn check_path_in_posix_dotdot_inside() {
    assert_eq!(true, check_path_in("/var/empty/bar", "/var/empty/foo/../bar").unwrap());
}

#[test]
fn check_path_in_posix_outside() {
    assert_eq!(false, check_path_in("/lib/", "/var/empty/foo/bar").unwrap());
}

#[test]
fn check_path_in_posix_prefix_not_at_boundary() {
    assert_eq!(false, check_path_in("/var/empty/fo", "/var/empty/foo/bar").unwrap());
}

#[test]
fn check_path_in_windows_plain() {
    assert_eq!(true, check_path_in("C:\\windows\\", "C:\\windows\\foo\\bar").unwrap());
}

#[test]
fn check_path_in_windows_outside() {
    assert_eq!(false, check_path_in("C:\\users", "C:\\windows\\foo\\bar").unwrap());
}

#[test]
fn check_path_in_windows_other_drive() {
    assert_eq!(false, check_path_in("D:\\windows", "C:\\windows\\foo\\bar").unwrap());
}

#[test]
fn check_path_in_dot_segments_collapse() {
    assert_eq!(true, check_path_in("/var", "/var/./empty/./foo").unwrap());
}

#[test]
fn check_path_in_relative_paths() {
    assert_eq!(true, check_path_in("a/b", "a/b/c").unwrap());
    assert_eq!(false, check_path_in("a/b", "a/c").unwrap());
}

#[test]
fn check_path_in_relative_vs_absolute() {
    assert_eq!(false, check_path_in("/var", "var/empty").unwrap());
}

#[test]
fn check_path_in_dotdot_past_root_fails() {
    assert!(check_path_in("/var", "/../etc/passwd").is_err());
    assert!(check_path_in("/../x", "/var").is_err());
}

#[test]
fn check_path_in_windows_mixed_separators() {
    assert_eq!(true, check_path_in("C:\\windows", "C:/windows/foo").unwrap());
}

#[test]
fn canon_step_joins_resolved_prefix_and_rest() {
    match canon_step("/var", "empty/foo", CanonOutcome::Resolved("/var".to_string())) {
        CanonStep::Stop(p) => assert_eq!(p, "/var/empty/foo"),
        other => panic!("expected the walk to stop, got {:?}", other),
    }
    match canon_step("/var/", "empty", CanonOutcome::Resolved("/var/".to_string())) {
        CanonStep::Stop(p) => assert_eq!(p, "/var/empty"),
        other => panic!("expected the walk to stop, got {:?}", other),
    }
    match canon_step("/var/empty", "", CanonOutcome::Resolved("/var/empty".to_string())) {
        CanonStep::Stop(p) => assert_eq!(p, "/var/empty"),
        other => panic!("expected the walk to stop, got {:?}", other),
    }
}

#[test]
fn canon_step_skips_missing_and_fails_on_io() {
    assert!(matches!(
        canon_step("/var/empty", "foo", CanonOutcome::NotFound),
        CanonStep::Continue
    ));
    match canon_step("/var/empty", "foo", CanonOutcome::IoFailure("denied".to_string())) {
        CanonStep::Fail(UnpackError::CanonicalizePath(a, m)) => {
            assert_eq!(a, "/var/empty");
            assert_eq!(m, "denied");
        },
        other => panic!("expected a canonicalize failure, got {:?}", other),
    }
}

#[test]
fn whiteout_path_stripped() {
    let got = get_whiteout_path("a/b/.wh.c").unwrap();
    assert_eq!(got, "a/b/c");
}

#[test]
fn whiteout_path_none_for_plain_file() {
    assert!(get_whiteout_path("a/b/c").is_none());
}

#[test]
fn whiteout_path_bare_name() {
    assert_eq!(get_whiteout_path(".wh.c").unwrap(), "c");
}

#[test]
fn whiteout_path_prefix_not_at_name_start() {
    assert!(get_whiteout_path("a/b/x.wh.c").is_none());
}

#[test]
fn whiteout_path_ignores_one_trailing_separator() {
    assert_eq!(get_whiteout_path("a/.wh.x/").unwrap(), "a/x");
    assert_eq!(get_whiteout_path("a/b/.wh.c/").unwrap(), "a/b/c");
}

#[test]
fn classify_opaque_marker_with_trailing_separator() {
    match classify_change("a/b/.wh..wh..opq/") {
        ChangeAction::WhiteoutFolder(p) => assert_eq!(p, "a/b"),
        other => panic!("expected a folder whiteout, got {:?}", other),
    }
}

#[test]
fn classify_opaque_marker_whiteouts_folder() {
    match classify_change("a/b/.wh..wh..opq") {
        ChangeAction::WhiteoutFolder(p) => assert_eq!(p, "a/b"),
        other => panic!("expected a folder whiteout, got {:?}", other),
    }
}

#[test]
fn classify_whiteout_file() {
    match classify_change("a/b/.wh.passwd") {
        ChangeAction::WhiteoutFile(p) => assert_eq!(p, "a/b/passwd"),
        other => panic!("expected a file whiteout, got {:?}", other),
    }
}

#[test]
fn classify_plain_entry_is_add() {
    assert!(matches!(classify_change("a/b/hello"), ChangeAction::Add));
    assert!(matches!(classify_change("hello"), ChangeAction::Add));
}

#[test]
fn whiteout_bytes_handle_paths_that_are_not_text() {
    // 0xff can stand in a POSIX file name but not in text.
    let raw = b"a/.wh.\xffx".to_vec();
    assert_eq!(get_whiteout_path_bytes(&raw).unwrap(), b"a/\xffx".to_vec());
    let plain = b"a/\xffx".to_vec();
    assert!(get_whiteout_path_bytes(&plain).is_none());
}

#[test]
fn classify_bytes_matches_the_text_classification() {
    match classify_change_bytes(&b"a/b/.wh..wh..opq".to_vec()) {
        ChangeActionBytes::WhiteoutFolder(p) => assert_eq!(p, b"a/b".to_vec()),
        other => panic!("expected a folder whiteout, got {:?}", other),
    }
    match classify_change_bytes(&b"a/b/.wh.passwd".to_vec()) {
        ChangeActionBytes::WhiteoutFile(p) => assert_eq!(p, b"a/b/passwd".to_vec()),
        other => panic!("expected a file whiteout, got {:?}", other),
    }
    assert_eq!(classify_change_bytes(&b"a/b/hello".to_vec()), ChangeActionBytes::Add);
}

#[test]
fn classify_opaque_marker_at_archive_root() {
    match classify_change(".wh..wh..opq") {
        ChangeAction::WhiteoutFolder(p) => assert_eq!(p, ""),
        other => panic!("expected a folder whiteout, got {:?}", other),
    }
}

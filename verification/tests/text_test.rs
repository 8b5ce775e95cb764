use kclvm_api::compare::{same_path_modulo_separators, strip_path_separators};
use kclvm_api::error::{ErrorCategory, ErrorKind, ServiceError};
use kclvm_api::text::{bytes_eq, bytes_le, str_eq, str_le};

#[test]
fn strings_are_equal_when_their_characters_are() {
    assert!(str_eq("", ""));
    assert!(str_eq("KclvmService.Test", "KclvmService.Test"));
    assert!(str_eq("é", "\u{e9}"));
    assert!(!str_eq("a", ""));
    assert!(!str_eq("a", "b"));
    assert!(!str_eq("ab", "abc"));
    assert!(!str_eq("e\u{301}", "\u{e9}"));
    assert!(bytes_eq(&[], &[]));
    assert!(bytes_eq(&[0, 1], &[0, 1]));
    assert!(!bytes_eq(&[0, 1], &[0, 2]));
    assert!(!bytes_eq(&[0, 1], &[0]));
}

#[test]
fn strings_are_ordered_by_their_first_difference() {
    assert!(bytes_le(&[], &[]));
    assert!(bytes_le(&[], &[0]));
    assert!(!bytes_le(&[0], &[]));
    assert!(bytes_le(&[1, 2], &[1, 2]));
    assert!(bytes_le(&[1, 2], &[1, 2, 0]));
    assert!(!bytes_le(&[1, 2, 0], &[1, 2]));
    assert!(bytes_le(&[1, 2, 9], &[1, 3]));
    assert!(!bytes_le(&[1, 3], &[1, 2, 9]));
    assert!(bytes_le(&[127], &[128]));
    assert!(str_le("a", "b"));
    assert!(str_le("a", "a"));
    assert!(str_le("Z", "a"));
    assert!(!str_le("b", "a"));
    assert!(str_le("pkg", "pkg/a"));
    assert!(str_le("z", "é"));
    for (a, b) in [("x/a_test.k", "x/b_test.k"), ("", "a"), ("same", "same"), ("ab", "b")] {
        assert_eq!(str_le(a, b), a <= b);
        assert_eq!(str_le(b, a), b <= a);
    }
}

#[test]
fn separators_are_stripped_and_nothing_else() {
    assert_eq!(strip_path_separators(""), "");
    assert_eq!(strip_path_separators("main.k"), "main.k");
    assert_eq!(strip_path_separators("./src/testdata/main.k"), ".srctestdatamain.k");
    assert_eq!(strip_path_separators(".\\src\\testdata\\main.k"), ".srctestdatamain.k");
    assert_eq!(strip_path_separators("C:\\a/b\\c"), "C:abc");
    assert_eq!(strip_path_separators("///"), "");
    assert_eq!(strip_path_separators("\\"), "");
    assert_eq!(strip_path_separators("数据/é\\k"), "数据ék");
    assert_eq!(strip_path_separators("a b|c:d"), "a b|c:d");
}

#[test]
fn paths_are_compared_without_their_separators() {
    assert!(same_path_modulo_separators("./src/testdata/main.k", ".\\src\\testdata\\main.k"));
    assert!(same_path_modulo_separators("a/b", "ab"));
    assert!(same_path_modulo_separators("", "/"));
    assert!(!same_path_modulo_separators("a/b", "a/c"));
    assert!(!same_path_modulo_separators("a/b", "b/a"));
}

#[test]
fn each_kind_of_failure_has_its_family_and_its_message() {
    let table = [
        (ErrorKind::UnknownMethod, ErrorCategory::Routing, "unknown method: x"),
        (ErrorKind::MalformedPayload, ErrorCategory::Routing, "malformed payload: x"),
        (ErrorKind::CompileFailed, ErrorCategory::Diagnostic, "compilation failed: x"),
        (ErrorKind::InternalFault, ErrorCategory::Fault, "internal fault: x"),
        (ErrorKind::MissingArtifact, ErrorCategory::Resource, "artifact not found: x"),
        (ErrorKind::UnwritableOutput, ErrorCategory::Resource, "output not writable: x"),
        (ErrorKind::UnreadableSource, ErrorCategory::Resource, "source not readable: x"),
    ];
    for (kind, category, message) in table {
        let e = ServiceError::new(kind, "x");
        assert_eq!(e.kind, kind);
        assert_eq!(e.detail, "x");
        assert_eq!(kind.category(), category);
        assert_eq!(e.category(), category);
        assert_eq!(e.message(), message);
    }
    assert_eq!(ServiceError::new(ErrorKind::UnknownMethod, "").message(), "unknown method: ");
    assert_eq!(ErrorKind::MissingArtifact.label(), "artifact not found");
}

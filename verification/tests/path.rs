use std::path::PathBuf;

use rhai_fs::path::{
    add, add_string, append, is_absolute, is_relative, path, to_string, PathValue,
};

#[test]
fn test_path() {
    // Add two paths.
    let path_one = path("bar");
    assert_eq!(add(&path_one, &path("foo.txt")), path("bar/foo.txt"));

    // Add string to path.
    let path_one = path("bar");
    assert_eq!(add_string(&path_one, "foo.txt"), path("bar/foo.txt"));

    // Append a path.
    let mut path_one = path("bar");
    append(&mut path_one, &path("foo.txt"));
    assert_eq!(path_one, path("bar/foo.txt"));

    // Append a path with a string.
    let mut path_one = path("bar");
    append(&mut path_one, &path("foo.txt"));
    assert_eq!(to_string(&path_one), "bar/foo.txt");
}

#[test]
fn adding_leaves_both_operands_as_they_were() {
    let left = path("bar");
    let right = path("foo.txt");
    let _ = add(&left, &right);
    assert_eq!(left, path("bar"));
    assert_eq!(right, path("foo.txt"));
}

#[test]
fn absolute_operand_replaces() {
    assert_eq!(add(&path("bar"), &path("/etc/hosts")), path("/etc/hosts"));
    assert_eq!(add(&path("/usr"), &path("/")), path("/"));
    let mut left = path("bar/baz");
    append(&mut left, &path("/tmp"));
    assert_eq!(left, path("/tmp"));
}

#[test]
fn relative_operand_gets_one_separator() {
    assert_eq!(add(&path("bar/"), &path("foo.txt")), path("bar/foo.txt"));
    assert_eq!(add(&path("/"), &path("foo.txt")), path("/foo.txt"));
    assert_eq!(add(&path(""), &path("foo.txt")), path("foo.txt"));
    assert_eq!(add(&path("bar"), &path("")), path("bar/"));
    assert_eq!(add(&path(""), &path("")), path(""));
    assert_eq!(add(&path("a/b"), &path("../c")), path("a/b/../c"));
}

#[test]
fn joining_agrees_with_the_host() {
    let operands = [
        "", "/", "bar", "bar/", "/bar", "/bar/", "foo.txt", "a/b", "a//b", "..", ".", "../x", "//",
        "é", "a b",
    ];
    for left in operands {
        for right in operands {
            let host = PathBuf::from(left).join(right);
            let joined = add(&path(left), &path(right));
            assert_eq!(to_string(&joined), host.to_str().unwrap(), "{left:?} + {right:?}");

            let mut grown = path(left);
            append(&mut grown, &path(right));
            assert_eq!(grown, joined, "{left:?} += {right:?}");

            assert_eq!(add_string(&path(left), right), joined);
        }
        assert_eq!(is_absolute(&path(left)), PathBuf::from(left).is_absolute(), "{left:?}");
        assert_eq!(is_relative(&path(left)), PathBuf::from(left).is_relative(), "{left:?}");
    }
}

#[test]
fn absolute_paths_start_at_the_root() {
    assert!(is_absolute(&path("/")));
    assert!(is_absolute(&path("/bar/foo.txt")));
    assert!(!is_absolute(&path("bar/foo.txt")));
    assert!(!is_absolute(&path("")));
    assert!(is_relative(&path("bar")));
    assert!(is_relative(&path("")));
    assert!(!is_relative(&path("/bar")));
}

#[test]
fn text_of_a_path_is_what_it_was_made_from() {
    for text in ["", "bar", "bar/foo.txt", "/tmp/ünï/✓", "a b"] {
        assert_eq!(to_string(&path(text)), text);
        assert_eq!(path(text).as_bytes().as_slice(), text.as_bytes());
    }
}

#[test]
fn path_without_text_spells_as_empty() {
    let raw = PathValue::from_bytes(vec![0x2f, 0x74, 0xff, 0x6d]);
    assert_eq!(to_string(&raw), "");
    assert_eq!(raw.as_bytes(), &vec![0x2f, 0x74, 0xff, 0x6d]);
    assert!(is_absolute(&raw));
    let joined = add(&path("bar"), &PathValue::from_bytes(vec![0xfe]));
    assert_eq!(joined.as_bytes(), &vec![0x62, 0x61, 0x72, 0x2f, 0xfe]);
    assert_eq!(to_string(&joined), "");
}

#[test]
fn joining_onto_a_canonical_directory_names_the_file_in_it() {
    let outer = tempfile::tempdir().unwrap();
    let inner = tempfile::tempdir_in(outer.path()).unwrap();
    let file = tempfile::NamedTempFile::new_in(inner.path()).unwrap();
    let inner_name = inner.path().file_name().unwrap().to_str().unwrap();
    let file_name = file.path().file_name().unwrap().to_str().unwrap();

    // Leave the directory and enter it again, then resolve.
    let detour = add_string(&add_string(&path(inner.path().to_str().unwrap()), ".."), inner_name);
    let resolved = PathBuf::from(to_string(&detour)).canonicalize().unwrap();
    let joined = add(&path(resolved.to_str().unwrap()), &path(file_name));

    let direct = add_string(
        &add_string(&path(outer.path().to_str().unwrap()), inner_name),
        file_name,
    );
    let expected = PathBuf::from(to_string(&direct)).canonicalize().unwrap();
    assert_eq!(to_string(&joined), expected.to_str().unwrap());
}

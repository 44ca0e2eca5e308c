use llvmlibc_build::paths::join;

#[test]
fn join_puts_a_separator_between_directory_and_path() {
    assert_eq!(join("/out", "build"), "/out/build");
    assert_eq!(join("out/dir", "src/libc"), "out/dir/src/libc");
}

#[test]
fn join_adds_no_second_separator() {
    assert_eq!(join("/out/", "build"), "/out/build");
    assert_eq!(join("/", "build"), "/build");
}

#[test]
fn join_below_the_empty_directory_is_the_path() {
    assert_eq!(join("", "build"), "build");
    assert_eq!(join("", ""), "");
}

#[test]
fn join_lets_a_rooted_path_stand_for_itself() {
    assert_eq!(join("/out", "/usr/lib"), "/usr/lib");
    assert_eq!(join("", "/usr/lib"), "/usr/lib");
}

#[test]
fn join_with_the_empty_path_ends_in_a_separator() {
    assert_eq!(join("/out", ""), "/out/");
    assert_eq!(join("/out/", ""), "/out/");
}

#[test]
fn join_agrees_with_std() {
    let bases = ["", "/", "/out", "/out/", "a", "a/b", "a/b/", "dir with space"];
    let paths = ["", "x", "x/y", "/x", "/", "crt1.o", "x/"];
    for base in bases.iter() {
        for path in paths.iter() {
            let expected = std::path::Path::new(base).join(path);
            assert_eq!(join(base, path), expected.to_str().unwrap(), "{:?} {:?}", base, path);
        }
    }
}

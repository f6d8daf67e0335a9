use sala::effect::Request;
use sala::path::join;
use std::path::Path;

#[test]
fn join_sets_the_second_path_behind_the_first() {
    assert_eq!(join("/repo", "foo/@bar"), "/repo/foo/@bar");
    assert_eq!(join("/repo/", "foo"), "/repo/foo");
    assert_eq!(join(".", ".sala/key"), "./.sala/key");
    assert_eq!(join("", "foo"), "foo");
    assert_eq!(join("a", ""), "a/");
    assert_eq!(join("", ""), "");
    assert_eq!(join("rel/dir", "x"), "rel/dir/x");
}

#[test]
fn join_lets_a_rooted_path_stand_for_itself() {
    assert_eq!(join("/repo", "/etc/passwd"), "/etc/passwd");
    assert_eq!(join("", "/"), "/");
    assert_eq!(join("a/b", "//x"), "//x");
}

#[test]
fn join_agrees_with_the_standard_library() {
    let parts = ["", "/", ".", "..", "a", "a/", "/a", "a/b", "a//b/", "//", "ä/ö", "a b", "./x", ".sala/key"];
    for base in parts {
        for rest in parts {
            let expected = Path::new(base).join(rest);
            assert_eq!(join(base, rest), expected.to_str().unwrap(), "{:?} {:?}", base, rest);
        }
    }
}

#[test]
fn set_makes_the_parent_of_the_joined_path() {
    for (repo, path, dir) in [
        ("/repo", "a/b/c/@secret", "/repo/a/b/c"),
        ("/repo", "x", "/repo"),
        (".", "foo/@new", "./foo"),
        ("/repo/", "foo//@new", "/repo/foo"),
        ("/repo", "/abs/@s", "/abs"),
    ] {
        match sala::set(repo, path, sala::config::default_config()).request() {
            Request::CreateDirAll(made) => assert_eq!(made, dir),
            other => panic!("{:?}", other),
        }
    }
    for path in ["", "/"] {
        let target = join("/", path);
        match sala::set("/", path, sala::config::default_config()).request() {
            Request::IsDir(asked) => assert_eq!(asked, target),
            other => panic!("{:?}", other),
        }
    }
}

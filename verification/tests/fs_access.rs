use psammophis::capabilities::fs::{self, Operation, ParseOperationError, PathKind};
use psammophis::capabilities::{Fs, FsDirError};

fn dir_grant(op: Operation, segs: &[&str]) -> fs::Capability {
    fs::Capability {
        path: segs.iter().map(|s| String::from(*s)).collect(),
        op,
        kind: PathKind::Directory,
    }
}

fn file_grant(op: Operation, segs: &[&str]) -> fs::Capability {
    fs::Capability { path: segs.iter().map(|s| String::from(*s)).collect(), op, kind: PathKind::File }
}

#[test]
fn directory_grant_covers_nested_paths() {
    let g = dir_grant(Operation::Read, &["data"]);
    assert_eq!(g.has_access("/data/x.txt", "r"), Ok(true));
    assert_eq!(g.has_access("/data/x.txt", "w"), Ok(false));
    assert_eq!(g.has_access("/other/x.txt", "r"), Ok(false));
    assert_eq!(g.has_access("/data/sub/y.txt", "r"), Ok(true));
}

#[test]
fn directory_grant_covers_its_own_root() {
    let g = dir_grant(Operation::Read, &["data"]);
    assert_eq!(g.has_access("/data", "r"), Ok(true));
    assert_eq!(g.has_access("/data/", "r"), Ok(true));
    assert_eq!(g.has_access("/database", "r"), Ok(false));
}

#[test]
fn file_grant_covers_exactly_its_file() {
    let g = file_grant(Operation::ReadWrite, &["etc", "app.conf"]);
    assert_eq!(g.has_access("/etc/app.conf", "r"), Ok(true));
    assert_eq!(g.has_access("/etc/app.conf", "w"), Ok(true));
    assert_eq!(g.has_access("/etc/other.conf", "r"), Ok(false));
    assert_eq!(g.has_access("/etc/app.conf/x", "r"), Ok(false));
}

#[test]
fn traversal_cannot_escape_a_directory_grant() {
    let g = dir_grant(Operation::Read, &["data"]);
    assert_eq!(g.has_access("/data/../etc/passwd", "r"), Ok(false));
    assert_eq!(g.has_access("/data/sub/../x.txt", "r"), Ok(true));
    assert_eq!(g.has_access("/data/./x.txt", "r"), Ok(true));
    assert_eq!(g.has_access("/data//x.txt", "r"), Ok(true));
    assert_eq!(g.has_access("/../data/x.txt", "r"), Ok(true));
}

#[test]
fn relative_requests_are_denied() {
    let g = dir_grant(Operation::Read, &["data"]);
    assert_eq!(g.has_access("data/x.txt", "r"), Ok(false));
    assert_eq!(g.has_access("", "r"), Ok(false));
}

#[test]
fn bad_mode_token_fails_the_check() {
    let g = dir_grant(Operation::Read, &["data"]);
    assert_eq!(g.has_access("/data/x.txt", "q"), Err(ParseOperationError));
}

#[test]
fn root_directory_grant_covers_everything_absolute() {
    let g = dir_grant(Operation::ReadWrite, &[]);
    assert_eq!(g.has_access("/etc/passwd", "r"), Ok(true));
    assert_eq!(g.has_access("/anything", "w"), Ok(true));
    assert_eq!(g.has_access("/anything", "a"), Ok(false));
}

#[test]
fn dir_factory_checks_the_target_kind() {
    let root = Fs::dir(Operation::Read, "/").expect("the root is a directory");
    assert_eq!(root.path.len(), 0);
    assert_eq!(root.op, Operation::Read);
    assert_eq!(root.kind, PathKind::Directory);
    assert_eq!(Fs::dir(Operation::Read, "/etc/passwd").unwrap_err(), FsDirError::IsNoDir);
    assert_eq!(Fs::dir(Operation::Read, "/no/such/dir/anywhere").unwrap_err(), FsDirError::IsNoDir);
}

#[test]
fn file_factory_checks_the_target_kind() {
    let pw = Fs::file(Operation::Read, "/etc/passwd").expect("/etc/passwd is a regular file");
    assert_eq!(pw.path, vec![String::from("etc"), String::from("passwd")]);
    assert_eq!(pw.kind, PathKind::File);
    assert_eq!(Fs::file(Operation::Read, "/").unwrap_err(), FsDirError::IsNoFile);
    assert_eq!(Fs::file(Operation::Read, "/no/such/file").unwrap_err(), FsDirError::IsNoFile);
}

#[test]
fn factories_reject_relative_paths() {
    assert_eq!(Fs::dir(Operation::Read, "etc").unwrap_err(), FsDirError::IsNoDir);
    assert_eq!(Fs::file(Operation::Read, "etc/passwd").unwrap_err(), FsDirError::IsNoFile);
}

#[test]
fn unicode_paths_compare_by_character() {
    let g = dir_grant(Operation::Read, &["dánta", "ceol"]);
    assert_eq!(g.has_access("/dánta/ceol/nótaí.txt", "r"), Ok(true));
    assert_eq!(g.has_access("/dánta/ceól/nótaí.txt", "r"), Ok(false));
    assert_eq!(g.has_access("/dánta/ceol/../ceol/x", "r"), Ok(true));
}

use psammophis::capabilities::fs::{Operation, PathKind};
use psammophis::capabilities::{fs, http, Capability, GrantError, Privilege};

fn data_grant(op: Operation) -> fs::Capability {
    fs::Capability { path: vec![String::from("data")], op, kind: PathKind::Directory }
}

fn endpoint_grant() -> http::Capability {
    http::Capability {
        scheme: String::from("https"),
        host: Some(String::from("example.com")),
        port: Some(443),
        path: String::from("/"),
    }
}

#[test]
fn grant_on_denied_fs_domain_is_rejected() {
    let mut cap = Capability::default();
    let r = cap.add(data_grant(Operation::Read));
    assert_eq!(r, Err(GrantError::IncompatibleCapabilities));
    assert!(matches!(cap.fs, Privilege::NoAccess));
}

#[test]
fn grant_on_denied_http_domain_is_rejected() {
    let mut cap = Capability::default();
    let r = cap.add(endpoint_grant());
    assert_eq!(r, Err(GrantError::IncompatibleCapabilities));
    assert!(matches!(cap.http, Privilege::NoAccess));
}

#[test]
fn grant_on_total_fs_domain_is_absorbed() {
    let mut cap = Capability { fs: Privilege::Total, http: Privilege::NoAccess };
    let r = cap.add(data_grant(Operation::Read));
    assert_eq!(r, Ok(()));
    assert!(matches!(cap.fs, Privilege::Total));
}

#[test]
fn grant_on_total_http_domain_is_absorbed() {
    let mut cap = Capability { fs: Privilege::NoAccess, http: Privilege::Total };
    let r = cap.add(endpoint_grant());
    assert_eq!(r, Ok(()));
    assert!(matches!(cap.http, Privilege::Total));
}

#[test]
fn duplicate_fs_grant_is_stored_once() {
    let mut cap = Capability { fs: Privilege::Limited(Vec::new()), http: Privilege::NoAccess };
    assert_eq!(cap.add(data_grant(Operation::Read)), Ok(()));
    assert_eq!(cap.add(data_grant(Operation::Read)), Ok(()));
    match &cap.fs {
        Privilege::Limited(set) => assert_eq!(set.len(), 1),
        _ => panic!("fs domain must stay limited"),
    }
}

#[test]
fn distinct_fs_grants_are_both_stored() {
    let mut cap = Capability { fs: Privilege::Limited(Vec::new()), http: Privilege::NoAccess };
    assert_eq!(cap.add(data_grant(Operation::Read)), Ok(()));
    assert_eq!(cap.add(data_grant(Operation::Write)), Ok(()));
    match &cap.fs {
        Privilege::Limited(set) => assert_eq!(set.len(), 2),
        _ => panic!("fs domain must stay limited"),
    }
}

#[test]
fn duplicate_http_grant_is_stored_once() {
    let mut cap = Capability { fs: Privilege::NoAccess, http: Privilege::Limited(Vec::new()) };
    assert_eq!(cap.add(endpoint_grant()), Ok(()));
    assert_eq!(cap.add(endpoint_grant()), Ok(()));
    match &cap.http {
        Privilege::Limited(set) => assert_eq!(set.len(), 1),
        _ => panic!("http domain must stay limited"),
    }
}

#[test]
fn granting_never_crosses_domains() {
    let mut cap = Capability { fs: Privilege::Limited(Vec::new()), http: Privilege::Total };
    assert_eq!(cap.add(data_grant(Operation::Append)), Ok(()));
    assert!(matches!(cap.http, Privilege::Total));
    let mut cap2 = Capability { fs: Privilege::Total, http: Privilege::Limited(Vec::new()) };
    assert_eq!(cap2.add(endpoint_grant()), Ok(()));
    assert!(matches!(cap2.fs, Privilege::Total));
}

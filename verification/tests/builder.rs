use psammophis::capabilities::fs::Operation;
use psammophis::capabilities::{Capability, Fs, Http, Privilege};
use psammophis::vm::{BuildError, VmBuilder};

#[test]
fn test_no_capabilities_build() {
    VmBuilder::default().build().expect("no capability build should succeed");
}

#[test]
fn test_fs_total_build() {
    let mut b = VmBuilder::default();
    b.fs_total();
    b.build().expect("fs total capable should build");
}

#[test]
fn test_no_fs_build() {
    let mut b = VmBuilder::default();
    b.no_fs();
    b.build().expect("no fs capable should build");
}

#[test]
fn test_mount_build() {
    let mut b = VmBuilder::default();
    b.fs_limited();
    b.mount("/a").expect("mount on a limited domain succeeds");
    b.mount("/b").expect("mount on a limited domain succeeds");
    b.build().expect("mount should build");
}

#[test]
fn test_fs_capability_build() {
    let mut b = VmBuilder::default();
    b.fs_limited();
    b.fs_capability(Fs::dir(Operation::Read, "/").expect("should be dir"))
        .expect("add fs root capability");
    b.fs_capability(Fs::file(Operation::Write, "/etc/passwd").expect("should be file"))
        .expect("add fs file capability");
    b.build().expect("fs capability should build");
}

#[test]
fn test_http_total_build() {
    let mut b = VmBuilder::default();
    b.http_total();
    b.build().expect("http total capable should build");
}

#[test]
fn test_no_http_build() {
    let mut b = VmBuilder::default();
    b.no_http();
    b.build().expect("no-http vm should build");
}

#[test]
fn test_http_capability_build() {
    let mut b = VmBuilder::default();
    b.http_limited();
    b.http_capability(Http::url("https://www.google.com/").expect("http capability should parse"))
        .expect("add google capability");
    b.http_capability(
        Http::url("https://www.facebook.com/").expect("http capability should parse"),
    )
    .expect("add facebook capability");
    b.build().expect("http capable should build");
}

#[test]
fn granting_on_a_fresh_builder_is_rejected() {
    let mut b = VmBuilder::new();
    let g = Http::url("https://example.com/").expect("should parse");
    assert_eq!(b.http_capability(g), Err(BuildError::IncompatibleCapabilities));
    let mut b2 = VmBuilder::new();
    assert_eq!(b2.mount("/data"), Err(BuildError::IncompatibleCapabilities));
}

#[test]
fn mount_grants_read_write_on_the_subtree() {
    let mut b = VmBuilder::new();
    b.fs_limited();
    b.mount("/data").expect("mount on a limited domain succeeds");
    let vm = b.build().expect("sealing always succeeds");
    assert_eq!(vm.check_open("/data/x", "r"), Ok(()));
    assert_eq!(vm.check_open("/data/x", "w"), Ok(()));
    assert!(vm.check_open("/data/x", "a").is_err());
}

#[test]
fn with_capabilities_replaces_the_accumulated_policy() {
    let mut b = VmBuilder::new();
    b.fs_total();
    b.with_capabilities(Capability { fs: Privilege::NoAccess, http: Privilege::Total })
        .expect("setting capabilities wholesale succeeds");
    let vm = b.build().expect("sealing always succeeds");
    assert!(vm.check_open("/data/x", "r").is_err());
}

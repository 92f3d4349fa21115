//! The capability model: privilege lattices, grants, and the aggregate
//! capability that a policy builder accumulates.

pub mod fs;
pub mod http;
pub mod path;

use vstd::prelude::*;

use path::{canon, is_absolute};

verus! {

/// Privilege level over a grant-set type `T`.
#[derive(Debug)]
pub enum Privilege<T> {
    /// Access only for the grants held in `T`.
    Limited(T),
    /// Completely unrestricted access in this domain.
    Total,
    /// No access at all in this domain.
    NoAccess,
}

impl<T> Default for Privilege<T> {
    /// A privilege starts as explicit denial.
    fn default() -> (r: Self)
        ensures
            r is NoAccess,
    {
        Privilege::NoAccess
    }
}

/// The grant was rejected by the domain's privilege.
#[derive(Clone, Copy, Debug, PartialEq, Eq, Structural)]
pub enum GrantError {
    /// The domain's privilege is `NoAccess`: denial is final until the
    /// domain is re-declared wholesale.
    IncompatibleCapabilities,
}

/// The set of capabilities a mediated runtime has: one privilege per
/// resource domain. The domains are independent; granting never crosses
/// them.
#[derive(Debug)]
pub struct Capability {
    /// Files and directories the runtime may touch. A directory grant
    /// covers everything nested under it.
    pub fs: Privilege<Vec<fs::Capability>>,
    /// Endpoints the runtime may make requests to.
    pub http: Privilege<Vec<http::Capability>>,
}

/// The filesystem privilege, with each grant replaced by its view.
pub open spec fn fs_priv_view(p: Privilege<Vec<fs::Capability>>) -> Privilege<
    Seq<fs::GrantView>,
> {
    match p {
        Privilege::NoAccess => Privilege::NoAccess,
        Privilege::Total => Privilege::Total,
        Privilege::Limited(set) => Privilege::Limited(fs::grant_views(set@)),
    }
}

/// The network privilege, with each grant replaced by its view.
pub open spec fn http_priv_view(p: Privilege<Vec<http::Capability>>) -> Privilege<
    Seq<http::GrantView>,
> {
    match p {
        Privilege::NoAccess => Privilege::NoAccess,
        Privilege::Total => Privilege::Total,
        Privilege::Limited(set) => Privilege::Limited(http::grant_views(set@)),
    }
}

/// Two capabilities that authorise exactly the same requests.
pub open spec fn cap_eq(a: Capability, b: Capability) -> bool {
    fs_priv_view(a.fs) == fs_priv_view(b.fs) && http_priv_view(a.http) == http_priv_view(b.http)
}

/// A value that can be granted into a [`Capability`]. Each grant type
/// declares which domain it belongs to by how it routes into the aggregate.
pub trait Grant: Sized {
    /// How the aggregate and the result relate to the aggregate before the
    /// grant.
    spec fn grant_effect(
        self,
        before: Capability,
        after: Capability,
        r: Result<(), GrantError>,
    ) -> bool;

    /// Routes this grant into its domain's privilege: rejected on
    /// `NoAccess`, absorbed on `Total`, inserted on `Limited`.
    fn grant(self, cap: &mut Capability) -> (r: Result<(), GrantError>)
        ensures
            self.grant_effect(*old(cap), *final(cap), r),
    ;
}

impl Capability {
    /// Adds one grant of either domain through the grant protocol.
    pub fn add<A: Grant>(&mut self, item: A) -> (r: Result<(), GrantError>)
        ensures
            item.grant_effect(*old(self), *final(self), r),
    {
        item.grant(self)
    }

    /// An independent copy that authorises exactly the same requests.
    pub fn snapshot(&self) -> (r: Capability)
        ensures
            cap_eq(r, *self),
    {
        let fs_p: Privilege<Vec<fs::Capability>> = match &self.fs {
            Privilege::NoAccess => Privilege::NoAccess,
            Privilege::Total => Privilege::Total,
            Privilege::Limited(set) => Privilege::Limited(fs::clone_grants(set)),
        };
        let http_p: Privilege<Vec<http::Capability>> = match &self.http {
            Privilege::NoAccess => Privilege::NoAccess,
            Privilege::Total => Privilege::Total,
            Privilege::Limited(set) => Privilege::Limited(http::clone_grants(set)),
        };
        Capability { fs: fs_p, http: http_p }
    }
}

impl Default for Capability {
    /// A capability is born with both domains denied.
    fn default() -> (r: Self)
        ensures
            r.fs is NoAccess,
            r.http is NoAccess,
    {
        Capability { fs: Privilege::NoAccess, http: Privilege::NoAccess }
    }
}

/// Factory for network grants.
pub struct Http;

#[verifier::external_type_specification]
#[verifier::external_body]
pub struct ExParseError(url::ParseError);

/// What the URL parser makes of an input string: `Some` endpoint descriptor
/// exactly when parsing succeeds. Parsing depends on the string alone.
pub uninterp spec fn url_parts_of(input: Seq<char>) -> Option<http::GrantView>;

impl Http {
    /// Relies on url::Url::parse and its accessors scheme, host_str,
    /// port_or_known_default and path: parsing is a pure function of the
    /// input string, and the accessors read the parsed endpoint back.
    #[verifier::external_body]
    pub fn url(input: &str) -> (r: Result<http::Capability, url::ParseError>)
        ensures
            r is Ok <==> url_parts_of(input@) is Some,
            r is Ok ==> Some(r->Ok_0@) == url_parts_of(input@),
    {
        let parsed = url::Url::parse(input)?;
        Ok(http::Capability {
            scheme: parsed.scheme().to_owned(),
            host: parsed.host_str().map(|h| h.to_owned()),
            port: parsed.port_or_known_default(),
            path: parsed.path().to_owned(),
        })
    }
}

/// Factory for filesystem grants.
pub struct Fs;

/// The grant's target was not of the expected kind.
#[derive(Clone, Copy, Debug, PartialEq, Eq, Structural)]
pub enum FsDirError {
    IsNoDir,
    IsNoFile,
}

/// Relies on std::path::Path::is_dir: whether the path currently names a
/// directory on disk. The answer depends on the state of the filesystem at
/// the moment of the call, so nothing is promised of it.
#[verifier::external_body]
fn path_is_dir(p: &str) -> bool {
    std::path::Path::new(p).is_dir()
}

/// Relies on std::path::Path::is_file: whether the path currently names a
/// regular file on disk. The answer depends on the state of the filesystem
/// at the moment of the call, so nothing is promised of it.
#[verifier::external_body]
fn path_is_file(p: &str) -> bool {
    std::path::Path::new(p).is_file()
}

impl Fs {
    /// A grant of `op` on the directory subtree rooted at `dir`. Fails
    /// unless `dir` is absolute and currently resolves to a directory — a
    /// usability safeguard at construction time, not a security control.
    pub fn dir(op: fs::Operation, dir: &str) -> (r: Result<fs::Capability, FsDirError>)
        ensures
            r is Ok ==> is_absolute(dir@) && r->Ok_0@ == (fs::GrantView {
                segs: canon(dir@),
                op,
                kind: fs::PathKind::Directory,
            }),
            r is Err ==> r->Err_0 == FsDirError::IsNoDir,
    {
        if path::absolute(dir) && path_is_dir(dir) {
            Ok(fs::Capability { path: path::canon_path(dir), op, kind: fs::PathKind::Directory })
        } else {
            Err(FsDirError::IsNoDir)
        }
    }

    /// A grant of `op` on the single regular file `file`. Fails unless
    /// `file` is absolute and currently resolves to a regular file.
    pub fn file(op: fs::Operation, file: &str) -> (r: Result<fs::Capability, FsDirError>)
        ensures
            r is Ok ==> is_absolute(file@) && r->Ok_0@ == (fs::GrantView {
                segs: canon(file@),
                op,
                kind: fs::PathKind::File,
            }),
            r is Err ==> r->Err_0 == FsDirError::IsNoFile,
    {
        if path::absolute(file) && path_is_file(file) {
            Ok(fs::Capability { path: path::canon_path(file), op, kind: fs::PathKind::File })
        } else {
            Err(FsDirError::IsNoFile)
        }
    }
}

} // verus!

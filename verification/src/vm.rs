//! The policy lifecycle: a mutable builder accumulates grants, seals them
//! into an immutable snapshot, and the snapshot answers every mediated
//! request. No script-facing entry point ever sees the mutable builder.

use vstd::prelude::*;

use crate::capabilities::{
    cap_eq, fs, fs_priv_view, http, http_priv_view, Capability, Privilege,
};
use crate::stdlib::io::{open_access, spec_open_access, AccessError};

verus! {

/// A failure reported by the embedded runtime while running a script.
#[derive(Debug)]
pub enum RuntimeError {
    SyntaxError(String),
    NameError(String),
}

/// A failure while building a policy.
#[derive(Clone, Copy, Debug, PartialEq, Eq, Structural)]
pub enum BuildError {
    /// Capabilities were already set wholesale.
    CapabilitiesAlreadySet,
    /// No capabilities were set.
    NoCapbilitiesSet,
    /// A grant was attempted on a domain whose privilege denies it.
    IncompatibleCapabilities,
}

/// A failure while installing a sealed policy into the embedding runtime.
#[derive(Clone, Copy, Debug, PartialEq, Eq, Structural)]
pub enum InitializationError {
    /// The runtime raised an exception during construction or while the
    /// mediated built-ins were being installed.
    PyException,
}

/// Accumulates grants for a policy under construction. Nothing executes
/// against a builder: only the sealed snapshot produced by [`Self::build`]
/// ever reaches a mediated entry point.
pub struct VmBuilder {
    cap: Capability,
}

impl VmBuilder {
    /// The capability accumulated so far.
    pub closed spec fn capability(&self) -> Capability {
        self.cap
    }

    /// A builder whose domains both start fully denied.
    pub fn new() -> (r: VmBuilder)
        ensures
            r.capability().fs is NoAccess,
            r.capability().http is NoAccess,
    {
        VmBuilder { cap: Capability::default() }
    }

    /// Replaces the accumulated capability wholesale.
    pub fn with_capabilities(&mut self, caps: Capability) -> (r: Result<(), BuildError>)
        ensures
            r is Ok,
            final(self).capability() == caps,
    {
        self.cap = caps;
        Ok(())
    }

    /// Declares the filesystem domain unrestricted, discarding any grants
    /// accumulated in it.
    pub fn fs_total(&mut self)
        ensures
            final(self).capability().fs is Total,
            final(self).capability().http == old(self).capability().http,
    {
        self.cap.fs = Privilege::Total;
    }

    /// Declares the filesystem domain fully denied, discarding any grants
    /// accumulated in it.
    pub fn no_fs(&mut self)
        ensures
            final(self).capability().fs is NoAccess,
            final(self).capability().http == old(self).capability().http,
    {
        self.cap.fs = Privilege::NoAccess;
    }

    /// Resets the filesystem domain to an empty enumerated grant set, from
    /// which grants can accumulate.
    pub fn fs_limited(&mut self)
        ensures
            fs_priv_view(final(self).capability().fs) == Privilege::Limited(
                Seq::<fs::GrantView>::empty(),
            ),
            final(self).capability().http == old(self).capability().http,
    {
        let empty: Vec<fs::Capability> = Vec::new();
        proof {
            assert(fs::grant_views(empty@) =~= Seq::<fs::GrantView>::empty());
        }
        self.cap.fs = Privilege::Limited(empty);
    }

    /// Declares the network domain unrestricted, discarding any grants
    /// accumulated in it.
    pub fn http_total(&mut self)
        ensures
            final(self).capability().http is Total,
            final(self).capability().fs == old(self).capability().fs,
    {
        self.cap.http = Privilege::Total;
    }

    /// Declares the network domain fully denied, discarding any grants
    /// accumulated in it.
    pub fn no_http(&mut self)
        ensures
            final(self).capability().http is NoAccess,
            final(self).capability().fs == old(self).capability().fs,
    {
        self.cap.http = Privilege::NoAccess;
    }

    /// Resets the network domain to an empty enumerated grant set, from
    /// which grants can accumulate.
    pub fn http_limited(&mut self)
        ensures
            http_priv_view(final(self).capability().http) == Privilege::Limited(
                Seq::<http::GrantView>::empty(),
            ),
            final(self).capability().fs == old(self).capability().fs,
    {
        let empty: Vec<http::Capability> = Vec::new();
        proof {
            assert(http::grant_views(empty@) =~= Seq::<http::GrantView>::empty());
        }
        self.cap.http = Privilege::Limited(empty);
    }

    /// Adds one filesystem grant through the grant protocol: rejected while
    /// the domain is denied, absorbed while it is unrestricted, inserted
    /// into the enumerated set otherwise.
    pub fn fs_capability(&mut self, cap: fs::Capability) -> (r: Result<(), BuildError>)
        ensures
            final(self).capability().http == old(self).capability().http,
            old(self).capability().fs is NoAccess ==> r == Err::<(), BuildError>(
                BuildError::IncompatibleCapabilities,
            ) && final(self).capability() == old(self).capability(),
            old(self).capability().fs is Total ==> r == Ok::<(), BuildError>(()) && final(self).capability() == old(self).capability(),
            old(self).capability().fs is Limited ==> r == Ok::<(), BuildError>(()) && final(self).capability().fs is Limited && fs::grant_views(
                final(self).capability().fs->Limited_0@,
            ) == fs::inserted(fs::grant_views(old(self).capability().fs->Limited_0@), cap@),
    {
        match self.cap.add(cap) {
            Ok(_) => Ok(()),
            Err(_) => Err(BuildError::IncompatibleCapabilities),
        }
    }

    /// Grants the widest file operation on the whole directory subtree at
    /// `path`, through the grant protocol. The path is taken as given, with
    /// no look at the disk.
    pub fn mount(&mut self, path: &str) -> (r: Result<(), BuildError>)
        ensures
            final(self).capability().http == old(self).capability().http,
            old(self).capability().fs is NoAccess ==> r == Err::<(), BuildError>(
                BuildError::IncompatibleCapabilities,
            ) && final(self).capability() == old(self).capability(),
            old(self).capability().fs is Total ==> r == Ok::<(), BuildError>(()) && final(self).capability() == old(self).capability(),
            old(self).capability().fs is Limited ==> r == Ok::<(), BuildError>(()) && final(self).capability().fs is Limited && fs::grant_views(
                final(self).capability().fs->Limited_0@,
            ) == fs::inserted(
                fs::grant_views(old(self).capability().fs->Limited_0@),
                (fs::GrantView {
                    segs: crate::capabilities::path::canon(path@),
                    op: fs::Operation::ReadWrite,
                    kind: fs::PathKind::Directory,
                }),
            ),
    {
        let grant = fs::Capability {
            path: crate::capabilities::path::canon_path(path),
            op: fs::Operation::ReadWrite,
            kind: fs::PathKind::Directory,
        };
        self.fs_capability(grant)
    }

    /// Adds one network grant through the grant protocol: rejected while
    /// the domain is denied, absorbed while it is unrestricted, inserted
    /// into the enumerated set otherwise.
    pub fn http_capability(&mut self, cap: http::Capability) -> (r: Result<(), BuildError>)
        ensures
            final(self).capability().fs == old(self).capability().fs,
            old(self).capability().http is NoAccess ==> r == Err::<(), BuildError>(
                BuildError::IncompatibleCapabilities,
            ) && final(self).capability() == old(self).capability(),
            old(self).capability().http is Total ==> r == Ok::<(), BuildError>(()) && final(self).capability() == old(self).capability(),
            old(self).capability().http is Limited ==> r == Ok::<(), BuildError>(()) && final(self).capability().http is Limited && http::grant_views(
                final(self).capability().http->Limited_0@,
            ) == http::inserted(http::grant_views(old(self).capability().http->Limited_0@), cap@),
    {
        match self.cap.add(cap) {
            Ok(_) => Ok(()),
            Err(_) => Err(BuildError::IncompatibleCapabilities),
        }
    }

    /// Seals the accumulated capability into an immutable snapshot. Later
    /// mutation of the builder has no effect on snapshots already sealed;
    /// each call produces an independent one.
    pub fn build(&self) -> (r: Result<UninitializedVm, BuildError>)
        ensures
            r is Ok,
            r is Ok ==> cap_eq(r->Ok_0.policy(), self.capability()),
    {
        Ok(UninitializedVm { cap: self.cap.snapshot() })
    }
}

impl Default for VmBuilder {
    /// A builder whose domains both start fully denied.
    fn default() -> (r: Self)
        ensures
            r.capability().fs is NoAccess,
            r.capability().http is NoAccess,
    {
        VmBuilder::new()
    }
}

/// A sealed policy: the immutable snapshot that the mediated entry points
/// consult. It answers every decision an embedding runtime needs before
/// delegating to a real resource primitive.
pub struct UninitializedVm {
    cap: Capability,
}

impl UninitializedVm {
    /// The sealed capability.
    pub closed spec fn policy(&self) -> Capability {
        self.cap
    }

    /// The file-open mediation decision against the sealed policy. While
    /// the filesystem domain is denied, every request fails, whatever the
    /// path.
    pub fn check_open(&self, path: &str, mode: &str) -> (r: Result<(), AccessError>)
        ensures
            r == spec_open_access(fs_priv_view(self.policy().fs), path@, mode@),
            self.policy().fs is NoAccess ==> r == Err::<(), AccessError>(
                AccessError::PermissionDenied,
            ),
    {
        open_access(&self.cap.fs, path, mode)
    }

    /// The endpoint mediation decision against the sealed policy.
    pub fn check_http(&self, req: &http::Capability) -> (r: bool)
        ensures
            r == http::http_allows(http_priv_view(self.policy().http), req@),
    {
        http::http_access(&self.cap.http, req)
    }
}

} // verus!


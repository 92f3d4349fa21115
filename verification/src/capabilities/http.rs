//! Network policy: per-endpoint grants and the endpoint-match decision.

use vstd::prelude::*;

use crate::capabilities::path::{str_eq, str_prefix_of};
use crate::capabilities::{Grant, GrantError, Privilege};

verus! {

/// The mathematical content of one network grant: the endpoint descriptor
/// it was parsed to.
pub ghost struct GrantView {
    pub scheme: Seq<char>,
    pub host: Option<Seq<char>>,
    pub port: Option<u16>,
    pub path: Seq<char>,
}

/// One network grant: a parsed, normalised endpoint descriptor. A request
/// matches when its scheme, host and port equal the grant's exactly and its
/// path starts with the grant's path prefix.
#[derive(Debug)]
pub struct Capability {
    pub scheme: String,
    pub host: Option<String>,
    pub port: Option<u16>,
    pub path: String,
}

impl View for Capability {
    type V = GrantView;

    open spec fn view(&self) -> GrantView {
        GrantView {
            scheme: self.scheme@,
            host: match self.host {
                Some(h) => Some(h@),
                None => None,
            },
            port: self.port,
            path: self.path@,
        }
    }
}

/// The views of a sequence of grants.
pub open spec fn grant_views(grants: Seq<Capability>) -> Seq<GrantView> {
    grants.map_values(|g: Capability| g@)
}

/// Whether the granted endpoint covers the requested one: scheme, host and
/// port match exactly, and the requested path starts with the granted path
/// prefix.
pub open spec fn endpoint_matches(g: GrantView, req: GrantView) -> bool {
    &&& g.scheme == req.scheme
    &&& g.host == req.host
    &&& g.port == req.port
    &&& g.path.is_prefix_of(req.path)
}

/// Whether the set already holds exactly this endpoint descriptor.
pub open spec fn holds_endpoint(s: Seq<GrantView>, g: GrantView) -> bool {
    exists|i: int| 0 <= i < s.len() && s[i] == g
}

/// The endpoint set after one insertion of `g`: unchanged when the
/// descriptor is already present, extended by `g` otherwise.
pub open spec fn inserted(s: Seq<GrantView>, g: GrantView) -> Seq<GrantView> {
    if holds_endpoint(s, g) {
        s
    } else {
        s.push(g)
    }
}

/// Whether some grant in the set covers the request.
pub open spec fn some_endpoint_matches(gs: Seq<GrantView>, req: GrantView) -> bool {
    exists|i: int| 0 <= i < gs.len() && #[trigger] endpoint_matches(gs[i], req)
}

/// Under `Limited`, true exactly when some grant's endpoint covers the
/// request; under `Total` every request succeeds; under `NoAccess` every
/// request fails.
pub open spec fn http_allows(p: Privilege<Seq<GrantView>>, req: GrantView) -> bool {
    match p {
        Privilege::NoAccess => false,
        Privilege::Total => true,
        Privilege::Limited(gs) => some_endpoint_matches(gs, req),
    }
}

impl Capability {
    /// Whether this granted endpoint covers the requested one.
    pub fn allows(&self, req: &Capability) -> (r: bool)
        ensures
            r == endpoint_matches(self@, req@),
    {
        let scheme_ok = str_eq(self.scheme.as_str(), req.scheme.as_str());
        let host_ok = match (&self.host, &req.host) {
            (Some(a), Some(b)) => str_eq(a.as_str(), b.as_str()),
            (None, None) => true,
            _ => false,
        };
        let port_ok = match (self.port, req.port) {
            (Some(a), Some(b)) => a == b,
            (None, None) => true,
            _ => false,
        };
        let path_ok = str_prefix_of(self.path.as_str(), req.path.as_str());
        scheme_ok && host_ok && port_ok && path_ok
    }

    /// Whether this endpoint descriptor equals `other` exactly.
    pub fn same_endpoint(&self, other: &Capability) -> (r: bool)
        ensures
            r == (self@ == other@),
    {
        let scheme_ok = str_eq(self.scheme.as_str(), other.scheme.as_str());
        let host_ok = match (&self.host, &other.host) {
            (Some(a), Some(b)) => str_eq(a.as_str(), b.as_str()),
            (None, None) => true,
            _ => false,
        };
        let port_ok = match (self.port, other.port) {
            (Some(a), Some(b)) => a == b,
            (None, None) => true,
            _ => false,
        };
        let path_ok = str_eq(self.path.as_str(), other.path.as_str());
        scheme_ok && host_ok && port_ok && path_ok
    }

    /// A copy of this grant.
    pub fn duplicate(&self) -> (r: Capability)
        ensures
            r@ == self@,
    {
        Capability {
            scheme: self.scheme.clone(),
            host: match &self.host {
                Some(h) => Some(h.clone()),
                None => None,
            },
            port: self.port,
            path: self.path.clone(),
        }
    }
}

/// Under `Limited`, true exactly when some grant's endpoint covers the
/// request; under `Total` every request succeeds; under `NoAccess` every
/// request fails.
pub fn http_access(p: &Privilege<Vec<Capability>>, req: &Capability) -> (r: bool)
    ensures
        r == http_allows(crate::capabilities::http_priv_view(*p), req@),
{
    match p {
        Privilege::NoAccess => false,
        Privilege::Total => true,
        Privilege::Limited(grants) => {
            let mut i: usize = 0;
            while i < grants.len()
                invariant
                    i <= grants@.len(),
                    crate::capabilities::http_priv_view(*p) == Privilege::Limited(
                        grant_views(grants@),
                    ),
                    forall|j: int| 0 <= j < i ==> !endpoint_matches(grant_views(grants@)[j], req@),
                decreases grants@.len() - i,
            {
                if grants[i].allows(req) {
                    proof {
                        let gs = grant_views(grants@);
                        assert(gs.len() == grants@.len());
                        assert(0 <= i < gs.len() && endpoint_matches(gs[i as int], req@));
                    }
                    return true;
                }
                i += 1;
            }
            false
        },
    }
}

impl Grant for Capability {
    /// Granting on a `NoAccess` domain is rejected and changes nothing; on a
    /// `Total` domain it succeeds and changes nothing; on a `Limited`
    /// domain it succeeds, inserting the endpoint unless it is already
    /// present.
    open spec fn grant_effect(
        self,
        before: super::Capability,
        after: super::Capability,
        r: Result<(), GrantError>,
    ) -> bool {
        match before.http {
            Privilege::NoAccess => r == Err::<(), GrantError>(GrantError::IncompatibleCapabilities)
                && after == before,
            Privilege::Total => r == Ok::<(), GrantError>(()) && after == before,
            Privilege::Limited(gs) => {
                &&& r == Ok::<(), GrantError>(())
                &&& after.fs == before.fs
                &&& after.http is Limited
                &&& grant_views(after.http->Limited_0@) == inserted(grant_views(gs@), self@)
            },
        }
    }

    fn grant(self, cap: &mut super::Capability) -> (r: Result<(), GrantError>) {
        match &mut cap.http {
            Privilege::NoAccess => Err(GrantError::IncompatibleCapabilities),
            Privilege::Total => Ok(()),
            Privilege::Limited(set) => {
                if !contains_endpoint(set, &self) {
                    let ghost old_set = set@;
                    set.push(self);
                    proof {
                        assert(grant_views(set@) =~= grant_views(old_set).push(set@.last()@));
                    }
                }
                Ok(())
            },
        }
    }
}

/// Whether the set already holds exactly this endpoint descriptor.
fn contains_endpoint(set: &Vec<Capability>, g: &Capability) -> (r: bool)
    ensures
        r == holds_endpoint(grant_views(set@), g@),
{
    let mut i: usize = 0;
    while i < set.len()
        invariant
            i <= set@.len(),
            forall|j: int| 0 <= j < i ==> grant_views(set@)[j] != g@,
        decreases set@.len() - i,
    {
        if set[i].same_endpoint(g) {
            proof {
                assert(grant_views(set@)[i as int] == g@);
            }
            return true;
        }
        i += 1;
    }
    false
}

/// Copies a whole endpoint grant set.
pub fn clone_grants(set: &Vec<Capability>) -> (r: Vec<Capability>)
    ensures
        grant_views(r@) == grant_views(set@),
{
    let mut out: Vec<Capability> = Vec::new();
    let mut i: usize = 0;
    while i < set.len()
        invariant
            i <= set@.len(),
            out@.len() == i,
            grant_views(out@) == grant_views(set@).subrange(0, i as int),
        decreases set@.len() - i,
    {
        out.push(set[i].duplicate());
        proof {
            assert(grant_views(out@) =~= grant_views(set@).subrange(0, i as int + 1));
        }
        i += 1;
    }
    proof {
        assert(grant_views(set@).subrange(0, set@.len() as int) =~= grant_views(set@));
    }
    out
}

} // verus!

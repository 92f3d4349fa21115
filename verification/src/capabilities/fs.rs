//! Filesystem policy: the operation vocabulary, per-path grants, and the
//! containment/subsumption access decision.

use vstd::prelude::*;

use crate::capabilities::path::{
    absolute, canon, canon_path, clone_segments, is_absolute, seg_views, segs_eq, segs_prefix_of,
    str_eq,
};
use crate::capabilities::{Grant, GrantError, Privilege};

verus! {

/// A file operation that a grant can authorise and a request can ask for.
#[derive(Clone, Copy, Debug, PartialEq, Eq, Structural)]
pub enum Operation {
    Read,
    Write,
    ReadWrite,
    Append,
    ReadAppend,
}

/// The mode token did not belong to the fixed vocabulary.
#[derive(Clone, Copy, Debug, PartialEq, Eq, Structural)]
pub struct ParseOperationError;

/// Whether a grant for `granted` covers a request for `requested`:
/// `ReadWrite` covers `Read` and `Write`, `ReadAppend` covers `Read` and
/// `Append`, and every operation covers itself.
pub open spec fn subsumes(granted: Operation, requested: Operation) -> bool {
    match granted {
        Operation::Read => requested == Operation::Read,
        Operation::Write => requested == Operation::Write,
        Operation::ReadWrite => requested == Operation::Read || requested == Operation::Write,
        Operation::Append => requested == Operation::Append,
        Operation::ReadAppend => requested == Operation::Read || requested == Operation::Append,
    }
}

/// The fixed, case-sensitive mode-token vocabulary. A binary-suffix token
/// maps to the same operation as its text counterpart; every other string
/// is rejected.
pub open spec fn spec_parse_operation(token: Seq<char>) -> Result<Operation, ParseOperationError> {
    if token == "r"@ || token == "rb"@ {
        Ok(Operation::Read)
    } else if token == "r+"@ || token == "rb+"@ || token == "wb+"@ {
        Ok(Operation::ReadWrite)
    } else if token == "w"@ || token == "wb"@ {
        Ok(Operation::Write)
    } else if token == "a"@ || token == "ab"@ {
        Ok(Operation::Append)
    } else if token == "a+"@ || token == "ab+"@ {
        Ok(Operation::ReadAppend)
    } else {
        Err(ParseOperationError)
    }
}

impl Operation {
    /// Parses a mode token of the fixed vocabulary.
    pub fn from_str(token: &str) -> (r: Result<Operation, ParseOperationError>)
        ensures
            r == spec_parse_operation(token@),
    {
        if str_eq(token, "r") || str_eq(token, "rb") {
            Ok(Operation::Read)
        } else if str_eq(token, "r+") || str_eq(token, "rb+") || str_eq(token, "wb+") {
            Ok(Operation::ReadWrite)
        } else if str_eq(token, "w") || str_eq(token, "wb") {
            Ok(Operation::Write)
        } else if str_eq(token, "a") || str_eq(token, "ab") {
            Ok(Operation::Append)
        } else if str_eq(token, "a+") || str_eq(token, "ab+") {
            Ok(Operation::ReadAppend)
        } else {
            Err(ParseOperationError)
        }
    }

    /// Parses a mode token of the fixed vocabulary.
    pub fn try_from(token: &str) -> (r: Result<Operation, ParseOperationError>)
        ensures
            r == spec_parse_operation(token@),
    {
        Operation::from_str(token)
    }

    /// Whether a grant for `self` covers a request for `requested`.
    pub fn subsumes(&self, requested: Operation) -> (r: bool)
        ensures
            r == subsumes(*self, requested),
    {
        match *self {
            Operation::Read => requested == Operation::Read,
            Operation::Write => requested == Operation::Write,
            Operation::ReadWrite => requested == Operation::Read || requested == Operation::Write,
            Operation::Append => requested == Operation::Append,
            Operation::ReadAppend => requested == Operation::Read || requested
                == Operation::Append,
        }
    }
}

/// Whether a grant names a directory (covering everything nested under it)
/// or a single regular file.
#[derive(Clone, Copy, Debug, PartialEq, Eq, Structural)]
pub enum PathKind {
    Directory,
    File,
}

/// The mathematical content of one filesystem grant: the canonical segments
/// of its path, its operation, and whether it covers a directory subtree or
/// one file.
pub ghost struct GrantView {
    pub segs: Seq<Seq<char>>,
    pub op: Operation,
    pub kind: PathKind,
}

/// One filesystem grant: an operation on a directory subtree or on a single
/// file. The path is held in canonical segment form.
#[derive(Debug)]
pub struct Capability {
    pub path: Vec<String>,
    pub op: Operation,
    pub kind: PathKind,
}

impl View for Capability {
    type V = GrantView;

    open spec fn view(&self) -> GrantView {
        GrantView { segs: seg_views(self.path@), op: self.op, kind: self.kind }
    }
}

/// The views of a sequence of grants.
pub open spec fn grant_views(grants: Seq<Capability>) -> Seq<GrantView> {
    grants.map_values(|g: Capability| g@)
}

/// Whether a grant covers a request whose canonical segments are `cp` and
/// whose absoluteness is `abs`: the request must be absolute, the grant's
/// operation must subsume the requested one, and the grant's path must
/// contain the request's — as a subtree for a directory grant, exactly for
/// a file grant.
pub open spec fn grant_matches_canon(
    g: GrantView,
    abs: bool,
    cp: Seq<Seq<char>>,
    op: Operation,
) -> bool {
    &&& abs
    &&& subsumes(g.op, op)
    &&& match g.kind {
        PathKind::Directory => g.segs.is_prefix_of(cp),
        PathKind::File => g.segs == cp,
    }
}

/// Whether a grant covers a request for `op` on `request`.
pub open spec fn grant_matches(g: GrantView, request: Seq<char>, op: Operation) -> bool {
    grant_matches_canon(g, is_absolute(request), canon(request), op)
}

/// Whether some grant in the set covers a request for `op` on `request`.
pub open spec fn some_grant_matches(gs: Seq<GrantView>, request: Seq<char>, op: Operation) -> bool {
    exists|i: int| 0 <= i < gs.len() && #[trigger] grant_matches(gs[i], request, op)
}

/// Grants are identified by their (path, operation) pair.
pub open spec fn same_grant_key(a: GrantView, b: GrantView) -> bool {
    a.segs == b.segs && a.op == b.op
}

/// Whether the set already holds a grant with this (path, operation) pair.
pub open spec fn holds_grant(s: Seq<GrantView>, g: GrantView) -> bool {
    exists|i: int| 0 <= i < s.len() && #[trigger] same_grant_key(s[i], g)
}

/// The grant set after one insertion of `g`, as the grant protocol leaves a
/// `Limited` set: unchanged when the (path, operation) pair is already
/// present, extended by `g` otherwise.
pub open spec fn inserted(s: Seq<GrantView>, g: GrantView) -> Seq<GrantView> {
    if holds_grant(s, g) {
        s
    } else {
        s.push(g)
    }
}

/// Law: inserting the same (path, operation) grant twice into a `Limited`
/// set stores it exactly once — the second insertion changes nothing.
pub proof fn lemma_insert_idempotent(s: Seq<GrantView>, g: GrantView)
    ensures
        inserted(inserted(s, g), g) == inserted(s, g),
{
    if !holds_grant(s, g) {
        assert(same_grant_key(s.push(g)[s.len() as int], g));
        assert(holds_grant(s.push(g), g));
    }
}

impl Capability {
    /// Whether this grant covers a request whose canonical segments are
    /// `cp` and whose absoluteness is `abs`.
    pub fn matches_request(&self, abs: bool, cp: &Vec<String>, op: Operation) -> (r: bool)
        ensures
            r == grant_matches_canon(self@, abs, seg_views(cp@), op),
    {
        if !abs || !self.op.subsumes(op) {
            return false;
        }
        match self.kind {
            PathKind::Directory => segs_prefix_of(&self.path, cp),
            PathKind::File => segs_eq(&self.path, cp),
        }
    }

    /// Whether this grant allows the operation named by the mode token `op`
    /// on `path`. Fails exactly when the token is outside the vocabulary.
    pub fn has_access(&self, path: &str, op: &str) -> (r: Result<bool, ParseOperationError>)
        ensures
            r == spec_has_access(self@, path@, op@),
    {
        let parsed = match Operation::from_str(op) {
            Ok(o) => o,
            Err(e) => {
                return Err(e);
            },
        };
        let abs = absolute(path);
        let cp = canon_path(path);
        Ok(self.matches_request(abs, &cp, parsed))
    }

    /// A copy of this grant.
    pub fn duplicate(&self) -> (r: Capability)
        ensures
            r@ == self@,
    {
        Capability { path: clone_segments(&self.path), op: self.op, kind: self.kind }
    }
}

/// What `has_access` returns: the grant decision, or the parse failure of
/// the mode token.
pub open spec fn spec_has_access(g: GrantView, path: Seq<char>, token: Seq<char>) -> Result<
    bool,
    ParseOperationError,
> {
    match spec_parse_operation(token) {
        Ok(op) => Ok(grant_matches(g, path, op)),
        Err(e) => Err(e),
    }
}

impl Grant for Capability {
    /// Granting on a `NoAccess` domain is rejected and changes nothing; on a
    /// `Total` domain it succeeds and changes nothing; on a `Limited`
    /// domain it succeeds, inserting the grant unless its (path, operation)
    /// pair is already present.
    open spec fn grant_effect(
        self,
        before: super::Capability,
        after: super::Capability,
        r: Result<(), GrantError>,
    ) -> bool {
        match before.fs {
            Privilege::NoAccess => r == Err::<(), GrantError>(GrantError::IncompatibleCapabilities)
                && after == before,
            Privilege::Total => r == Ok::<(), GrantError>(()) && after == before,
            Privilege::Limited(gs) => {
                &&& r == Ok::<(), GrantError>(())
                &&& after.http == before.http
                &&& after.fs is Limited
                &&& grant_views(after.fs->Limited_0@) == inserted(grant_views(gs@), self@)
            },
        }
    }

    fn grant(self, cap: &mut super::Capability) -> (r: Result<(), GrantError>) {
        match &mut cap.fs {
            Privilege::NoAccess => Err(GrantError::IncompatibleCapabilities),
            Privilege::Total => Ok(()),
            Privilege::Limited(set) => {
                if !contains_grant(set, &self) {
                    let ghost old_set = set@;
                    set.push(self);
                    proof {
                        assert(grant_views(set@) =~= grant_views(old_set).push(set@.last()@));
                    }
                }
                Ok(())
            },
        }
    }
}

/// Whether the set already holds a grant with the same (path, operation)
/// pair as `g`.
fn contains_grant(set: &Vec<Capability>, g: &Capability) -> (r: bool)
    ensures
        r == holds_grant(grant_views(set@), g@),
{
    let mut i: usize = 0;
    while i < set.len()
        invariant
            i <= set@.len(),
            forall|j: int| 0 <= j < i ==> !same_grant_key(grant_views(set@)[j], g@),
        decreases set@.len() - i,
    {
        if set[i].op == g.op && segs_eq(&set[i].path, &g.path) {
            proof {
                assert(same_grant_key(grant_views(set@)[i as int], g@));
            }
            return true;
        }
        i += 1;
    }
    false
}

/// Copies a whole grant set.
pub fn clone_grants(set: &Vec<Capability>) -> (r: Vec<Capability>)
    ensures
        grant_views(r@) == grant_views(set@),
{
    let mut out: Vec<Capability> = Vec::new();
    let mut i: usize = 0;
    while i < set.len()
        invariant
            i <= set@.len(),
            out@.len() == i,
            grant_views(out@) == grant_views(set@).subrange(0, i as int),
        decreases set@.len() - i,
    {
        out.push(set[i].duplicate());
        proof {
            assert(grant_views(out@) =~= grant_views(set@).subrange(0, i as int + 1));
        }
        i += 1;
    }
    proof {
        assert(grant_views(set@).subrange(0, set@.len() as int) =~= grant_views(set@));
    }
    out
}

} // verus!

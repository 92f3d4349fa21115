//! Mediated entry-point decisions: the file-open check consulted by the
//! replacement `open` built-in, and the formatting contract of the
//! replacement print built-in.

use vstd::prelude::*;
use vstd::string::StringExecFns;

use crate::capabilities::fs;
use crate::capabilities::fs::{grant_views, Operation};
use crate::capabilities::path::{absolute, canon, canon_path, is_absolute, seg_views};
use crate::capabilities::{fs_priv_view, Privilege};

verus! {

/// Why a mediated file-open was refused. These are recoverable inside the
/// running script; they never abort the host.
#[derive(Clone, Copy, Debug, PartialEq, Eq, Structural)]
pub enum AccessError {
    /// The filesystem policy does not allow the request.
    PermissionDenied,
    /// The requested mode token is outside the vocabulary.
    InvalidMode,
}

/// Whether the filesystem privilege allows `op` on `path`: never under
/// `NoAccess`, always under `Total`, and under `Limited` exactly when some
/// grant covers the request.
pub open spec fn fs_allows(
    p: Privilege<Seq<fs::GrantView>>,
    path: Seq<char>,
    op: Operation,
) -> bool {
    match p {
        Privilege::NoAccess => false,
        Privilege::Total => true,
        Privilege::Limited(gs) => fs::some_grant_matches(gs, path, op),
    }
}

/// The file-open decision: denial under `NoAccess`, unconditional delegation
/// under `Total`; under `Limited` the mode token is parsed (failing with
/// `InvalidMode` outside the vocabulary) and the request must be covered by
/// some grant.
pub open spec fn spec_open_access(
    p: Privilege<Seq<fs::GrantView>>,
    path: Seq<char>,
    mode: Seq<char>,
) -> Result<(), AccessError> {
    match p {
        Privilege::NoAccess => Err(AccessError::PermissionDenied),
        Privilege::Total => Ok(()),
        Privilege::Limited(gs) => match fs::spec_parse_operation(mode) {
            Err(_) => Err(AccessError::InvalidMode),
            Ok(op) => if fs::some_grant_matches(gs, path, op) {
                Ok(())
            } else {
                Err(AccessError::PermissionDenied)
            },
        },
    }
}

/// The decision a mediated `open` built-in makes before delegating to the
/// real open primitive. Under a `NoAccess` privilege every request is
/// denied, whatever the path.
pub fn open_access(p: &Privilege<Vec<fs::Capability>>, path: &str, mode: &str) -> (r: Result<
    (),
    AccessError,
>)
    ensures
        r == spec_open_access(fs_priv_view(*p), path@, mode@),
        *p is NoAccess ==> r == Err::<(), AccessError>(AccessError::PermissionDenied),
{
    match p {
        Privilege::NoAccess => Err(AccessError::PermissionDenied),
        Privilege::Total => Ok(()),
        Privilege::Limited(grants) => {
            let op = match Operation::from_str(mode) {
                Ok(o) => o,
                Err(_) => {
                    return Err(AccessError::InvalidMode);
                },
            };
            let abs = absolute(path);
            let cp = canon_path(path);
            let mut i: usize = 0;
            while i < grants.len()
                invariant
                    i <= grants@.len(),
                    fs_priv_view(*p) == Privilege::Limited(grant_views(grants@)),
                    fs::spec_parse_operation(mode@) == Ok::<Operation, fs::ParseOperationError>(
                        op,
                    ),
                    abs == is_absolute(path@),
                    seg_views(cp@) == canon(path@),
                    forall|j: int|
                        0 <= j < i ==> !fs::grant_matches_canon(
                            grant_views(grants@)[j],
                            abs,
                            seg_views(cp@),
                            op,
                        ),
                decreases grants@.len() - i,
            {
                if grants[i].matches_request(abs, &cp, op) {
                    proof {
                        let gs = grant_views(grants@);
                        assert(gs.len() == grants@.len());
                        assert(0 <= i < gs.len() && fs::grant_matches(gs[i as int], path@, op));
                    }
                    return Ok(());
                }
                i += 1;
            }
            proof {
                let gs = grant_views(grants@);
                assert(gs.len() == grants@.len());
                assert forall|j: int| 0 <= j < gs.len() implies !fs::grant_matches(
                    gs[j],
                    path@,
                    op,
                ) by {
                    assert(!fs::grant_matches_canon(gs[j], abs, seg_views(cp@), op));
                }
            }
            Err(AccessError::PermissionDenied)
        },
    }
}

/// Options of the mediated print built-in. `sep` joins the stringified
/// arguments (a single space when absent), `end` terminates the line (a
/// newline when absent), and `flush` asks the sink to flush before the call
/// returns.
#[derive(Debug)]
pub struct PrintOptions {
    pub sep: Option<String>,
    pub end: Option<String>,
    pub flush: bool,
}

impl Default for PrintOptions {
    /// Space-separated arguments, newline terminator, no forced flush.
    fn default() -> (r: Self)
        ensures
            r.sep is None,
            r.end is None,
            !r.flush,
    {
        PrintOptions { sep: None, end: None, flush: false }
    }
}

/// The separator a print call joins its arguments with.
pub open spec fn sep_of(opts: PrintOptions) -> Seq<char> {
    match opts.sep {
        Some(s) => s@,
        None => " "@,
    }
}

/// The terminator a print call appends.
pub open spec fn end_of(opts: PrintOptions) -> Seq<char> {
    match opts.end {
        Some(s) => s@,
        None => "\n"@,
    }
}

/// The arguments joined by the separator, in order.
pub open spec fn joined(args: Seq<Seq<char>>, sep: Seq<char>) -> Seq<char>
    decreases args.len(),
{
    if args.len() == 0 {
        Seq::empty()
    } else if args.len() == 1 {
        args[0]
    } else {
        joined(args.drop_last(), sep) + sep + args.last()
    }
}

/// The exact bytes one mediated print call hands to the shared sink: the
/// stringified arguments joined by the separator, then the terminator. A
/// call's whole output is written while holding the sink's lock, so two
/// concurrent calls never interleave within it.
pub fn format_print_args(args: &Vec<String>, opts: &PrintOptions) -> (r: String)
    ensures
        r@ == joined(seg_views(args@), sep_of(*opts)) + end_of(*opts),
{
    let mut out = String::new();
    let sep: &str = match &opts.sep {
        Some(s) => s.as_str(),
        None => " ",
    };
    let mut i: usize = 0;
    while i < args.len()
        invariant
            i <= args@.len(),
            sep@ == sep_of(*opts),
            out@ == joined(seg_views(args@).take(i as int), sep@),
        decreases args@.len() - i,
    {
        if i > 0 {
            out.append(sep);
        }
        out.append(args[i].as_str());
        proof {
            let all = seg_views(args@);
            assert(all.len() == args@.len());
            assert(all.take(i as int + 1).drop_last() =~= all.take(i as int));
            assert(all.take(i as int + 1).last() == all[i as int]);
            if i == 0 {
                assert(out@ =~= all.take(1).last());
            }
        }
        i += 1;
    }
    proof {
        assert(seg_views(args@).take(args@.len() as int) =~= seg_views(args@));
    }
    let end: &str = match &opts.end {
        Some(s) => s.as_str(),
        None => "\n",
    };
    out.append(end);
    out
}

} // verus!

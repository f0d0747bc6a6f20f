//! Normalization of the initial-document path: resolving `.` and `..`
//! components purely lexically, without touching the filesystem.

use vstd::prelude::*;

verus! {

/// One component of a path, as the normalization reads it: the root, a `.`,
/// a `..`, or a named component.
pub enum PathPart {
    Root,
    Cur,
    Parent,
    Name(String),
}

/// What normalization leaves of a component sequence: `.` disappears, `..`
/// swallows whatever component came out last — the root included, as lexical
/// resolution has it — and everything else stays, in order.
pub open spec fn normalized(s: Seq<PathPart>) -> Seq<PathPart>
    decreases s.len(),
{
    if s.len() == 0 {
        Seq::empty()
    } else {
        let prev = normalized(s.drop_last());
        match s.last() {
            PathPart::Parent => if prev.len() > 0 {
                prev.drop_last()
            } else {
                prev
            },
            PathPart::Cur => prev,
            p => prev.push(p),
        }
    }
}

/// Resolves `.` and `..` in one pass, left to right, keeping everything else
/// in its original order.
pub fn normalize_path(path: Vec<PathPart>) -> (r: Vec<PathPart>)
    ensures
        r@ == normalized(path@),
{
    let ghost orig: Seq<PathPart> = path@;
    let mut parts = path;
    let mut out: Vec<PathPart> = Vec::new();
    let ghost mut k: int = 0;
    while parts.len() > 0
        invariant
            0 <= k <= orig.len(),
            parts@ == orig.skip(k),
            out@ == normalized(orig.take(k)),
        decreases parts@.len(),
    {
        let p = parts.remove(0);
        proof {
            assert(p == orig.skip(k)[0]);
            assert(p == orig[k]);
            assert(parts@ =~= orig.skip(k + 1));
            assert(orig.take(k + 1).drop_last() =~= orig.take(k));
            assert(orig.take(k + 1).last() == orig[k]);
        }
        match p {
            PathPart::Parent => {
                let _ = out.pop();
            },
            PathPart::Cur => {},
            other => {
                out.push(other);
            },
        }
        proof {
            k = k + 1;
            assert(out@ =~= normalized(orig.take(k)));
        }
    }
    proof {
        assert(orig.take(k) =~= orig);
    }
    out
}

} // verus!

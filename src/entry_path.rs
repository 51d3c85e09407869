use vstd::prelude::*;

verus! {

/// One component of an archive entry's relative path.
#[derive(Clone, Copy, Debug, PartialEq, Eq, Structural)]
pub enum PathPart {
    /// A leading separator: the path is absolute.
    Root,
    /// A drive or share prefix.
    Prefix,
    /// `.`
    Current,
    /// `..`
    Parent,
    /// Any other name.
    Normal,
}

/// How many directories below the output root the components lead, with
/// `..` counted as one step up.
pub open spec fn depth_of(parts: Seq<PathPart>) -> int
    decreases parts.len(),
{
    if parts.len() == 0 {
        0
    } else {
        depth_of(parts.drop_last()) + match parts.last() {
            PathPart::Normal => 1int,
            PathPart::Parent => -1int,
            _ => 0int,
        }
    }
}

/// The path is relative and never climbs above the output root, at any
/// point along it.
pub open spec fn stays_inside(parts: Seq<PathPart>) -> bool {
    &&& forall|i: int| 0 <= i < parts.len() ==> parts[i] != PathPart::Root && parts[i] != PathPart::Prefix
    &&& forall|k: int| 0 <= k <= parts.len() ==> depth_of(#[trigger] parts.take(k)) >= 0
}

/// Whether an entry with these path components may be written under the
/// output root.
pub fn path_stays_inside(parts: &Vec<PathPart>) -> (r: bool)
    ensures
        r == stays_inside(parts@),
{
    let mut depth: usize = 0;
    let mut i: usize = 0;
    assert(parts@.take(0) =~= Seq::<PathPart>::empty());
    while i < parts.len()
        invariant
            i <= parts@.len(),
            depth == depth_of(parts@.take(i as int)),
            forall|j: int| 0 <= j < i ==> parts@[j] != PathPart::Root && parts@[j] != PathPart::Prefix,
            forall|k: int| 0 <= k <= i ==> depth_of(#[trigger] parts@.take(k)) >= 0,
            depth <= i,
        decreases parts.len() - i,
    {
        assert(parts@.take(i + 1).drop_last() =~= parts@.take(i as int));
        match parts[i] {
            PathPart::Root | PathPart::Prefix => {
                return false;
            },
            PathPart::Parent => {
                if depth == 0 {
                    assert(depth_of(parts@.take(i + 1)) < 0);
                    return false;
                }
                depth = depth - 1;
            },
            PathPart::Normal => {
                depth = depth + 1;
            },
            PathPart::Current => {},
        }
        i += 1;
        assert forall|k: int| 0 <= k <= i implies depth_of(#[trigger] parts@.take(k)) >= 0 by {
            if k == i {
            }
        }
    }
    assert(parts@.take(parts@.len() as int) =~= parts@);
    true
}

/// A path that climbs above the root at its first component, whatever
/// follows, is refused.
pub proof fn lemma_leading_parent_escapes(parts: Seq<PathPart>)
    requires
        parts.len() > 0,
        parts[0] == PathPart::Parent,
    ensures
        !stays_inside(parts),
{
    let first = parts.take(1);
    assert(first.drop_last() =~= Seq::<PathPart>::empty());
    assert(first.last() == PathPart::Parent);
    assert(depth_of(first.drop_last()) == 0);
    assert(depth_of(first) == -1);
}


} // verus!

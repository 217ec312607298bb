//! Accounting model of a directory's contents: a chain of entries,
//! each a file with a size or a subdirectory with its own contents.
//! An entry may be locked (held open by another process): a locked
//! file cannot be deleted, and a locked directory's removal fails.
//! Measuring sums the file sizes; purging deletes best-effort, bottom
//! up, keeping whatever cannot go, and never touches the root itself.
use vstd::prelude::*;

verus! {

/// The contents of one directory, as a chain: empty, or a file
/// followed by its siblings, or a subdirectory followed by its
/// siblings.
pub enum FsTree {
    Empty,
    File { size: u64, locked: bool, rest: Box<FsTree> },
    Dir { children: Box<FsTree>, locked: bool, rest: Box<FsTree> },
}

/// The recursive byte size of the contents: every file counted, no
/// matter how deep.
pub open spec fn measure_spec(t: FsTree) -> nat
    decreases t,
{
    match t {
        FsTree::Empty => 0,
        FsTree::File { size, rest, .. } => (size + measure_spec(*rest)) as nat,
        FsTree::Dir { children, rest, .. } => measure_spec(*children) + measure_spec(*rest),
    }
}

/// No entries at all.
pub open spec fn is_empty_spec(t: FsTree) -> bool {
    t is Empty
}

/// What a best-effort purge leaves: unlocked files go; a directory's
/// contents are purged first, and the directory itself goes only where
/// it is unlocked and nothing is left inside it.
pub open spec fn purge_spec(t: FsTree) -> FsTree
    decreases t,
{
    match t {
        FsTree::Empty => FsTree::Empty,
        FsTree::File { size, locked, rest } => {
            if locked {
                FsTree::File { size, locked, rest: Box::new(purge_spec(*rest)) }
            } else {
                purge_spec(*rest)
            }
        },
        FsTree::Dir { children, locked, rest } => {
            let kept = purge_spec(*children);
            if !locked && is_empty_spec(kept) {
                purge_spec(*rest)
            } else {
                FsTree::Dir {
                    children: Box::new(kept),
                    locked,
                    rest: Box::new(purge_spec(*rest)),
                }
            }
        },
    }
}

/// Purging never increases the measured size, whatever is locked.
pub proof fn lemma_purge_monotonic(t: FsTree)
    ensures
        measure_spec(purge_spec(t)) <= measure_spec(t),
    decreases t,
{
    match t {
        FsTree::Empty => {
        },
        FsTree::File { size, locked, rest } => {
            lemma_purge_monotonic(*rest);
        },
        FsTree::Dir { children, locked, rest } => {
            lemma_purge_monotonic(*children);
            lemma_purge_monotonic(*rest);
        },
    }
}

/// Where nothing is locked, a purge leaves nothing behind.
pub proof fn lemma_purge_unlocked_clears(t: FsTree)
    requires
        nothing_locked(t),
    ensures
        purge_spec(t) == FsTree::Empty,
    decreases t,
{
    match t {
        FsTree::Empty => {
        },
        FsTree::File { size, locked, rest } => {
            lemma_purge_unlocked_clears(*rest);
        },
        FsTree::Dir { children, locked, rest } => {
            lemma_purge_unlocked_clears(*children);
            lemma_purge_unlocked_clears(*rest);
        },
    }
}

/// No entry anywhere in the chain is locked.
pub open spec fn nothing_locked(t: FsTree) -> bool
    decreases t,
{
    match t {
        FsTree::Empty => true,
        FsTree::File { locked, rest, .. } => !locked && nothing_locked(*rest),
        FsTree::Dir { children, locked, rest } => !locked && nothing_locked(*children)
            && nothing_locked(*rest),
    }
}

/// The recursive byte size of the contents, saturating at `u64::MAX`.
pub fn measure(t: &FsTree) -> (r: u64)
    ensures
        r == if measure_spec(*t) > u64::MAX {
            u64::MAX as nat
        } else {
            measure_spec(*t)
        },
    decreases *t,
{
    match t {
        FsTree::Empty => 0,
        FsTree::File { size, rest, .. } => {
            let tail = measure(rest);
            (*size).saturating_add(tail)
        },
        FsTree::Dir { children, rest, .. } => {
            let inner = measure(children);
            let tail = measure(rest);
            inner.saturating_add(tail)
        },
    }
}

/// Best-effort deletion of the contents: what cannot go is kept, and
/// the call always completes.
pub fn purge(t: FsTree) -> (r: FsTree)
    ensures
        r == purge_spec(t),
    decreases t,
{
    match t {
        FsTree::Empty => FsTree::Empty,
        FsTree::File { size, locked, rest } => {
            let kept_rest = purge(*rest);
            if locked {
                FsTree::File { size, locked, rest: Box::new(kept_rest) }
            } else {
                kept_rest
            }
        },
        FsTree::Dir { children, locked, rest } => {
            let kept = purge(*children);
            let kept_rest = purge(*rest);
            let empty = matches!(kept, FsTree::Empty);
            if !locked && empty {
                kept_rest
            } else {
                FsTree::Dir { children: Box::new(kept), locked, rest: Box::new(kept_rest) }
            }
        },
    }
}

/// The space a purge freed: the measure before it less the measure
/// after it, clamped at zero.
pub fn space_freed(before: u64, after: u64) -> (r: u64)
    ensures
        r == before.saturating_sub(after),
        r as int == if before >= after {
            before - after
        } else {
            0
        },
{
    before.saturating_sub(after)
}

/// Every entry in the chain is locked, files and directories alike.
pub open spec fn all_locked(t: FsTree) -> bool
    decreases t,
{
    match t {
        FsTree::Empty => true,
        FsTree::File { locked, rest, .. } => locked && all_locked(*rest),
        FsTree::Dir { children, locked, rest } => locked && all_locked(*children) && all_locked(
            *rest,
        ),
    }
}

/// Where every entry is locked, a purge removes nothing at all: the
/// tree is unchanged and the space freed is zero, not negative and not
/// an error.
pub proof fn lemma_purge_locked_frees_nothing(t: FsTree)
    requires
        all_locked(t),
    ensures
        purge_spec(t) == t,
        measure_spec(purge_spec(t)) == measure_spec(t),
    decreases t,
{
    match t {
        FsTree::Empty => {
        },
        FsTree::File { size, locked, rest } => {
            lemma_purge_locked_frees_nothing(*rest);
        },
        FsTree::Dir { children, locked, rest } => {
            lemma_purge_locked_frees_nothing(*children);
            lemma_purge_locked_frees_nothing(*rest);
        },
    }
}

/// A measured size clamped to what a machine word holds.
pub open spec fn clamped_size(n: nat) -> int {
    if n > u64::MAX {
        u64::MAX as int
    } else {
        n as int
    }
}

/// The cache workflow over one directory's contents: measure, purge
/// best-effort, measure again, and report what was freed — exactly the
/// drop in (clamped) measured size, never negative, never an error.
pub fn purge_and_account(t: FsTree) -> (r: (FsTree, u64))
    ensures
        r.0 == purge_spec(t),
        r.1 as int == clamped_size(measure_spec(t)) - clamped_size(
            measure_spec(purge_spec(t)),
        ),
{
    let before = measure(&t);
    let kept = purge(t);
    let after = measure(&kept);
    proof {
        lemma_purge_monotonic(t);
    }
    let freed = space_freed(before, after);
    (kept, freed)
}

} // verus!

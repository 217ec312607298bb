use game_tuner::fstree::{measure, purge, purge_and_account, space_freed, FsTree};
use game_tuner::memory::{reclaimed, MemorySample};

fn file(size: u64, locked: bool, rest: FsTree) -> FsTree {
    FsTree::File { size, locked, rest: Box::new(rest) }
}

fn dir(children: FsTree, locked: bool, rest: FsTree) -> FsTree {
    FsTree::Dir { children: Box::new(children), locked, rest: Box::new(rest) }
}

#[test]
fn purge_never_increases_measure() {
    let t = dir(
        file(400, true, file(100, false, FsTree::Empty)),
        false,
        file(25, false, file(75, true, FsTree::Empty)),
    );
    let before = measure(&t);
    assert_eq!(before, 600);
    let kept = purge(t);
    let after = measure(&kept);
    assert!(after <= before);
    // The locked file inside the directory and the locked sibling stay.
    assert_eq!(after, 475);
    assert_eq!(space_freed(before, after), 125);
}

#[test]
fn purge_with_everything_locked_frees_nothing() {
    let t = file(50, true, dir(file(10, true, FsTree::Empty), true, FsTree::Empty));
    let before = measure(&t);
    let kept = purge(t);
    let after = measure(&kept);
    assert_eq!(before, after);
    assert_eq!(space_freed(before, after), 0);
}

#[test]
fn cache_size_scenario() {
    // An empty temp directory measures zero.
    let empty = FsTree::Empty;
    assert_eq!(measure(&empty), 0);
    // After a 100-byte file appears it measures 100.
    let with_file = file(100, false, FsTree::Empty);
    let before = measure(&with_file);
    assert_eq!(before, 100);
    // A purge with nothing locked clears it, and reports 100 freed.
    let kept = purge(with_file);
    let after = measure(&kept);
    assert_eq!(after, 0);
    assert_eq!(space_freed(before, after), 100);
}

#[test]
fn unlocked_directory_is_removed_once_emptied() {
    let t = dir(file(10, false, FsTree::Empty), false, FsTree::Empty);
    let kept = purge(t);
    assert!(matches!(kept, FsTree::Empty));
}

#[test]
fn directory_with_locked_child_is_kept() {
    let t = dir(file(10, true, FsTree::Empty), false, FsTree::Empty);
    let kept = purge(t);
    assert!(matches!(kept, FsTree::Dir { .. }));
    assert_eq!(measure(&kept), 10);
}

#[test]
fn locked_empty_directory_is_kept() {
    let t = dir(FsTree::Empty, true, FsTree::Empty);
    let kept = purge(t);
    assert!(matches!(kept, FsTree::Dir { .. }));
}

#[test]
fn measure_saturates_instead_of_overflowing() {
    let t = file(u64::MAX, false, file(u64::MAX, false, FsTree::Empty));
    assert_eq!(measure(&t), u64::MAX);
}

#[test]
fn reclaimed_is_never_negative() {
    let before = MemorySample { total: 1000, used: 800 };
    let after = MemorySample { total: 1000, used: 500 };
    assert_eq!(reclaimed(&before, &after), 300);
    // Equal samples reclaim nothing.
    assert_eq!(reclaimed(&before, &before), 0);
    // More memory in use afterwards still reports zero, not an error.
    let worse = MemorySample { total: 1000, used: 900 };
    assert_eq!(reclaimed(&before, &worse), 0);
}

#[test]
fn purge_and_account_reports_the_drop() {
    let t = file(100, false, file(40, true, FsTree::Empty));
    let (kept, freed) = purge_and_account(t);
    assert_eq!(freed, 100);
    assert_eq!(measure(&kept), 40);
}

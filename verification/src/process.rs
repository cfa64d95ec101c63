//! Process ancestry oracle: decides whether one process is a descendant of
//! another by walking parent-pid links.
//!
//! The walk runs over an explicit [`ProcessTable`] snapshot of parent links,
//! handed in by the caller; reading the live process table from the operating
//! system is I/O and stays outside the library. A pid that the table does not
//! mention is treated as having parent 0, the same terminal value the kernel
//! reports at the root of the tree, so a lookup for a process that has already
//! exited fails closed to "not a descendant". The walk is bounded by the size
//! of the table, so a corrupted, cyclic snapshot terminates instead of looping.

use vstd::prelude::*;

verus! {

/// A snapshot of parent-process links: each entry pairs a process id with the
/// id of its parent.
pub struct ProcessTable {
    entries: Vec<(u32, u32)>,
}

/// The parent recorded for `pid` (first matching entry wins); 0 when no entry
/// mentions `pid`.
pub open spec fn parent_in(entries: Seq<(u32, u32)>, pid: u32) -> u32
    decreases entries.len(),
{
    if entries.len() == 0 {
        0
    } else if entries[0].0 == pid {
        entries[0].1
    } else {
        parent_in(entries.drop_first(), pid)
    }
}

/// Whether `ancestor` stands in the parent chain that starts at `pid`,
/// walking at most `fuel` links; a parent of 0 ends the chain.
pub open spec fn chain_reaches(
    entries: Seq<(u32, u32)>,
    pid: u32,
    ancestor: u32,
    fuel: nat,
) -> bool
    decreases fuel,
{
    if pid == ancestor {
        true
    } else if fuel == 0 {
        false
    } else {
        let parent = parent_in(entries, pid);
        if parent == 0 {
            false
        } else {
            chain_reaches(entries, parent, ancestor, (fuel - 1) as nat)
        }
    }
}

/// Whether `pid` is a descendant of `ancestor` in the snapshot, with the walk
/// bounded by the number of entries. An acyclic chain visits each recorded
/// process at most once, so the bound never cuts a genuine chain short.
pub open spec fn spec_in_process_tree(entries: Seq<(u32, u32)>, pid: u32, ancestor: u32) -> bool {
    chain_reaches(entries, pid, ancestor, entries.len())
}

impl View for ProcessTable {
    type V = Seq<(u32, u32)>;

    closed spec fn view(&self) -> Seq<(u32, u32)> {
        self.entries@
    }
}

impl ProcessTable {
    /// An empty snapshot: every pid is a root.
    pub fn new() -> (table: ProcessTable)
        ensures
            table@ == Seq::<(u32, u32)>::empty(),
    {
        ProcessTable { entries: Vec::new() }
    }

    /// Records that `pid`'s parent is `parent`.
    pub fn record(&mut self, pid: u32, parent: u32)
        ensures
            final(self)@ == old(self)@.push((pid, parent)),
    {
        self.entries.push((pid, parent));
    }

    /// The number of recorded links.
    pub fn len(&self) -> (n: usize)
        ensures
            n == self@.len(),
    {
        self.entries.len()
    }

    /// The parent recorded for `pid`; 0 when the table does not mention it.
    pub fn parent_of(&self, pid: u32) -> (parent: u32)
        ensures
            parent == parent_in(self@, pid),
    {
        let n = self.entries.len();
        let mut i: usize = 0;
        assert(self@.skip(0) =~= self@);
        while i < n
            invariant
                i <= n,
                n == self@.len(),
                parent_in(self@, pid) == parent_in(self@.skip(i as int), pid),
            decreases n - i,
        {
            let entry = self.entries[i];
            assert(self@.skip(i as int)[0] == self@[i as int]);
            if entry.0 == pid {
                return entry.1;
            }
            assert(self@.skip(i as int).drop_first() =~= self@.skip(i as int + 1));
            i = i + 1;
        }
        assert(self@.skip(n as int).len() == 0);
        0
    }
}

/// Walks the parent chain from `child_pid`, reporting whether `parent_pid`
/// stands anywhere in it. Every pid is its own descendant; a chain that ends
/// (parent 0) without meeting `parent_pid` is no match, and the walk gives up
/// after as many steps as the table has entries, so a cyclic snapshot cannot
/// make it loop.
pub fn is_in_process_tree(child_pid: u32, parent_pid: u32, table: &ProcessTable) -> (r: bool)
    ensures
        r == spec_in_process_tree(table@, child_pid, parent_pid),
        child_pid == parent_pid ==> r,
{
    let mut current: u32 = child_pid;
    let mut fuel: usize = table.len();
    loop
        invariant
            fuel <= table@.len(),
            spec_in_process_tree(table@, child_pid, parent_pid) == chain_reaches(
                table@,
                current,
                parent_pid,
                fuel as nat,
            ),
        decreases fuel,
    {
        if current == parent_pid {
            return true;
        }
        if fuel == 0 {
            return false;
        }
        let parent = table.parent_of(current);
        if parent == 0 {
            return false;
        }
        current = parent;
        fuel = fuel - 1;
    }
}

} // verus!

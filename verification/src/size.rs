//! Size aggregation over a file tree.

use vstd::prelude::*;

verus! {

/// What was found at one path of the filesystem.
#[derive(Debug)]
pub enum Entry {
    /// A regular file (or anything else that is not a directory) and its
    /// length in bytes.
    File(u64),
    /// A directory and what was found at each of its children.
    Directory(Vec<Entry>),
    /// An entry whose metadata could not be read.
    Unreadable,
}

/// The sum of the sizes of the first `n` entries of `entries`.
pub open spec fn prefix_size(entries: Seq<Entry>, n: nat) -> nat
    decreases entries, n,
{
    if n == 0 || n > entries.len() {
        0
    } else {
        prefix_size(entries, (n - 1) as nat) + entries[n - 1].size()
    }
}

impl Entry {
    /// The bytes consumed by the entry: a file's length, the sum over a
    /// directory's children, nothing for an unreadable entry.
    pub open spec fn size(self) -> nat
        decreases self, 0nat,
    {
        match self {
            Entry::File(len) => len as nat,
            Entry::Directory(children) => prefix_size(children@, children@.len()),
            Entry::Unreadable => 0,
        }
    }

    /// Whether the entry's size can be held in a `u64`.
    pub open spec fn fits(self) -> bool {
        self.size() <= u64::MAX
    }

    /// The entry's size, or `None` where it exceeds what a `u64` holds.
    pub fn checked_size(&self) -> (total: Option<u64>)
        ensures
            total == (if self.fits() { Some(self.size() as u64) } else { None::<u64> }),
        decreases self,
    {
        match self {
            Entry::File(len) => Some(*len),
            Entry::Unreadable => Some(0),
            Entry::Directory(children) => {
                let mut sum: u64 = 0;
                let mut i: usize = 0;
                while i < children.len()
                    invariant
                        i <= children.len(),
                        sum == prefix_size(children@, i as nat),
                        self.size() == prefix_size(children@, children@.len()),
                        decreases_to!(self => children),
                    decreases children.len() - i,
                {
                    proof {
                        lemma_prefix_size_monotone(children@, (i + 1) as nat, children@.len());
                    }
                    let child = match children[i].checked_size() {
                        Some(n) => n,
                        None => { return None; },
                    };
                    sum = match sum.checked_add(child) {
                        Some(n) => n,
                        None => { return None; },
                    };
                    i += 1;
                }
                Some(sum)
            },
        }
    }
}

/// A longer prefix of a listing is at least as large as a shorter one.
pub proof fn lemma_prefix_size_monotone(entries: Seq<Entry>, m: nat, n: nat)
    requires
        m <= n <= entries.len(),
    ensures
        prefix_size(entries, m) <= prefix_size(entries, n),
    decreases n,
{
    if m < n {
        lemma_prefix_size_monotone(entries, m, (n - 1) as nat);
    }
}

/// The bytes reported for the path `file_path`, at which `found` stands: an
/// empty path consumes nothing, whatever was found.
pub open spec fn aggregate(file_path: Seq<char>, found: Entry) -> nat {
    if file_path.len() == 0 {
        0
    } else {
        found.size()
    }
}

/// Total size in bytes of the path `file_path`, at which `found` stands. The
/// total must be within what a `u64` holds; `Entry::checked_size` tells
/// whether it is.
pub fn count_file_size(file_path: &str, found: &Entry) -> (total: u64)
    requires
        aggregate(file_path@, *found) <= u64::MAX,
    ensures
        total == aggregate(file_path@, *found),
{
    if file_path.is_empty() {
        return 0;
    }
    found.checked_size().unwrap()
}

/// A directory consumes the sum of what its children consume, files and
/// directories alike, and so does a path at which a directory stands, unless
/// the path is empty.
pub proof fn lemma_directory_size(file_path: Seq<char>, children: Vec<Entry>)
    ensures
        Entry::Directory(children).size() == prefix_size(children@, children@.len()),
        file_path.len() > 0 ==> aggregate(file_path, Entry::Directory(children)) == prefix_size(
            children@,
            children@.len(),
        ),
        children@.len() == 0 ==> Entry::Directory(children).size() == 0,
        children@.len() > 0 ==> Entry::Directory(children).size() == prefix_size(
            children@,
            (children@.len() - 1) as nat,
        ) + children@.last().size(),
        forall|i: int|
            0 <= i < children@.len() ==> (#[trigger] children@[i]).size() <= Entry::Directory(
                children,
            ).size(),
{
    assert forall|i: int| 0 <= i < children@.len() implies (#[trigger] children@[i]).size()
        <= Entry::Directory(children).size() by {
        lemma_prefix_size_monotone(children@, (i + 1) as nat, children@.len());
    }
}

/// The sum over a listing is the sum over its first part and over the rest.
pub proof fn lemma_prefix_size_concat(first: Seq<Entry>, rest: Seq<Entry>)
    ensures
        prefix_size(first + rest, (first + rest).len()) == prefix_size(first, first.len())
            + prefix_size(rest, rest.len()),
    decreases rest.len(),
{
    let all = first + rest;
    if rest.len() == 0 {
        assert(all =~= first);
    } else {
        let shorter = rest.drop_last();
        lemma_prefix_size_concat(first, shorter);
        lemma_prefix_size_same(all, first + shorter, (all.len() - 1) as nat);
        lemma_prefix_size_same(rest, shorter, shorter.len());
        assert(all[all.len() - 1] == rest[rest.len() - 1]);
    }
}

/// The sum over the first `n` entries depends on those entries alone.
pub proof fn lemma_prefix_size_same(left: Seq<Entry>, right: Seq<Entry>, n: nat)
    requires
        n <= left.len(),
        n <= right.len(),
        forall|i: int| 0 <= i < n ==> left[i] == right[i],
    ensures
        prefix_size(left, n) == prefix_size(right, n),
    decreases n,
{
    if n > 0 {
        lemma_prefix_size_same(left, right, (n - 1) as nat);
    }
}

/// An unreadable entry consumes nothing, so it adds nothing to the
/// directory that holds it.
pub proof fn lemma_unreadable_size(entries: Seq<Entry>, n: nat)
    requires
        0 < n <= entries.len(),
        entries[n - 1] == Entry::Unreadable,
    ensures
        Entry::Unreadable.size() == 0,
        prefix_size(entries, n) == prefix_size(entries, (n - 1) as nat),
{
    assert(entries[n - 1].size() == 0);
}

/// A regular file consumes exactly its length, at any path but the empty one.
pub proof fn lemma_file_size(file_path: Seq<char>, len: u64)
    requires
        file_path.len() > 0,
    ensures
        Entry::File(len).size() == len,
        Entry::File(len).fits(),
        aggregate(file_path, Entry::File(len)) == len,
{
}

/// The empty path consumes nothing, whatever stands there.
pub proof fn lemma_empty_path(found: Entry)
    ensures
        aggregate(Seq::<char>::empty(), found) == 0,
{
}

} // verus!

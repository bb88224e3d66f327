//! What a caller found on disk, as plain values, and the rule that decides
//! which entries of a directory walk are visited.

use vstd::prelude::*;
use vstd::string::StrSliceExecFns;

verus! {

/// What one step of a directory walk came upon.
pub enum EntryKind {
    /// A regular file with its bytes, or `None` where it could not be read.
    File(Option<Vec<u8>>),
    /// A directory; its entries follow it in the walk, one level deeper.
    Directory,
    /// Anything else: a symbolic link, a device, a socket.
    Other,
    /// The walk failed at this point.
    Failed,
}

/// One step of a walk through a directory tree.
pub struct WalkEntry {
    /// How far below the root of the walk the entry lies; the root is at 0.
    pub depth: usize,
    /// The entry's file name, where it is valid UTF-8.
    pub name: Option<String>,
    /// The entry's full path, where it is valid UTF-8.
    pub path: Option<String>,
    /// What the entry is.
    pub kind: EntryKind,
}

/// What the path of a search names on disk.
pub enum PathTarget {
    /// Nothing exists at the path.
    Missing,
    /// A regular file with its bytes, or `None` where it could not be read.
    File(Option<Vec<u8>>),
    /// A directory, with the walk through its tree in pre-order, the
    /// directory itself first.
    Directory(Vec<WalkEntry>),
    /// Something that is neither a regular file nor a directory.
    Other,
}

/// The marker that a hidden entry's name begins with.
pub open spec fn hidden_marker() -> char {
    '.'
}

/// Whether a file name is that of a hidden entry: it is known and begins
/// with the hidden marker.
pub open spec fn hidden_name(name: Option<Seq<char>>) -> bool {
    name matches Some(text) && text.len() > 0 && text[0] == hidden_marker()
}

/// The characters of an optional string.
pub open spec fn text_of(text: Option<String>) -> Option<Seq<char>> {
    match text {
        Some(text) => Some(text@),
        None => None,
    }
}

impl WalkEntry {
    /// Whether the walk passes over this entry because of its name. A point
    /// of failure has no name to judge by and is never hidden.
    pub open spec fn hidden(&self) -> bool {
        !(self.kind is Failed) && hidden_name(text_of(self.name))
    }

    /// Whether this entry is a hidden directory, whose whole tree the walk
    /// leaves out.
    pub open spec fn hidden_directory(&self) -> bool {
        self.kind is Directory && self.hidden()
    }
}

/// Whether entry `i` of a pre-order walk lies in the tree below entry `j`:
/// it comes later, and everything from `j` to it lies deeper than `j`.
pub open spec fn below(entries: Seq<WalkEntry>, j: int, i: int) -> bool {
    &&& 0 <= j < i < entries.len()
    &&& forall|k: int| j < k <= i ==> entries[k].depth > entries[j].depth
}

/// Whether entry `i` lies in the tree below some hidden directory, and so is
/// never looked at.
pub open spec fn pruned(entries: Seq<WalkEntry>, i: int) -> bool {
    exists|j: int| #[trigger] below(entries, j, i) && entries[j].hidden_directory()
}

/// Whether the walk acts on entry `i`: it is not pruned and, unless the walk
/// failed there, not hidden.
pub open spec fn visited(entries: Seq<WalkEntry>, i: int) -> bool {
    0 <= i < entries.len() && !pruned(entries, i) && !entries[i].hidden()
}

/// Whether entry `j` is a hidden directory whose tree is still being walked
/// when the walk comes to entry `i`.
pub open spec fn open_at(entries: Seq<WalkEntry>, j: int, i: int) -> bool {
    &&& 0 <= j < i <= entries.len()
    &&& entries[j].hidden_directory()
    &&& forall|k: int| j < k < i ==> entries[k].depth > entries[j].depth
}

/// What a walk has to remember on its way: `skipping` holds the depth of
/// the outermost hidden directory whose tree the walk is in when it comes
/// to entry `i`, and is `None` when there is no such directory.
pub open spec fn skipping_at(entries: Seq<WalkEntry>, i: int, skipping: Option<usize>) -> bool {
    match skipping {
        Some(depth) => {
            &&& exists|j: int| #[trigger] open_at(entries, j, i) && entries[j].depth == depth
            &&& forall|j: int| #[trigger] open_at(entries, j, i) ==> entries[j].depth >= depth
        },
        None => forall|j: int| !#[trigger] open_at(entries, j, i),
    }
}

/// The walk's memory after entry `i`: unchanged inside a hidden tree; the
/// entry's own depth where it is a hidden directory; nothing otherwise.
pub open spec fn skipping_after(entries: Seq<WalkEntry>, i: int, skipping: Option<usize>) -> Option<
    usize,
> {
    if skipping is Some && entries[i].depth > skipping->0 {
        skipping
    } else if entries[i].hidden_directory() {
        Some(entries[i].depth)
    } else {
        None
    }
}

/// An entry is pruned exactly when it lies deeper than the hidden directory
/// that the walk remembers.
pub proof fn lemma_pruned_while_skipping(entries: Seq<WalkEntry>, i: int, skipping: Option<usize>)
    requires
        0 <= i < entries.len(),
        skipping_at(entries, i, skipping),
    ensures
        pruned(entries, i) <==> (skipping is Some && entries[i].depth > skipping->0),
{
    if skipping is Some && entries[i].depth > skipping->0 {
        let j = choose|j: int| #[trigger]
            open_at(entries, j, i) && entries[j].depth == skipping->0;
        assert(below(entries, j, i));
    }
    if pruned(entries, i) {
        let j = choose|j: int| #[trigger] below(entries, j, i) && entries[j].hidden_directory();
        assert(open_at(entries, j, i));
    }
}

/// The walk's memory is kept right from one entry to the next.
pub proof fn lemma_skipping_step(entries: Seq<WalkEntry>, i: int, skipping: Option<usize>)
    requires
        0 <= i < entries.len(),
        skipping_at(entries, i, skipping),
    ensures
        skipping_at(entries, i + 1, skipping_after(entries, i, skipping)),
{
    let next = skipping_after(entries, i, skipping);
    assert forall|j: int| #[trigger] open_at(entries, j, i + 1) && j < i implies open_at(
        entries,
        j,
        i,
    ) && entries[i].depth > entries[j].depth by {}
    if skipping is Some && entries[i].depth > skipping->0 {
        let j = choose|j: int| #[trigger]
            open_at(entries, j, i) && entries[j].depth == skipping->0;
        assert(open_at(entries, j, i + 1));
        assert forall|k: int| #[trigger] open_at(entries, k, i + 1) implies entries[k].depth
            >= skipping->0 by {
            if k < i {
                assert(open_at(entries, k, i));
            }
        }
    } else {
        assert forall|k: int| #[trigger] open_at(entries, k, i + 1) implies k == i by {
            if k < i {
                assert(open_at(entries, k, i));
            }
        }
        if entries[i].hidden_directory() {
            assert(open_at(entries, i, i + 1));
        }
    }
}

/// Whether `name` is that of a hidden entry. A name that is not valid UTF-8
/// arrives as `None` and is not hidden.
pub fn is_hidden(name: Option<&str>) -> (hidden: bool)
    ensures
        hidden == hidden_name(
            match name {
                Some(text) => Some(text@),
                None => None,
            },
        ),
{
    match name {
        Some(text) => !text.is_empty() && text.get_char(0) == '.',
        None => false,
    }
}

} // verus!

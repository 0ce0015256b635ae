//! The file changes that a patch proposes, at most one for each path.

use crate::path::{clone_opt_path, components, opt_components, opt_path, same_opt_path, FilePath};
use crate::text::same_text;
use vstd::prelude::*;

verus! {

/// A change proposed for one file.
#[derive(Debug, PartialEq, Eq)]
pub enum FileChange {
    /// The file is created.
    Add {
        /// Content of the new file.
        content: String,
    },
    /// The file is removed.
    Delete {
        /// Content of the removed file.
        content: String,
    },
    /// The file is edited, and possibly moved.
    Update {
        /// Unified diff of the edit.
        unified_diff: String,
        /// Where the file moves to, if it moves.
        move_path: Option<FilePath>,
    },
}

/// Model of [`FileChange`].
pub enum FileChangeView {
    Add { content: Seq<char> },
    Delete { content: Seq<char> },
    Update { unified_diff: Seq<char>, move_path: Option<Seq<u8>> },
}

/// Two changes are the same where they do the same to the same file; where a file moves to is
/// compared by component.
pub open spec fn same_change(a: FileChangeView, b: FileChangeView) -> bool {
    match (a, b) {
        (FileChangeView::Add { content: x }, FileChangeView::Add { content: y }) => x == y,
        (FileChangeView::Delete { content: x }, FileChangeView::Delete { content: y }) => x == y,
        (
            FileChangeView::Update { unified_diff: x, move_path: from },
            FileChangeView::Update { unified_diff: y, move_path: to },
        ) => x == y && opt_components(from) == opt_components(to),
        _ => false,
    }
}

impl View for FileChange {
    type V = FileChangeView;

    open spec fn view(&self) -> FileChangeView {
        match *self {
            FileChange::Add { content } => FileChangeView::Add { content: content@ },
            FileChange::Delete { content } => FileChangeView::Delete { content: content@ },
            FileChange::Update { unified_diff, move_path } => FileChangeView::Update {
                unified_diff: unified_diff@,
                move_path: opt_path(move_path),
            },
        }
    }
}

impl Clone for FileChange {
    fn clone(&self) -> (r: Self)
        ensures
            r@ == self@,
    {
        match self {
            FileChange::Add { content } => FileChange::Add { content: content.clone() },
            FileChange::Delete { content } => FileChange::Delete { content: content.clone() },
            FileChange::Update { unified_diff, move_path } => FileChange::Update {
                unified_diff: unified_diff.clone(),
                move_path: clone_opt_path(move_path),
            },
        }
    }
}

impl FileChange {
    /// Tells whether two changes are the same.
    pub fn same(&self, other: &FileChange) -> (r: bool)
        ensures
            r == same_change(self@, other@),
    {
        match (self, other) {
            (FileChange::Add { content: a }, FileChange::Add { content: b }) => same_text(
                a.as_str(),
                b.as_str(),
            ),
            (FileChange::Delete { content: a }, FileChange::Delete { content: b }) => same_text(
                a.as_str(),
                b.as_str(),
            ),
            (
                FileChange::Update { unified_diff: a, move_path: from },
                FileChange::Update { unified_diff: b, move_path: to },
            ) => same_text(a.as_str(), b.as_str()) && same_opt_path(from, to),
            _ => false,
        }
    }
}

/// A path together with the change proposed for it.
#[derive(Debug, PartialEq, Eq)]
pub struct FileChangeEntry {
    /// The file concerned.
    pub path: FilePath,
    /// What happens to it.
    pub change: FileChange,
}

/// Model of [`FileChangeEntry`].
pub struct FileChangeEntryView {
    pub path: Seq<u8>,
    pub change: FileChangeView,
}

impl View for FileChangeEntry {
    type V = FileChangeEntryView;

    open spec fn view(&self) -> FileChangeEntryView {
        FileChangeEntryView { path: self.path@, change: self.change@ }
    }
}

impl FileChangeEntry {
    /// The components of the path, by which the changes of a patch are told apart.
    pub open spec fn key(self) -> Seq<Seq<u8>> {
        components(self.path@)
    }
}

impl Clone for FileChangeEntry {
    fn clone(&self) -> (r: Self)
        ensures
            r@ == self@,
    {
        FileChangeEntry { path: self.path.clone(), change: self.change.clone() }
    }
}

/// The changes of one patch, keyed by path: no path occurs twice, however it is spelt, and the
/// order in which they were proposed does not matter.
#[derive(Debug, Eq)]
pub struct FileChanges {
    entries: Vec<FileChangeEntry>,
}

/// No two entries speak of the same path.
pub open spec fn distinct_paths(entries: Seq<FileChangeEntry>) -> bool {
    forall|i: int, j: int|
        0 <= i < j < entries.len() ==> (#[trigger] entries[i]).key() != (
        #[trigger] entries[j]).key()
}

/// The map from the components of a path to its entry that a list of entries stands for.
pub open spec fn as_map(entries: Seq<FileChangeEntry>) -> Map<Seq<Seq<u8>>, FileChangeEntryView>
    decreases entries.len(),
{
    if entries.len() == 0 {
        Map::empty()
    } else {
        as_map(entries.drop_last()).insert(entries.last().key(), entries.last()@)
    }
}

impl View for FileChanges {
    type V = Map<Seq<Seq<u8>>, FileChangeEntryView>;

    closed spec fn view(&self) -> Map<Seq<Seq<u8>>, FileChangeEntryView> {
        as_map(self.entries@)
    }
}

impl Clone for FileChanges {
    fn clone(&self) -> (r: Self)
        ensures
            r@ == self@,
    {
        proof {
            use_type_invariant(self);
        }
        let mut entries: Vec<FileChangeEntry> = Vec::new();
        let mut i: usize = 0;
        assert(self.entries@.take(0) == Seq::<FileChangeEntry>::empty());
        while i < self.entries.len()
            invariant
                i <= self.entries@.len(),
                entries@.len() == i,
                forall|j: int|
                    0 <= j < i ==> (#[trigger] entries@[j]).key() == self.entries@[j].key(),
                as_map(entries@) == as_map(self.entries@.take(i as int)),
            decreases self.entries.len() - i,
        {
            let ghost before = entries@;
            entries.push(self.entries[i].clone());
            assert(entries@.drop_last() == before);
            assert(self.entries@.take(i + 1).drop_last() == self.entries@.take(i as int));
            i = i + 1;
        }
        assert(self.entries@.take(i as int) == self.entries@);
        assert(distinct_paths(entries@)) by {
            assert forall|a: int, b: int| 0 <= a < b < entries@.len() implies (
            #[trigger] entries@[a]).key() != (#[trigger] entries@[b]).key() by {
                assert(self.entries@[a].key() != self.entries@[b].key());
            }
        }
        FileChanges { entries }
    }
}

/// The map holds exactly the paths that the entries name.
proof fn lemma_map_dom(entries: Seq<FileChangeEntry>)
    ensures
        forall|p: Seq<Seq<u8>>| #[trigger]
            as_map(entries).dom().contains(p) <==> exists|i: int|
                0 <= i < entries.len() && (#[trigger] entries[i]).key() == p,
    decreases entries.len(),
{
    if entries.len() > 0 {
        let front = entries.drop_last();
        lemma_map_dom(front);
        assert forall|p: Seq<Seq<u8>>| #[trigger] as_map(entries).dom().contains(p) implies exists|
            i: int,
        | 0 <= i < entries.len() && (#[trigger] entries[i]).key() == p by {
            if p == entries.last().key() {
                assert(entries[entries.len() - 1].key() == p);
            } else {
                assert(as_map(front).dom().contains(p));
                let i = choose|i: int| 0 <= i < front.len() && (#[trigger] front[i]).key() == p;
                assert(entries[i].key() == p);
            }
        }
        assert forall|p: Seq<Seq<u8>>|
            exists|i: int| 0 <= i < entries.len() && (#[trigger] entries[i]).key()
                == p implies #[trigger] as_map(entries).dom().contains(p) by {
            let i = choose|i: int| 0 <= i < entries.len() && (#[trigger] entries[i]).key() == p;
            if i < front.len() {
                assert(front[i].key() == p);
                assert(as_map(front).dom().contains(p));
            } else {
                assert(entries.last().key() == p);
            }
        }
    }
}

proof fn lemma_front_distinct(entries: Seq<FileChangeEntry>)
    requires
        entries.len() > 0,
        distinct_paths(entries),
    ensures
        distinct_paths(entries.drop_last()),
{
    let front = entries.drop_last();
    assert forall|i: int, j: int| 0 <= i < j < front.len() implies (#[trigger] front[i]).key() != (
    #[trigger] front[j]).key() by {
        assert(entries[i].key() != entries[j].key());
    }
}

/// With distinct paths the map has as many keys as there are entries.
pub proof fn lemma_map_len(entries: Seq<FileChangeEntry>)
    requires
        distinct_paths(entries),
    ensures
        as_map(entries).dom().finite(),
        as_map(entries).len() == entries.len(),
    decreases entries.len(),
{
    if entries.len() > 0 {
        let front = entries.drop_last();
        lemma_front_distinct(entries);
        lemma_map_len(front);
        lemma_map_dom(front);
        let p = entries.last().key();
        if as_map(front).dom().contains(p) {
            let i = choose|i: int| 0 <= i < front.len() && (#[trigger] front[i]).key() == p;
            assert(entries[i].key() != entries[entries.len() - 1].key());
        }
    }
}

/// The map holds each entry under its path, and replacing an entry by one for the same path
/// replaces it in the map.
pub proof fn lemma_map_update(entries: Seq<FileChangeEntry>, k: int, entry: FileChangeEntry)
    requires
        distinct_paths(entries),
        0 <= k < entries.len(),
        entries[k].key() == entry.key(),
    ensures
        as_map(entries.update(k, entry)) == as_map(entries).insert(entry.key(), entry@),
        as_map(entries).dom().contains(entry.key()),
        as_map(entries)[entry.key()] == entries[k]@,
    decreases entries.len(),
{
    let front = entries.drop_last();
    let updated = entries.update(k, entry);
    let p = entry.key();
    if k == entries.len() - 1 {
        assert(updated.drop_last() == front);
        assert(as_map(updated) =~= as_map(entries).insert(p, entry@));
    } else {
        lemma_front_distinct(entries);
        lemma_map_update(front, k, entry);
        assert(updated.drop_last() == front.update(k, entry));
        assert(entries[k].key() != entries[entries.len() - 1].key());
        assert(as_map(updated) =~= as_map(entries).insert(p, entry@));
    }
}

/// Every path of `a` is a path of `b`, with the same change.
pub open spec fn included(
    a: Map<Seq<Seq<u8>>, FileChangeEntryView>,
    b: Map<Seq<Seq<u8>>, FileChangeEntryView>,
) -> bool {
    forall|p: Seq<Seq<u8>>|
        a.dom().contains(p) ==> #[trigger] b.dom().contains(p) && same_change(
            a[p].change,
            b[p].change,
        )
}

impl FileChanges {
    #[verifier::type_invariant]
    spec fn inv(self) -> bool {
        distinct_paths(self.entries@)
    }

    /// No changes.
    pub fn new() -> (r: Self)
        ensures
            r@ == Map::<Seq<Seq<u8>>, FileChangeEntryView>::empty(),
    {
        FileChanges { entries: Vec::new() }
    }

    /// Proposes `change` for `path`, in place of what was proposed for it before. Hands back
    /// the change that it replaces; the path then stays spelt as it was.
    pub fn insert(&mut self, path: FilePath, change: FileChange) -> (r: Option<FileChange>)
        ensures
            final(self)@ == old(self)@.insert(
                components(path@),
                FileChangeEntryView {
                    path: if old(self)@.dom().contains(components(path@)) {
                        old(self)@[components(path@)].path
                    } else {
                        path@
                    },
                    change: change@,
                },
            ),
            match r {
                Some(previous) => old(self)@.dom().contains(components(path@)) && previous@
                    == old(self)@[components(path@)].change,
                None => !old(self)@.dom().contains(components(path@)),
            },
    {
        proof {
            use_type_invariant(&*self);
        }
        let ghost before = self.entries@;
        let mut entries: Vec<FileChangeEntry> = Vec::new();
        std::mem::swap(&mut entries, &mut self.entries);
        let mut i: usize = 0;
        while i < entries.len()
            invariant
                entries@ == before,
                before == old(self).entries@,
                distinct_paths(before),
                i <= before.len(),
                forall|j: int| 0 <= j < i ==> (#[trigger] before[j]).key() != components(path@),
            decreases entries.len() - i,
        {
            if entries[i].path.same(&path) {
                let mut entry = FileChangeEntry { path: entries[i].path.clone(), change };
                let ghost new_entry = entry;
                proof {
                    lemma_map_update(before, i as int, entry);
                }
                std::mem::swap(&mut entries[i], &mut entry);
                assert(entries@ =~= before.update(i as int, new_entry));
                assert(distinct_paths(entries@)) by {
                    assert forall|a: int, b: int| 0 <= a < b < entries@.len() implies (
                    #[trigger] entries@[a]).key() != (#[trigger] entries@[b]).key() by {
                        assert(before[a].key() != before[b].key());
                    }
                }
                self.entries = entries;
                return Some(entry.change);
            }
            i = i + 1;
        }
        proof {
            lemma_map_dom(before);
        }
        entries.push(FileChangeEntry { path, change });
        assert(entries@.drop_last() == before);
        assert(distinct_paths(entries@));
        self.entries = entries;
        None
    }

    /// The number of files that change.
    pub fn len(&self) -> (r: usize)
        ensures
            self@.dom().finite(),
            r == self@.len(),
    {
        proof {
            use_type_invariant(self);
            lemma_map_len(self.entries@);
        }
        self.entries.len()
    }

    /// The change proposed for `path`, if there is one.
    pub fn get(&self, path: &FilePath) -> (r: Option<&FileChange>)
        ensures
            match r {
                Some(change) => self@.dom().contains(components(path@)) && change@
                    == self@[components(path@)].change,
                None => !self@.dom().contains(components(path@)),
            },
    {
        proof {
            use_type_invariant(self);
            lemma_map_dom(self.entries@);
        }
        let mut i: usize = 0;
        while i < self.entries.len()
            invariant
                distinct_paths(self.entries@),
                i <= self.entries@.len(),
                forall|j: int|
                    0 <= j < i ==> (#[trigger] self.entries@[j]).key() != components(path@),
            decreases self.entries.len() - i,
        {
            if self.entries[i].path.same(path) {
                proof {
                    lemma_map_update(self.entries@, i as int, self.entries@[i as int]);
                }
                return Some(&self.entries[i].change);
            }
            i = i + 1;
        }
        None
    }

    /// Tells whether every change is also one of `other`.
    fn within(&self, other: &FileChanges) -> (r: bool)
        ensures
            r == included(self@, other@),
    {
        proof {
            use_type_invariant(self);
            lemma_map_dom(self.entries@);
        }
        let ghost mine = self.entries@;
        let mut i: usize = 0;
        while i < self.entries.len()
            invariant
                mine == self.entries@,
                distinct_paths(mine),
                i <= mine.len(),
                forall|j: int|
                    0 <= j < i ==> other@.dom().contains((#[trigger] mine[j]).key())
                        && same_change(mine[j].change@, other@[mine[j].key()].change),
            decreases self.entries.len() - i,
        {
            proof {
                lemma_map_update(mine, i as int, mine[i as int]);
            }
            let shared: bool = match other.get(&self.entries[i].path) {
                Some(change) => self.entries[i].change.same(change),
                None => false,
            };
            if !shared {
                assert(self@.dom().contains(mine[i as int].key()));
                return false;
            }
            i = i + 1;
        }
        assert forall|p: Seq<Seq<u8>>|
            self@.dom().contains(p) implies #[trigger] other@.dom().contains(p) && same_change(
            self@[p].change,
            other@[p].change,
        ) by {
            let k = choose|k: int| 0 <= k < mine.len() && (#[trigger] mine[k]).key() == p;
            lemma_map_update(mine, k, mine[k]);
        }
        true
    }

    /// The changes one by one.
    pub fn entries(&self) -> (r: &Vec<FileChangeEntry>)
        ensures
            distinct_paths(r@),
            as_map(r@) == self@,
    {
        proof {
            use_type_invariant(self);
        }
        &self.entries
    }
}

impl PartialEq for FileChanges {
    fn eq(&self, other: &FileChanges) -> (r: bool) {
        self.within(other) && other.within(self)
    }
}

impl vstd::std_specs::cmp::PartialEqSpecImpl for FileChanges {
    open spec fn obeys_eq_spec() -> bool {
        true
    }

    open spec fn eq_spec(&self, other: &FileChanges) -> bool {
        included(self@, other@) && included(other@, self@)
    }
}

} // verus!

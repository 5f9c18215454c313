use vstd::prelude::*;

verus! {

/// One imported file of the asset list.
pub struct File {
    pub path: String,
    pub used: bool,
    pub selected: bool,
}

impl File {
    /// A freshly imported file: in use, not selected.
    pub fn new(path: String) -> (r: File)
        ensures
            r.path == path,
            r.used,
            !r.selected,
    {
        File { path, used: true, selected: false }
    }
}

/// Whether some entry of `files` has the path `p`.
pub open spec fn has_path(files: Seq<File>, p: Seq<char>) -> bool {
    exists|i: int| 0 <= i < files.len() && #[trigger] files[i].path@ == p
}

/// The list `files` after the path `p` was handed over: unchanged when an entry has `p`,
/// else with a new file in use at its end.
pub open spec fn after_pick(files: Seq<File>, p: String) -> Seq<File> {
    if has_path(files, p@) {
        files
    } else {
        files.push(File { path: p, used: true, selected: false })
    }
}

/// Handing over a path that no entry has adds exactly one entry, at the end; handing the
/// same path over once more changes nothing.
pub proof fn pick_twice(files: Seq<File>, p: String)
    ensures
        !has_path(files, p@) ==> after_pick(files, p).len() == files.len() + 1,
        !has_path(files, p@) ==> after_pick(files, p).drop_last() == files,
        after_pick(after_pick(files, p), p) == after_pick(files, p),
{
    if !has_path(files, p@) {
        let once = after_pick(files, p);
        assert(once[files.len() as int].path@ == p@);
        assert(has_path(once, p@));
        assert(once.drop_last() =~= files);
    }
}

/// `files` with the entry at `i` changed only in its "used" flag, which is flipped.
pub open spec fn flip_used(files: Seq<File>, i: int) -> Seq<File> {
    files.update(i, File { path: files[i].path, used: !files[i].used, selected: files[i].selected })
}

/// `files` with the entry at `i` changed only in its "selected" flag, which is flipped.
pub open spec fn flip_selected(files: Seq<File>, i: int) -> Seq<File> {
    files.update(i, File { path: files[i].path, used: files[i].used, selected: !files[i].selected })
}

/// Flipping the "used" flag of row `i` changes that flag alone: the row keeps its path and
/// its "selected" flag, and every other row stays as it was.
pub proof fn flip_used_only_row(files: Seq<File>, i: int)
    requires
        0 <= i < files.len(),
    ensures
        flip_used(files, i).len() == files.len(),
        flip_used(files, i)[i].used == !files[i].used,
        flip_used(files, i)[i].path == files[i].path,
        flip_used(files, i)[i].selected == files[i].selected,
        forall|j: int| 0 <= j < files.len() && j != i ==> #[trigger] flip_used(files, i)[j] == files[j],
{
}

/// The asset list: the imported files in the order they came, each path at most once,
/// and the path that the file dialog handed over last.
pub struct FileState {
    pub selected_file: Option<String>,
    pub files: Vec<File>,
}

impl FileState {
    /// No two entries share a path.
    pub open spec fn wf(&self) -> bool {
        forall|i: int, j: int|
            0 <= i < self.files@.len() && 0 <= j < self.files@.len() && i != j
                ==> #[trigger] self.files@[i].path@ != #[trigger] self.files@[j].path@
    }

    /// Whether row `i` is shown as selected: its own flag is set, or its path is the
    /// one picked last.
    pub open spec fn row_is_selected(&self, i: int) -> bool {
        0 <= i < self.files@.len() && (self.files@[i].selected || match self.selected_file {
            Some(s) => s@ == self.files@[i].path@,
            None => false,
        })
    }

    /// An empty asset list with nothing picked.
    pub fn new() -> (r: FileState)
        ensures
            r.wf(),
            r.files@.len() == 0,
            r.selected_file.is_none(),
    {
        FileState { selected_file: None, files: Vec::new() }
    }

    /// Whether an entry has the path `path`.
    pub fn contains(&self, path: &String) -> (r: bool)
        ensures
            r == has_path(self.files@, path@),
    {
        let mut i: usize = 0;
        while i < self.files.len()
            invariant
                i <= self.files@.len(),
                forall|k: int| 0 <= k < i ==> self.files@[k].path@ != path@,
            decreases self.files@.len() - i,
        {
            if self.files[i].path == *path {
                return true;
            }
            i = i + 1;
        }
        false
    }

    /// Takes the path that the file dialog handed over: it becomes the picked path, and
    /// it is appended as a new file in use when no entry has it yet. Returns whether it
    /// was appended.
    pub fn pick(&mut self, path: String) -> (added: bool)
        requires
            old(self).wf(),
        ensures
            final(self).wf(),
            final(self).selected_file == Some(path),
            added == !has_path(old(self).files@, path@),
            final(self).files@ == after_pick(old(self).files@, path),
    {
        self.selected_file = Some(path.clone());
        if self.contains(&path) {
            return false;
        }
        let ghost before = self.files@;
        self.files.push(File::new(path));
        assert forall|i: int, j: int|
            0 <= i < self.files@.len() && 0 <= j < self.files@.len() && i != j
                implies #[trigger] self.files@[i].path@ != #[trigger] self.files@[j].path@ by {
            if i < before.len() && j < before.len() {
                assert(before[i] == self.files@[i]);
                assert(before[j] == self.files@[j]);
            }
        }
        true
    }

    /// Flips the "used" flag of row `i` (the row's checkbox); other rows are unaffected.
    /// Does nothing when there is no row `i`.
    pub fn toggle_used(&mut self, i: usize)
        requires
            old(self).wf(),
        ensures
            final(self).wf(),
            final(self).selected_file == old(self).selected_file,
            i < old(self).files@.len() ==> final(self).files@ == flip_used(old(self).files@, i as int),
            i >= old(self).files@.len() ==> final(self).files@ == old(self).files@,
    {
        if i < self.files.len() {
            let ghost before = self.files@;
            self.files[i].used = !self.files[i].used;
            assert(self.files@ =~= flip_used(before, i as int));
            assert forall|a: int, b: int|
                0 <= a < self.files@.len() && 0 <= b < self.files@.len() && a != b
                    implies #[trigger] self.files@[a].path@ != #[trigger] self.files@[b].path@ by {
                assert(before[a].path == self.files@[a].path);
                assert(before[b].path == self.files@[b].path);
            }
        }
    }

    /// Flips the "selected" flag of row `i` (a click on the row); other rows are unaffected.
    /// Does nothing when there is no row `i`.
    pub fn toggle_selected(&mut self, i: usize)
        requires
            old(self).wf(),
        ensures
            final(self).wf(),
            final(self).selected_file == old(self).selected_file,
            i < old(self).files@.len() ==> final(self).files@ == flip_selected(old(self).files@, i as int),
            i >= old(self).files@.len() ==> final(self).files@ == old(self).files@,
    {
        if i < self.files.len() {
            let ghost before = self.files@;
            self.files[i].selected = !self.files[i].selected;
            assert(self.files@ =~= flip_selected(before, i as int));
            assert forall|a: int, b: int|
                0 <= a < self.files@.len() && 0 <= b < self.files@.len() && a != b
                    implies #[trigger] self.files@[a].path@ != #[trigger] self.files@[b].path@ by {
                assert(before[a].path == self.files@[a].path);
                assert(before[b].path == self.files@[b].path);
            }
        }
    }

    /// Whether row `i` is shown as selected; false when there is no row `i`.
    pub fn row_selected(&self, i: usize) -> (r: bool)
        ensures
            r == self.row_is_selected(i as int),
    {
        if i >= self.files.len() {
            return false;
        }
        if self.files[i].selected {
            return true;
        }
        match &self.selected_file {
            Some(s) => *s == self.files[i].path,
            None => false,
        }
    }
}

} // verus!

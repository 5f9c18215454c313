use vstd::prelude::*;

use crate::assets::{after_pick, has_path, FileState};
use crate::hierarchy::{fresh_object, Asset, HierarchyState};

verus! {

/// The stem of a path: its last component without the extension, if it has one.
pub uninterp spec fn file_stem_of(path: Seq<char>) -> Option<Seq<char>>;

/// Relies on std::path::Path::file_stem for the stem of `path`. The stem is a piece of a
/// `&str`, so converting it back to a `String` loses nothing.
#[verifier::external_body]
fn file_stem(path: &str) -> (r: Option<String>)
    ensures
        match r {
            Some(s) => file_stem_of(path@) == Some(s@),
            None => file_stem_of(path@) == None::<Seq<char>>,
        },
{
    match std::path::Path::new(path).file_stem() {
        Some(s) => Some(s.to_string_lossy().into_owned()),
        None => None,
    }
}

/// The name of the object that stands for an imported file: the file's stem, or the
/// whole path where it has none.
pub open spec fn object_name_for(path: Seq<char>) -> Seq<char> {
    match file_stem_of(path) {
        Some(s) => s,
        None => path,
    }
}

/// The state that every tab reads and edits: the asset list and the hierarchy.
pub struct SharedState {
    pub file: FileState,
    pub hierarchy: HierarchyState,
}

impl SharedState {
    pub open spec fn wf(&self) -> bool {
        self.file.wf()
    }

    /// Empty asset list and hierarchy.
    pub fn new() -> (r: SharedState)
        ensures
            r.wf(),
            r.file.files@.len() == 0,
            r.file.selected_file.is_none(),
            r.hierarchy.assets@.len() == 0,
            !r.hierarchy.adding,
            r.hierarchy.new_name@.len() == 0,
    {
        SharedState { file: FileState::new(), hierarchy: HierarchyState::new() }
    }

    /// Takes a path from the file dialog together with the name that its object gets.
    /// The path becomes the picked one; when no entry has it yet, it is appended to the
    /// asset list as a file in use and an object named `name` is appended to the
    /// hierarchy. Returns whether it was new.
    pub fn ingest_named(&mut self, path: String, name: &str) -> (added: bool)
        requires
            old(self).wf(),
        ensures
            final(self).wf(),
            final(self).file.selected_file == Some(path),
            added == !has_path(old(self).file.files@, path@),
            final(self).file.files@ == after_pick(old(self).file.files@, path),
            added ==> {
                &&& final(self).hierarchy.assets@.len() == old(self).hierarchy.assets@.len() + 1
                &&& final(self).hierarchy.assets@.drop_last() == old(self).hierarchy.assets@
                &&& final(self).hierarchy.assets@.last() matches Asset::Object(o)
                    && o@ == fresh_object(name@)
            },
            !added ==> final(self).hierarchy.assets == old(self).hierarchy.assets,
            final(self).hierarchy.adding == old(self).hierarchy.adding,
            final(self).hierarchy.new_name == old(self).hierarchy.new_name,
    {
        let added = self.file.pick(path);
        if added {
            self.hierarchy.push_object(name);
        }
        added
    }

    /// Takes a path from the file dialog, as `ingest_named` does, naming the new object
    /// after the file's stem (or after the whole path where it has no stem).
    pub fn ingest(&mut self, path: String) -> (added: bool)
        requires
            old(self).wf(),
        ensures
            final(self).wf(),
            final(self).file.selected_file == Some(path),
            added == !has_path(old(self).file.files@, path@),
            final(self).file.files@ == after_pick(old(self).file.files@, path),
            added ==> {
                &&& final(self).hierarchy.assets@.len() == old(self).hierarchy.assets@.len() + 1
                &&& final(self).hierarchy.assets@.drop_last() == old(self).hierarchy.assets@
                &&& final(self).hierarchy.assets@.last() matches Asset::Object(o)
                    && o@ == fresh_object(object_name_for(path@))
            },
            !added ==> final(self).hierarchy.assets == old(self).hierarchy.assets,
            final(self).hierarchy.adding == old(self).hierarchy.adding,
            final(self).hierarchy.new_name == old(self).hierarchy.new_name,
    {
        let name = match file_stem(path.as_str()) {
            Some(s) => s,
            None => path.clone(),
        };
        self.ingest_named(path, name.as_str())
    }
}

} // verus!

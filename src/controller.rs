//! The renamer's state and its transitions in response to user actions.
//!
//! The filesystem work itself (listing a directory, moving a file) happens
//! outside: a listing comes in as `DirEntry` values, a rename goes out as a
//! `RenamePlan`, and its outcome comes back to `finish_rename`.

use vstd::prelude::*;
use crate::fields::{Field, FieldSet, Separator, separator_text};
use crate::listing::{DirEntry, file_names, is_sorted, regular_files, sorted_names};
use crate::text::{extension_of, extract_extension, tokenize, tokens, views};

verus! {

/// Why a rename did not happen.
#[derive(Clone, Debug)]
pub enum RenameError {
    /// The source directory, the selected file or the destination directory
    /// is missing.
    InvalidPaths,
    /// The operating system refused the move; holds the reason it gave.
    MoveFailed(String),
}

impl RenameError {
    /// The message shown for this error.
    pub open spec fn message_spec(&self) -> Seq<char> {
        match self {
            RenameError::InvalidPaths => "Invalid paths or file names provided."@,
            RenameError::MoveFailed(reason) => "Failed to move the file: "@ + reason@,
        }
    }

    /// The message shown for this error.
    pub fn message(&self) -> (r: String)
        ensures
            r@ == self.message_spec(),
    {
        match self {
            RenameError::InvalidPaths => String::from_str("Invalid paths or file names provided."),
            RenameError::MoveFailed(reason) => String::from_str("Failed to move the file: ").concat(
                reason.as_str(),
            ),
        }
    }
}

/// The two paths of a move: the file as it is, and where it goes.
#[derive(Clone, Debug)]
pub struct RenamePlan {
    pub source: String,
    pub destination: String,
}

/// The outcome of the last rename attempt.
#[derive(Clone, Debug)]
pub struct RenameStatus {
    pub success: bool,
    pub message: String,
}

/// `dir` and `name` joined by a single `/`.
pub open spec fn join_path(dir: Seq<char>, name: Seq<char>) -> Seq<char> {
    dir + seq!['/'] + name
}

/// `dir` and `name` joined by a single `/`.
pub fn join(dir: &String, name: &String) -> (r: String)
    ensures
        r@ == join_path(dir@, name@),
{
    let r = dir.clone().concat("/").concat(name.as_str());
    proof {
        reveal_strlit("/");
    }
    r
}

/// The path opened for the selected file: the source directory followed by
/// a `/` unless it already ends in one, then the file name; a part that is
/// missing adds nothing.
pub open spec fn open_target_spec(dir: Option<String>, file: Option<String>) -> Seq<char> {
    let prefix = match dir {
        Some(d) => if d@.len() > 0 && d@.last() == '/' {
            d@
        } else {
            d@.push('/')
        },
        None => Seq::empty(),
    };
    match file {
        Some(f) => prefix + f@,
        None => prefix,
    }
}

/// The message of a successful rename.
pub open spec fn success_message() -> Seq<char> {
    "Rename Successful!"@
}

/// Everything the renamer holds: the browsed directory and its files, the
/// selected file, the destination directory, the name fields, and the
/// outcome of the last rename.
pub struct Renamer {
    pub source_dir: Option<String>,
    pub selected_file: Option<String>,
    /// The regular files of the source directory, as last listed.
    pub files: Vec<String>,
    pub dest_dir: Option<String>,
    pub fields: FieldSet,
    /// `None` until the first rename attempt.
    pub status: Option<RenameStatus>,
}

impl Renamer {
    /// No directory, no file, empty fields, no status.
    pub fn new() -> (r: Renamer)
        ensures
            r.source_dir is None,
            r.selected_file is None,
            r.files@.len() == 0,
            r.dest_dir is None,
            r.fields.all_empty(),
            r.status is None,
    {
        Renamer {
            source_dir: None,
            selected_file: None,
            files: Vec::new(),
            dest_dir: None,
            fields: FieldSet::new(),
            status: None,
        }
    }

    /// Browses directory `path`, whose listing is `entries`: the destination
    /// goes back to `path`, the selection and the fields are cleared, and the
    /// file list becomes the listing's regular files.
    pub fn select_source_directory(&mut self, path: String, entries: &Vec<DirEntry>)
        ensures
            final(self).source_dir == Some(path),
            final(self).dest_dir == Some(path),
            final(self).selected_file is None,
            final(self).fields.all_empty(),
            views(final(self).files@) == file_names(entries@),
            final(self).status == old(self).status,
    {
        self.source_dir = Some(path.clone());
        self.dest_dir = Some(path);
        self.selected_file = None;
        self.fields.clear();
        self.files = regular_files(entries);
    }

    /// Stops browsing: no source or destination directory, no files.
    pub fn deselect_source_directory(&mut self)
        ensures
            final(self).source_dir is None,
            final(self).dest_dir is None,
            final(self).files@.len() == 0,
            final(self).selected_file == old(self).selected_file,
            final(self).fields == old(self).fields,
            final(self).status == old(self).status,
    {
        self.source_dir = None;
        self.dest_dir = None;
        self.files = Vec::new();
    }

    /// Replaces the file list with the regular files of a new listing of the
    /// source directory.
    pub fn refresh_files(&mut self, entries: &Vec<DirEntry>)
        ensures
            views(final(self).files@) == file_names(entries@),
            final(self).source_dir == old(self).source_dir,
            final(self).dest_dir == old(self).dest_dir,
            final(self).selected_file == old(self).selected_file,
            final(self).fields == old(self).fields,
            final(self).status == old(self).status,
    {
        self.files = regular_files(entries);
    }

    /// Selects file `name`: the extension field becomes its extension, the
    /// other fields stay.
    pub fn select_file(&mut self, name: String)
        ensures
            final(self).selected_file == Some(name),
            final(self).fields.extension@ == extension_of(name@),
            final(self).fields.author == old(self).fields.author,
            final(self).fields.series == old(self).fields.series,
            final(self).fields.episode == old(self).fields.episode,
            final(self).fields.title == old(self).fields.title,
            final(self).source_dir == old(self).source_dir,
            final(self).dest_dir == old(self).dest_dir,
            final(self).files == old(self).files,
            final(self).status == old(self).status,
    {
        self.fields.extension = extract_extension(name.as_str());
        self.selected_file = Some(name);
    }

    /// Sends renamed files to directory `path` instead.
    pub fn select_destination_directory(&mut self, path: String)
        ensures
            final(self).dest_dir == Some(path),
            final(self).source_dir == old(self).source_dir,
            final(self).selected_file == old(self).selected_file,
            final(self).files == old(self).files,
            final(self).fields == old(self).fields,
            final(self).status == old(self).status,
    {
        self.dest_dir = Some(path);
    }

    /// Replaces the text of field `f`.
    pub fn edit_field(&mut self, f: Field, value: String)
        ensures
            final(self).fields.value(f) == value@,
            forall|g: Field| g != f ==> final(self).fields.value(g) == old(self).fields.value(g),
            final(self).source_dir == old(self).source_dir,
            final(self).dest_dir == old(self).dest_dir,
            final(self).selected_file == old(self).selected_file,
            final(self).files == old(self).files,
            final(self).status == old(self).status,
    {
        self.fields.set(f, value);
    }

    /// Appends the separator `op` to field `f`.
    pub fn quick_insert(&mut self, f: Field, op: Separator)
        ensures
            final(self).fields.value(f) == old(self).fields.value(f) + separator_text(op),
            forall|g: Field| g != f ==> final(self).fields.value(g) == old(self).fields.value(g),
            final(self).source_dir == old(self).source_dir,
            final(self).dest_dir == old(self).dest_dir,
            final(self).selected_file == old(self).selected_file,
            final(self).files == old(self).files,
            final(self).status == old(self).status,
    {
        self.fields.quick_insert(f, op);
    }

    /// Appends the text read from the clipboard to field `f`.
    pub fn paste_into_field(&mut self, f: Field, clipboard: &str)
        ensures
            final(self).fields.value(f) == old(self).fields.value(f) + clipboard@,
            forall|g: Field| g != f ==> final(self).fields.value(g) == old(self).fields.value(g),
            final(self).source_dir == old(self).source_dir,
            final(self).dest_dir == old(self).dest_dir,
            final(self).selected_file == old(self).selected_file,
            final(self).files == old(self).files,
            final(self).status == old(self).status,
    {
        self.fields.append(f, clipboard);
    }

    /// The name that the fields currently compose.
    pub fn composed_name(&self) -> (r: String)
        ensures
            r@ == self.fields.composed(),
    {
        self.fields.compose()
    }

    /// The file list in lexicographic order, for display.
    pub fn sorted_files(&self) -> (r: Vec<String>)
        ensures
            r@.to_multiset() == self.files@.to_multiset(),
            is_sorted(views(r@)),
    {
        sorted_names(&self.files)
    }

    /// The tokens of the selected file's name; none without a selection.
    pub fn selected_tokens(&self) -> (r: Vec<String>)
        ensures
            views(r@) == match self.selected_file {
                Some(f) => tokens(f@),
                None => tokens(Seq::empty()),
            },
    {
        match &self.selected_file {
            Some(f) => tokenize(f.as_str()),
            None => {
                proof {
                    reveal_strlit("");
                }
                assert(""@ =~= Seq::<char>::empty());
                tokenize("")
            },
        }
    }

    /// The move that renaming the selected file calls for: from the source
    /// directory joined with the selected file, to the destination directory
    /// joined with the composed name. Fails, touching nothing, when the
    /// source directory, the selected file or the destination is missing.
    pub fn rename_plan(&self) -> (r: Result<RenamePlan, RenameError>)
        ensures
            r is Ok <==> (self.source_dir is Some && self.selected_file is Some
                && self.dest_dir is Some),
            r is Ok ==> r->Ok_0.source@ == join_path(
                self.source_dir->Some_0@,
                self.selected_file->Some_0@,
            ),
            r is Ok ==> r->Ok_0.destination@ == join_path(
                self.dest_dir->Some_0@,
                self.fields.composed(),
            ),
            r is Err ==> r->Err_0 is InvalidPaths,
    {
        match (&self.source_dir, &self.selected_file, &self.dest_dir) {
            (Some(dir), Some(file), Some(dest)) => {
                let name = self.fields.compose();
                Ok(RenamePlan { source: join(dir, file), destination: join(dest, &name) })
            },
            _ => Err(RenameError::InvalidPaths),
        }
    }

    /// Records the outcome of a rename attempt. After a success the selection
    /// and the fields are cleared, and the source directory, to be listed
    /// again, is returned; after a failure only the status changes.
    pub fn finish_rename(&mut self, outcome: Result<(), RenameError>) -> (rescan: Option<String>)
        ensures
            final(self).source_dir == old(self).source_dir,
            final(self).dest_dir == old(self).dest_dir,
            final(self).files == old(self).files,
            final(self).status is Some,
            outcome is Ok ==> {
                &&& final(self).selected_file is None
                &&& final(self).fields.all_empty()
                &&& final(self).status->Some_0.success
                &&& final(self).status->Some_0.message@ == success_message()
                &&& rescan == old(self).source_dir
            },
            outcome is Err ==> {
                &&& final(self).selected_file == old(self).selected_file
                &&& final(self).fields == old(self).fields
                &&& !final(self).status->Some_0.success
                &&& final(self).status->Some_0.message@ == outcome->Err_0.message_spec()
                &&& rescan is None
            },
    {
        match outcome {
            Ok(()) => {
                self.selected_file = None;
                self.fields.clear();
                self.status = Some(
                    RenameStatus { success: true, message: String::from_str("Rename Successful!") },
                );
                self.source_dir.clone()
            },
            Err(e) => {
                self.status = Some(RenameStatus { success: false, message: e.message() });
                None
            },
        }
    }

    /// The path handed to the default application to open the selected file.
    pub fn open_target(&self) -> (r: String)
        ensures
            r@ == open_target_spec(self.source_dir, self.selected_file),
    {
        let mut r = String::new();
        if let Some(d) = &self.source_dir {
            r.append(d.as_str());
            let n = d.as_str().unicode_len();
            if n == 0 || d.as_str().get_char(n - 1) != '/' {
                r.append("/");
                proof {
                    reveal_strlit("/");
                }
            }
        }
        if let Some(f) = &self.selected_file {
            r.append(f.as_str());
        }
        proof {
            assert(r@ =~= open_target_spec(self.source_dir, self.selected_file));
        }
        r
    }
}

} // verus!

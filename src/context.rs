//! The facts a rule is evaluated against.
use crate::paths::{
    extension_of, file_name_of, opt_chars, or_empty, parent_of, path_extension, path_file_name, path_parent,
};
use crate::strings::same_text;
use vstd::prelude::*;

verus! {

/// Whether a file entry is a file or a directory.
#[derive(Clone, Copy, Debug, PartialEq, Eq, Structural)]
pub enum FileType {
    File,
    Directory,
}

/// A file or directory, with its name taken from its path once, when built.
#[derive(Clone, Debug, PartialEq)]
pub struct FileEntry {
    /// The full path.
    pub path: String,
    pub file_type: FileType,
    /// The last component of the path.
    pub name: String,
}

/// A file entry's contents.
pub struct EntryView {
    pub path: Seq<char>,
    pub file_type: FileType,
    pub name: Seq<char>,
}

impl View for FileEntry {
    type V = EntryView;

    open spec fn view(&self) -> EntryView {
        EntryView { path: self.path@, file_type: self.file_type, name: self.name@ }
    }
}

/// The entry that `FileEntry::new` builds for `path`.
pub open spec fn entry_for(path: Seq<char>, file_type: FileType) -> EntryView {
    EntryView { path, file_type, name: or_empty(path_file_name(path)) }
}

impl FileEntry {
    pub fn new(path: &str, file_type: FileType) -> (r: Self)
        ensures
            r@ == entry_for(path@, file_type),
    {
        let name = match file_name_of(path) {
            Some(n) => n,
            None => String::new(),
        };
        FileEntry { path: path.to_string(), file_type, name }
    }

    pub fn is_file(&self) -> (r: bool)
        ensures
            r == (self.file_type == FileType::File),
    {
        self.file_type == FileType::File
    }

    pub fn is_directory(&self) -> (r: bool)
        ensures
            r == (self.file_type == FileType::Directory),
    {
        self.file_type == FileType::Directory
    }

    /// The extension of the path's last component.
    pub fn extension(&self) -> (r: Option<String>)
        ensures
            opt_chars(r) == path_extension(self.path@),
    {
        extension_of(self.path.as_str())
    }

    /// The path of the directory holding this entry.
    pub fn parent(&self) -> (r: Option<String>)
        ensures
            opt_chars(r) == path_parent(self.path@),
    {
        parent_of(self.path.as_str())
    }
}

/// A snapshot of the environment that rules are evaluated against.
#[derive(Clone, Debug)]
pub struct Context {
    /// The selected text.
    pub text: Option<String>,
    /// Files and directories together, by full path.
    pub file_entries: Vec<FileEntry>,
    /// The active file's full path.
    pub active_file: Option<String>,
    /// The foreground application's name.
    pub app_name: Option<String>,
    /// The foreground application's window title.
    pub app_title: Option<String>,
    /// The workspace root.
    pub workspace: Option<String>,
    /// Further data for extensions; no rule reads it.
    pub custom: std::collections::HashMap<String, String>,
}

/// The facts of a context that rules read.
pub struct ContextView {
    pub text: Option<Seq<char>>,
    pub entries: Seq<EntryView>,
    pub active_file: Option<Seq<char>>,
    pub app_name: Option<Seq<char>>,
    pub app_title: Option<Seq<char>>,
    pub workspace: Option<Seq<char>>,
}

/// The contents of a list of entries.
pub open spec fn entry_views(v: Seq<FileEntry>) -> Seq<EntryView> {
    v.map_values(|e: FileEntry| e@)
}

/// The contents of a list of borrowed entries.
pub open spec fn entry_ref_views(v: Seq<&FileEntry>) -> Seq<EntryView> {
    v.map_values(|e: &FileEntry| e@)
}

impl View for Context {
    type V = ContextView;

    open spec fn view(&self) -> ContextView {
        ContextView {
            text: opt_chars(self.text),
            entries: entry_views(self.file_entries@),
            active_file: opt_chars(self.active_file),
            app_name: opt_chars(self.app_name),
            app_title: opt_chars(self.app_title),
            workspace: opt_chars(self.workspace),
        }
    }
}

/// A context with no facts.
pub open spec fn empty_context() -> ContextView {
    ContextView {
        text: None,
        entries: Seq::empty(),
        active_file: None,
        app_name: None,
        app_title: None,
        workspace: None,
    }
}

pub open spec fn is_file_entry(e: EntryView) -> bool {
    e.file_type == FileType::File
}

pub open spec fn is_dir_entry(e: EntryView) -> bool {
    e.file_type == FileType::Directory
}

/// A file whose extension is `ext`.
pub open spec fn has_extension(e: EntryView, ext: Seq<char>) -> bool {
    e.file_type == FileType::File && path_extension(e.path) == Some(ext)
}

/// The entries that are files, in order.
pub open spec fn files_of(c: ContextView) -> Seq<EntryView> {
    c.entries.filter(|e: EntryView| is_file_entry(e))
}

/// The entries that are directories, in order.
pub open spec fn dirs_of(c: ContextView) -> Seq<EntryView> {
    c.entries.filter(|e: EntryView| is_dir_entry(e))
}

/// The files whose extension is `ext`, in order.
pub open spec fn files_with_ext(c: ContextView, ext: Seq<char>) -> Seq<EntryView> {
    c.entries.filter(|e: EntryView| has_extension(e, ext))
}

/// Filtering a sequence with one more element at the end.
proof fn lemma_filter_push(u: Seq<EntryView>, x: EntryView, p: spec_fn(EntryView) -> bool)
    ensures
        u.push(x).filter(p) == if p(x) {
            u.filter(p).push(x)
        } else {
            u.filter(p)
        },
{
    reveal(Seq::filter);
    assert(u.push(x).drop_last() =~= u);
}

impl Default for Context {
    fn default() -> (r: Self)
        ensures
            r@ == empty_context(),
    {
        let r = Context {
            text: None,
            file_entries: Vec::new(),
            active_file: None,
            app_name: None,
            app_title: None,
            workspace: None,
            custom: std::collections::HashMap::new(),
        };
        assert(entry_views(r.file_entries@) =~= Seq::<EntryView>::empty());
        r
    }
}

impl Context {
    pub fn new() -> (r: Self)
        ensures
            r@ == empty_context(),
    {
        Self::default()
    }

    pub fn with_text(self, text: &str) -> (r: Self)
        ensures
            r@ == (ContextView { text: Some(text@), ..self@ }),
    {
        let mut c = self;
        c.text = Some(text.to_string());
        c
    }

    pub fn with_files(self, files: Vec<FileEntry>) -> (r: Self)
        ensures
            r@ == (ContextView { entries: entry_views(files@), ..self@ }),
    {
        let mut c = self;
        c.file_entries = files;
        c
    }

    pub fn with_active_file(self, file: &str) -> (r: Self)
        ensures
            r@ == (ContextView { active_file: Some(file@), ..self@ }),
    {
        let mut c = self;
        c.active_file = Some(file.to_string());
        c
    }

    /// Sets the application name, and its title or none.
    pub fn with_app(self, name: &str, title: Option<&str>) -> (r: Self)
        ensures
            r@ == (ContextView {
                app_name: Some(name@),
                app_title: match title {
                    Some(t) => Some(t@),
                    None => None,
                },
                ..self@
            }),
    {
        let mut c = self;
        c.app_name = Some(name.to_string());
        c.app_title = match title {
            Some(t) => Some(t.to_string()),
            None => None,
        };
        c
    }

    pub fn with_workspace(self, workspace: &str) -> (r: Self)
        ensures
            r@ == (ContextView { workspace: Some(workspace@), ..self@ }),
    {
        let mut c = self;
        c.workspace = Some(workspace.to_string());
        c
    }

    /// The entries that are files, in order.
    pub fn files(&self) -> (r: Vec<&FileEntry>)
        ensures
            entry_ref_views(r@) == files_of(self@),
    {
        let ghost all = entry_views(self.file_entries@);
        let mut r: Vec<&FileEntry> = Vec::new();
        let mut i: usize = 0;
        while i < self.file_entries.len()
            invariant
                all == entry_views(self.file_entries@),
                i <= self.file_entries@.len(),
                entry_ref_views(r@) == all.subrange(0, i as int).filter(|e: EntryView| is_file_entry(e)),
            decreases self.file_entries@.len() - i,
        {
            let e = &self.file_entries[i];
            proof {
                assert(all.subrange(0, i + 1) =~= all.subrange(0, i as int).push(e@));
                lemma_filter_push(all.subrange(0, i as int), e@, |e: EntryView| is_file_entry(e));
            }
            let ghost before = r@;
            if e.is_file() {
                r.push(e);
                assert(entry_ref_views(r@) =~= entry_ref_views(before).push(e@));
            }
            i = i + 1;
        }
        assert(all.subrange(0, i as int) =~= all);
        r
    }

    /// The entries that are directories, in order.
    pub fn directories(&self) -> (r: Vec<&FileEntry>)
        ensures
            entry_ref_views(r@) == dirs_of(self@),
    {
        let ghost all = entry_views(self.file_entries@);
        let mut r: Vec<&FileEntry> = Vec::new();
        let mut i: usize = 0;
        while i < self.file_entries.len()
            invariant
                all == entry_views(self.file_entries@),
                i <= self.file_entries@.len(),
                entry_ref_views(r@) == all.subrange(0, i as int).filter(|e: EntryView| is_dir_entry(e)),
            decreases self.file_entries@.len() - i,
        {
            let e = &self.file_entries[i];
            proof {
                assert(all.subrange(0, i + 1) =~= all.subrange(0, i as int).push(e@));
                lemma_filter_push(all.subrange(0, i as int), e@, |e: EntryView| is_dir_entry(e));
            }
            let ghost before = r@;
            if e.is_directory() {
                r.push(e);
                assert(entry_ref_views(r@) =~= entry_ref_views(before).push(e@));
            }
            i = i + 1;
        }
        assert(all.subrange(0, i as int) =~= all);
        r
    }

    /// The files whose extension is `ext`, in order.
    pub fn files_with_extension(&self, ext: &str) -> (r: Vec<&FileEntry>)
        ensures
            entry_ref_views(r@) == files_with_ext(self@, ext@),
    {
        let ghost all = entry_views(self.file_entries@);
        let mut r: Vec<&FileEntry> = Vec::new();
        let mut i: usize = 0;
        while i < self.file_entries.len()
            invariant
                all == entry_views(self.file_entries@),
                i <= self.file_entries@.len(),
                entry_ref_views(r@) == all.subrange(0, i as int).filter(|e: EntryView| has_extension(e, ext@)),
            decreases self.file_entries@.len() - i,
        {
            let e = &self.file_entries[i];
            proof {
                assert(all.subrange(0, i + 1) =~= all.subrange(0, i as int).push(e@));
                lemma_filter_push(all.subrange(0, i as int), e@, |e: EntryView| has_extension(e, ext@));
            }
            let keep = e.is_file() && match e.extension() {
                Some(x) => same_text(x.as_str(), ext),
                None => false,
            };
            let ghost before = r@;
            if keep {
                r.push(e);
                assert(entry_ref_views(r@) =~= entry_ref_views(before).push(e@));
            }
            i = i + 1;
        }
        assert(all.subrange(0, i as int) =~= all);
        r
    }
}

} // verus!

//! The entry model: one filesystem object as it appears in a listing.
//!
//! A [`RawEntry`] is what the embedding reads from the filesystem for one
//! child of a directory: the raw name, the full path, the directory flag, the
//! already-resolved hidden flag (platform conventions differ; the explorer
//! treats hidden-ness as a plain boolean), and the file kind when metadata
//! was obtainable. A [`File`] is what a listing holds: the same data with the
//! display name decorated (directories carry a trailing `/`), or the
//! synthetic parent entry.

use vstd::prelude::*;
use vstd::string::StrSliceExecFns;

verus! {

/// Classification of a filesystem object, as read from its metadata.
#[derive(Debug, Clone, Copy, PartialEq, Eq, Hash, Structural)]
pub enum FileKind {
    /// A regular file.
    Regular,
    /// A directory.
    Directory,
    /// A symbolic link.
    Symlink,
    /// Anything else (socket, device, ...).
    Other,
}

/// One child of a directory, as the embedding read it from the filesystem.
#[derive(Debug, Clone)]
pub struct RawEntry {
    /// The file name, without any separator suffix.
    pub name: String,
    /// The full path of the entry.
    pub path: String,
    /// Whether the entry is a directory.
    pub is_dir: bool,
    /// Whether the platform convention considers the entry hidden.
    pub is_hidden: bool,
    /// The kind of the entry, when metadata was obtainable.
    pub file_type: Option<FileKind>,
}

/// The mathematical value of a [`RawEntry`].
pub struct RawView {
    /// The file name.
    pub name: Seq<char>,
    /// The full path.
    pub path: Seq<char>,
    /// Whether the entry is a directory.
    pub is_dir: bool,
    /// Whether the entry is hidden.
    pub is_hidden: bool,
    /// The kind of the entry.
    pub file_type: Option<FileKind>,
}

impl View for RawEntry {
    type V = RawView;

    open spec fn view(&self) -> RawView {
        RawView {
            name: self.name@,
            path: self.path@,
            is_dir: self.is_dir,
            is_hidden: self.is_hidden,
            file_type: self.file_type,
        }
    }
}

impl DeepView for RawEntry {
    type V = RawView;

    open spec fn deep_view(&self) -> RawView {
        self.view()
    }
}

/// A file or directory shown in the file explorer.
#[derive(Debug, Clone, PartialEq, Eq, Hash)]
pub struct File {
    name: String,
    path: String,
    is_dir: bool,
    is_hidden: bool,
    file_type: Option<FileKind>,
}

/// The mathematical value of a [`File`]: the display name (directories carry
/// a trailing `/`), the path, the flags, and the optional kind.
pub struct FileView {
    /// The display name.
    pub name: Seq<char>,
    /// The full path.
    pub path: Seq<char>,
    /// Whether the entry is a directory.
    pub is_dir: bool,
    /// Whether the entry is hidden.
    pub is_hidden: bool,
    /// The kind of the entry.
    pub file_type: Option<FileKind>,
}

impl View for File {
    type V = FileView;

    closed spec fn view(&self) -> FileView {
        FileView {
            name: self.name@,
            path: self.path@,
            is_dir: self.is_dir,
            is_hidden: self.is_hidden,
            file_type: self.file_type,
        }
    }
}

impl DeepView for File {
    type V = FileView;

    open spec fn deep_view(&self) -> FileView {
        self.view()
    }
}

impl File {
    /// Assemble a listing entry from its parts.
    pub(crate) fn make(
        name: String,
        path: String,
        is_dir: bool,
        is_hidden: bool,
        file_type: Option<FileKind>,
    ) -> (r: File)
        ensures
            r@ == (FileView { name: name@, path: path@, is_dir, is_hidden, file_type }),
    {
        File { name, path, is_dir, is_hidden, file_type }
    }

    /// The display name of the entry; directories carry a trailing `/`.
    pub fn name(&self) -> (r: &str)
        ensures
            r@ == self@.name,
    {
        self.name.as_str()
    }

    /// The path of the entry.
    pub fn path(&self) -> (r: &String)
        ensures
            r@ == self@.path,
    {
        &self.path
    }

    /// Whether the entry is a directory.
    pub fn is_dir(&self) -> (r: bool)
        ensures
            r == self@.is_dir,
    {
        self.is_dir
    }

    /// Whether the entry is a regular file.
    pub fn is_file(&self) -> (r: bool)
        ensures
            r == (self@.file_type == Some(FileKind::Regular)),
    {
        match self.file_type {
            Some(FileKind::Regular) => true,
            _ => false,
        }
    }

    /// Whether the entry is hidden.
    pub fn is_hidden(&self) -> (r: bool)
        ensures
            r == self@.is_hidden,
    {
        self.is_hidden
    }

    /// The kind of the entry, when it is known.
    pub fn file_type(&self) -> (r: Option<FileKind>)
        ensures
            r == self@.file_type,
    {
        self.file_type
    }
}

/// Whether a name is hidden by the leading-dot convention.
pub fn name_is_hidden(name: &str) -> (r: bool)
    ensures
        r == (name@.len() > 0 && name@[0] == '.'),
{
    if name.unicode_len() == 0 {
        false
    } else {
        name.get_char(0) == '.'
    }
}

/// The display name of the synthetic parent entry.
pub open spec fn parent_name() -> Seq<char> {
    "../"@
}

/// The synthetic parent entry for a given parent path: named with the
/// parent-reference token, a directory, never hidden, no file kind.
pub open spec fn parent_entry(p: Seq<char>) -> FileView {
    FileView { name: parent_name(), path: p, is_dir: true, is_hidden: false, file_type: None }
}

/// What a raw child becomes in a listing: directories get the trailing
/// separator appended to their display name; everything else carries over.
pub open spec fn decorate(c: RawView) -> FileView {
    FileView {
        name: if c.is_dir {
            c.name + "/"@
        } else {
            c.name
        },
        path: c.path,
        is_dir: c.is_dir,
        is_hidden: c.is_hidden,
        file_type: c.file_type,
    }
}

} // verus!

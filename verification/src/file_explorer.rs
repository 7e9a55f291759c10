//! The explorer state machine.
//!
//! A [`FileExplorer`] owns the current directory, its listing, the selection
//! index, the hidden-file visibility flag, and the active theme. Navigation
//! commands that move within the current listing are applied directly.
//! Commands that change the directory or the visibility flag do not touch the
//! state: they return a [`ListRequest`] naming the directory to read, and the
//! embedding commits the raw children with [`FileExplorer::apply_listing`].
//! A failed read is committed as an error value, and the state is then left
//! exactly as it was — no transition ever leaves a partial update behind.

use vstd::prelude::*;

use crate::file::File;
use crate::file::FileView;
use crate::file::RawEntry;
use crate::input::Input;
use crate::listing::build_listing;
use crate::listing::is_listing_of;
use crate::listing::lemma_listing_of_wf;
use crate::listing::listing_wf;
use crate::paths::parent_of;
use crate::paths::parent_path_of;
use crate::widget::default_theme_shape;
use crate::widget::Theme;

verus! {

/// How many entries one page scroll moves the selection.
pub const PAGE_SIZE: usize = 12;

/// Why a directory could not be listed.
#[derive(Debug, Clone, Copy, PartialEq, Eq, Hash, Structural)]
pub enum ListError {
    /// The directory does not exist.
    NotFound,
    /// The directory may not be read.
    PermissionDenied,
    /// Any other I/O failure.
    Other,
}

/// A request to list a directory: emitted by every transition that changes
/// the directory or the visibility flag, and committed with
/// [`FileExplorer::apply_listing`].
#[derive(Debug)]
pub struct ListRequest {
    /// The directory whose children are to be read.
    pub dir: String,
    /// The hidden-file visibility the new listing uses.
    pub show_hidden: bool,
}

/// The mathematical value of a [`ListRequest`].
pub struct RequestView {
    /// The directory to read.
    pub dir: Seq<char>,
    /// The visibility flag to apply.
    pub show_hidden: bool,
}

impl View for ListRequest {
    type V = RequestView;

    open spec fn view(&self) -> RequestView {
        RequestView { dir: self.dir@, show_hidden: self.show_hidden }
    }
}

impl DeepView for ListRequest {
    type V = RequestView;

    open spec fn deep_view(&self) -> RequestView {
        self.view()
    }
}

/// The mathematical value of a [`FileExplorer`], theme aside.
pub struct ExplorerView {
    /// The current directory path.
    pub cwd: Seq<char>,
    /// The entries of the current listing.
    pub entries: Seq<FileView>,
    /// The index of the selected entry.
    pub selected: int,
    /// Whether hidden files are shown.
    pub show_hidden: bool,
}

/// A file explorer: current directory, listing, selection, visibility flag,
/// and theme.
#[derive(Debug, Clone, PartialEq, Eq, Hash)]
pub struct FileExplorer {
    cwd: String,
    files: Vec<File>,
    show_hidden: bool,
    selected: usize,
    theme: Theme,
}

impl View for FileExplorer {
    type V = ExplorerView;

    closed spec fn view(&self) -> ExplorerView {
        ExplorerView {
            cwd: self.cwd@,
            entries: self.files.deep_view(),
            selected: self.selected as int,
            show_hidden: self.show_hidden,
        }
    }
}

/// Where the selection lands after a selection-moving command: up and down
/// wrap around the ends, home and end jump, page moves clamp. On an empty
/// listing every move leaves the selection alone.
pub open spec fn selection_after(input: Input, len: int, sel: int) -> int {
    if len == 0 {
        sel
    } else {
        match input {
            Input::Up => if sel == 0 {
                len - 1
            } else {
                sel - 1
            },
            Input::Down => if sel + 1 == len {
                0
            } else {
                sel + 1
            },
            Input::Home => 0,
            Input::End => len - 1,
            Input::PageUp => if sel >= PAGE_SIZE {
                sel - PAGE_SIZE
            } else {
                0
            },
            Input::PageDown => if sel + PAGE_SIZE < len {
                sel + PAGE_SIZE
            } else {
                len - 1
            },
            _ => sel,
        }
    }
}

/// The full transition relation of [`FileExplorer::handle`]: selection moves
/// change only the selection and request nothing; entering the parent (when
/// one exists), entering a selected directory, and toggling visibility leave
/// the state untouched and request the matching listing; everything else is
/// a no-op.
pub open spec fn handle_post(
    pre: ExplorerView,
    post: ExplorerView,
    input: Input,
    r: Option<RequestView>,
) -> bool {
    match input {
        Input::Up | Input::Down | Input::Home | Input::End | Input::PageUp | Input::PageDown => r
            is None && post == (ExplorerView {
            selected: selection_after(input, pre.entries.len() as int, pre.selected),
            ..pre
        }),
        Input::Left => post == pre && (match parent_path_of(pre.cwd) {
            Some(p) => r == Some(RequestView { dir: p, show_hidden: pre.show_hidden }),
            None => r is None,
        }),
        Input::Right => post == pre && if pre.entries.len() > 0 && pre.entries[pre.selected].is_dir {
            r == Some(
                RequestView {
                    dir: pre.entries[pre.selected].path,
                    show_hidden: pre.show_hidden,
                },
            )
        } else {
            r is None
        },
        Input::ToggleShowHidden => post == pre && r == Some(
            RequestView { dir: pre.cwd, show_hidden: !pre.show_hidden },
        ),
        Input::NoOp => post == pre && r is None,
    }
}

/// The selection invariant: a well-formed explorer with a non-empty listing
/// always selects a valid index.
pub proof fn lemma_selection_in_bounds(e: FileExplorer)
    requires
        e.wf(),
        e@.entries.len() > 0,
    ensures
        0 <= e@.selected < e@.entries.len(),
{
}

/// Moving up from the first entry wraps to the last; moving down from the
/// last entry wraps to the first.
pub proof fn lemma_move_wraps(len: int)
    requires
        len > 0,
    ensures
        selection_after(Input::Up, len, 0) == len - 1,
        selection_after(Input::Down, len, len - 1) == 0,
{
}

/// Page moves clamp and never wrap: a page up from an index below the page
/// size lands on the first entry, a page down within a page of the end lands
/// on the last, and either move stays in range.
pub proof fn lemma_page_clamps(len: int, sel: int)
    requires
        0 <= sel < len,
    ensures
        sel < PAGE_SIZE ==> selection_after(Input::PageUp, len, sel) == 0,
        sel + PAGE_SIZE >= len ==> selection_after(Input::PageDown, len, sel) == len - 1,
        0 <= selection_after(Input::PageUp, len, sel) <= sel,
        sel <= selection_after(Input::PageDown, len, sel) < len,
{
}

/// Entering a child is a no-op when the selected entry is not a directory:
/// the state is unchanged and no listing is requested.
pub proof fn lemma_enter_child_non_directory(
    pre: ExplorerView,
    post: ExplorerView,
    r: Option<RequestView>,
)
    requires
        handle_post(pre, post, Input::Right, r),
        pre.entries.len() > 0 ==> !pre.entries[pre.selected].is_dir,
    ensures
        post == pre,
        r is None,
{
}

/// Entering the parent is a no-op at a filesystem root: the state is
/// unchanged and no listing is requested.
pub proof fn lemma_enter_parent_at_root(
    pre: ExplorerView,
    post: ExplorerView,
    r: Option<RequestView>,
)
    requires
        handle_post(pre, post, Input::Left, r),
        parent_path_of(pre.cwd) is None,
    ensures
        post == pre,
        r is None,
{
}

/// Toggling hidden-file visibility requests a re-listing of the current
/// directory under the flipped flag; committing the request flips the flag
/// and resets the selection to the first entry.
pub proof fn lemma_toggle_requests_flip(
    pre: ExplorerView,
    post: ExplorerView,
    r: Option<RequestView>,
)
    requires
        handle_post(pre, post, Input::ToggleShowHidden, r),
    ensures
        post == pre,
        r is Some,
        r->0.dir == pre.cwd,
        r->0.show_hidden == !pre.show_hidden,
{
}

impl FileExplorer {
    /// The theme of this explorer.
    pub closed spec fn spec_theme(self) -> Theme {
        self.theme
    }

    /// The state invariant: the selection is a valid index whenever the
    /// listing is non-empty and pinned to zero when it is empty, and the
    /// listing has the documented shape for the current directory.
    pub open spec fn wf(self) -> bool {
        &&& self@.entries.len() > 0 ==> 0 <= self@.selected < self@.entries.len()
        &&& self@.entries.len() == 0 ==> self@.selected == 0
        &&& listing_wf(self@.cwd, self@.entries)
    }

    /// A new explorer at `cwd`, whose raw children the embedding has read:
    /// hidden files are not shown, the first entry is selected, and the
    /// theme is the default one.
    pub fn new(cwd: String, children: Vec<RawEntry>) -> (r: FileExplorer)
        ensures
            r.wf(),
            r@.cwd == cwd@,
            r@.show_hidden == false,
            r@.selected == 0,
            is_listing_of(r@.entries, cwd@, children.deep_view(), false),
            default_theme_shape(r.spec_theme()@),
    {
        Self::with_theme(cwd, children, Theme::default())
    }

    /// A new explorer at `cwd` with the given theme.
    pub fn with_theme(cwd: String, children: Vec<RawEntry>, theme: Theme) -> (r: FileExplorer)
        ensures
            r.wf(),
            r@.cwd == cwd@,
            r@.show_hidden == false,
            r@.selected == 0,
            is_listing_of(r@.entries, cwd@, children.deep_view(), false),
            r.spec_theme() == theme,
    {
        let ghost children_view = children.deep_view();
        let files = build_listing(cwd.as_str(), children, false);
        let r = FileExplorer { cwd, files, show_hidden: false, selected: 0, theme };
        proof {
            lemma_listing_of_wf(r@.entries, r@.cwd, children_view, false);
        }
        r
    }

    /// Apply one navigation command. Selection moves are applied in place;
    /// a command that needs a new listing returns the request and changes
    /// nothing until the listing is committed with `apply_listing`.
    pub fn handle(&mut self, input: Input) -> (r: Option<ListRequest>)
        requires
            old(self).wf(),
        ensures
            final(self).wf(),
            final(self).spec_theme() == old(self).spec_theme(),
            handle_post(old(self)@, final(self)@, input, r.deep_view()),
    {
        match input {
            Input::Up => {
                if self.files.len() > 0 {
                    if self.selected == 0 {
                        self.selected = self.files.len() - 1;
                    } else {
                        self.selected = self.selected - 1;
                    }
                }
                None
            },
            Input::Down => {
                if self.files.len() > 0 {
                    if self.selected + 1 == self.files.len() {
                        self.selected = 0;
                    } else {
                        self.selected = self.selected + 1;
                    }
                }
                None
            },
            Input::Home => {
                if self.files.len() > 0 {
                    self.selected = 0;
                }
                None
            },
            Input::End => {
                if self.files.len() > 0 {
                    self.selected = self.files.len() - 1;
                }
                None
            },
            Input::PageUp => {
                if self.files.len() > 0 {
                    if self.selected >= PAGE_SIZE {
                        self.selected = self.selected - PAGE_SIZE;
                    } else {
                        self.selected = 0;
                    }
                }
                None
            },
            Input::PageDown => {
                if self.files.len() > 0 {
                    let last = self.files.len() - 1;
                    if PAGE_SIZE < last - self.selected {
                        self.selected = self.selected + PAGE_SIZE;
                    } else {
                        self.selected = last;
                    }
                }
                None
            },
            Input::Left => {
                let parent = parent_of(self.cwd.as_str());
                match parent {
                    Some(p) => Some(ListRequest { dir: p, show_hidden: self.show_hidden }),
                    None => None,
                }
            },
            Input::Right => {
                if self.files.len() > 0 {
                    let f = &self.files[self.selected];
                    proof {
                        assert(self.files.deep_view()[self.selected as int]
                            == self.files@[self.selected as int]@);
                    }
                    if f.is_dir() {
                        Some(ListRequest { dir: f.path().clone(), show_hidden: self.show_hidden })
                    } else {
                        None
                    }
                } else {
                    None
                }
            },
            Input::ToggleShowHidden => Some(
                ListRequest { dir: self.cwd.clone(), show_hidden: !self.show_hidden },
            ),
            Input::NoOp => None,
        }
    }

    /// Commit the outcome of reading the directory a request named. On
    /// success the directory, visibility flag and listing are replaced
    /// together and the selection resets to the first entry; on failure the
    /// error is returned and the state is exactly what it was.
    pub fn apply_listing(
        &mut self,
        request: ListRequest,
        outcome: Result<Vec<RawEntry>, ListError>,
    ) -> (r: Result<(), ListError>)
        requires
            old(self).wf(),
        ensures
            final(self).wf(),
            final(self).spec_theme() == old(self).spec_theme(),
            match outcome {
                Ok(children) => {
                    &&& r is Ok
                    &&& final(self)@.cwd == request@.dir
                    &&& final(self)@.show_hidden == request@.show_hidden
                    &&& final(self)@.selected == 0
                    &&& is_listing_of(
                        final(self)@.entries,
                        request@.dir,
                        children.deep_view(),
                        request@.show_hidden,
                    )
                },
                Err(e) => r is Err && r->Err_0 == e && final(self)@ == old(self)@,
            },
    {
        match outcome {
            Ok(children) => {
                let ghost children_view = children.deep_view();
                let files = build_listing(request.dir.as_str(), children, request.show_hidden);
                self.files = files;
                self.cwd = request.dir;
                self.show_hidden = request.show_hidden;
                self.selected = 0;
                proof {
                    lemma_listing_of_wf(self@.entries, self@.cwd, children_view, self@.show_hidden);
                }
                Ok(())
            },
            Err(e) => Err(e),
        }
    }

    /// Request an explicit change of the current directory; commit it with
    /// `apply_listing`.
    pub fn set_cwd(&self, cwd: String) -> (r: ListRequest)
        ensures
            r@.dir == cwd@,
            r@.show_hidden == self@.show_hidden,
    {
        ListRequest { dir: cwd, show_hidden: self.show_hidden }
    }

    /// Request an explicit change of the hidden-file visibility; commit it
    /// with `apply_listing`.
    pub fn set_show_hidden(&self, show_hidden: bool) -> (r: ListRequest)
        ensures
            r@.dir == self@.cwd,
            r@.show_hidden == show_hidden,
    {
        ListRequest { dir: self.cwd.clone(), show_hidden }
    }

    /// Replace the theme; navigation state is untouched.
    pub fn set_theme(&mut self, theme: Theme)
        ensures
            final(self)@ == old(self)@,
            final(self).spec_theme() == theme,
    {
        self.theme = theme;
    }

    /// Select the entry at `selected`. The index must be in range: passing
    /// an out-of-range index is a contract violation, not a recoverable
    /// error.
    pub fn set_selected_idx(&mut self, selected: usize)
        requires
            old(self).wf(),
            selected < old(self)@.entries.len(),
        ensures
            final(self).wf(),
            final(self).spec_theme() == old(self).spec_theme(),
            final(self)@ == (ExplorerView { selected: selected as int, ..old(self)@ }),
    {
        self.selected = selected;
    }

    /// The selected entry.
    pub fn current(&self) -> (r: &File)
        requires
            self.wf(),
            self@.entries.len() > 0,
        ensures
            r@ == self@.entries[self@.selected],
    {
        let f = &self.files[self.selected];
        proof {
            assert(self.files.deep_view()[self.selected as int]
                == self.files@[self.selected as int]@);
        }
        f
    }

    /// The current directory.
    pub fn cwd(&self) -> (r: &String)
        ensures
            r@ == self@.cwd,
    {
        &self.cwd
    }

    /// Whether hidden files are currently shown.
    pub fn show_hidden(&self) -> (r: bool)
        ensures
            r == self@.show_hidden,
    {
        self.show_hidden
    }

    /// The entries of the current listing.
    pub fn files(&self) -> (r: &Vec<File>)
        ensures
            r.deep_view() == self@.entries,
    {
        &self.files
    }

    /// The index of the selected entry.
    pub fn selected_idx(&self) -> (r: usize)
        ensures
            r as int == self@.selected,
    {
        self.selected
    }

    /// The active theme.
    pub fn theme(&self) -> (r: &Theme)
        ensures
            *r == self.spec_theme(),
    {
        &self.theme
    }
}

} // verus!

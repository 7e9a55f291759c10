//! The theme and the render projection.
//!
//! A [`Theme`] is an immutable bundle of style values, an optional wrapping
//! block, an optional highlight symbol, a highlight-spacing policy, and two
//! ordered lists of title generators. Builders consume the theme and return
//! the updated value; nothing is shared or mutated in place. The contracts
//! track every field of the bundle through construction and into the
//! rendered list.

use ratatui::style::Color;
use ratatui::style::Style;
use ratatui::widgets::Block;
use ratatui::widgets::HighlightSpacing;
use vstd::prelude::*;

use crate::file_explorer::ExplorerView;
use crate::file_explorer::FileExplorer;
use crate::style::bordered_block;
use crate::style::no_colors;
use crate::style::style_bg;
use crate::style::style_fg;
use crate::style::style_new;

verus! {

/// A title generator: one rule for computing a title line from the current
/// explorer state at render time.
#[derive(Debug, Clone, PartialEq, Eq, Hash)]
pub enum TitleGen {
    /// The current working directory path.
    CurrentDir,
    /// A fixed text.
    Text(String),
    /// A fixed, pre-styled line with its own alignment, supplied by the
    /// embedding and carried through unchanged.
    Styled(ratatui::text::Line<'static>),
}

/// One generated title: plain text computed from the explorer state, or a
/// pre-styled line carried through unchanged.
#[derive(Debug, Clone, PartialEq, Eq, Hash)]
pub enum TitleLine {
    /// A plain text title.
    Text(String),
    /// A pre-styled line.
    Styled(ratatui::text::Line<'static>),
}

/// The mathematical value of a [`Theme`].
pub struct ThemeView {
    /// The wrapping block, if any.
    pub block: Option<Block<'static>>,
    /// The top title generators, in the order added.
    pub title_top: Seq<TitleGen>,
    /// The bottom title generators, in the order added.
    pub title_bottom: Seq<TitleGen>,
    /// The base style of the widget.
    pub style: Style,
    /// The style of non-directory entries.
    pub item_style: Style,
    /// The style of directory entries.
    pub dir_style: Style,
    /// The highlight-spacing policy.
    pub highlight_spacing: HighlightSpacing,
    /// The style of the selected entry when it is not a directory.
    pub highlight_item_style: Style,
    /// The style of the selected entry when it is a directory.
    pub highlight_dir_style: Style,
    /// The symbol drawn in front of the selected entry, if any.
    pub highlight_symbol: Option<Seq<char>>,
}

/// The theme of the file explorer: how entries, the selection, and the
/// optional wrapping block are styled, and which titles the block carries.
#[derive(Debug, Clone, PartialEq, Eq, Hash)]
pub struct Theme {
    block: Option<Block<'static>>,
    title_top: Vec<TitleGen>,
    title_bottom: Vec<TitleGen>,
    style: Style,
    item_style: Style,
    dir_style: Style,
    highlight_spacing: HighlightSpacing,
    highlight_item_style: Style,
    highlight_dir_style: Style,
    highlight_symbol: Option<String>,
}

impl View for Theme {
    type V = ThemeView;

    closed spec fn view(&self) -> ThemeView {
        ThemeView {
            block: self.block,
            title_top: self.title_top@,
            title_bottom: self.title_bottom@,
            style: self.style,
            item_style: self.item_style,
            dir_style: self.dir_style,
            highlight_spacing: self.highlight_spacing,
            highlight_item_style: self.highlight_item_style,
            highlight_dir_style: self.highlight_dir_style,
            highlight_symbol: match self.highlight_symbol {
                Some(s) => Some(s@),
                None => None,
            },
        }
    }
}

impl Theme {
    /// A new, empty theme: no block, no titles, no colors in any style, no
    /// highlight symbol, highlight spacing only when an entry is selected.
    pub fn new() -> (r: Theme)
        ensures
            r@.block is None,
            r@.title_top.len() == 0,
            r@.title_bottom.len() == 0,
            r@.highlight_symbol is None,
            r@.highlight_spacing == HighlightSpacing::WhenSelected,
            no_colors(r@.style),
            no_colors(r@.item_style),
            no_colors(r@.dir_style),
            no_colors(r@.highlight_item_style),
            no_colors(r@.highlight_dir_style),
    {
        Theme {
            block: None,
            title_top: Vec::new(),
            title_bottom: Vec::new(),
            style: style_new(),
            item_style: style_new(),
            dir_style: style_new(),
            highlight_spacing: HighlightSpacing::WhenSelected,
            highlight_item_style: style_new(),
            highlight_dir_style: style_new(),
            highlight_symbol: None,
        }
    }

    /// Add the default top title: the current working directory.
    pub fn add_default_title(self) -> (r: Theme)
        ensures
            r@ == (ThemeView { title_top: self@.title_top.push(TitleGen::CurrentDir), ..self@ }),
    {
        self.with_title_top(TitleGen::CurrentDir)
    }

    /// Wrap the file explorer in the given block.
    pub fn with_block(self, block: Block<'static>) -> (r: Theme)
        ensures
            r@ == (ThemeView { block: Some(block), ..self@ }),
    {
        Theme { block: Some(block), ..self }
    }

    /// Set the base style of the widget.
    pub fn with_style(self, style: Style) -> (r: Theme)
        ensures
            r@ == (ThemeView { style: style, ..self@ }),
    {
        Theme { style, ..self }
    }

    /// Set the style of non-directory entries.
    pub fn with_item_style(self, item_style: Style) -> (r: Theme)
        ensures
            r@ == (ThemeView { item_style: item_style, ..self@ }),
    {
        Theme { item_style, ..self }
    }

    /// Set the style of directory entries.
    pub fn with_dir_style(self, dir_style: Style) -> (r: Theme)
        ensures
            r@ == (ThemeView { dir_style: dir_style, ..self@ }),
    {
        Theme { dir_style, ..self }
    }

    /// Set the style of the selected entry when it is not a directory.
    pub fn with_highlight_item_style(self, highlight_item_style: Style) -> (r: Theme)
        ensures
            r@ == (ThemeView { highlight_item_style: highlight_item_style, ..self@ }),
    {
        Theme { highlight_item_style, ..self }
    }

    /// Set the style of the selected entry when it is a directory.
    pub fn with_highlight_dir_style(self, highlight_dir_style: Style) -> (r: Theme)
        ensures
            r@ == (ThemeView { highlight_dir_style: highlight_dir_style, ..self@ }),
    {
        Theme { highlight_dir_style, ..self }
    }

    /// Set the symbol drawn in front of the selected entry.
    pub fn with_highlight_symbol(self, highlight_symbol: &str) -> (r: Theme)
        ensures
            r@ == (ThemeView { highlight_symbol: Some(highlight_symbol@), ..self@ }),
    {
        Theme { highlight_symbol: Some(highlight_symbol.to_owned()), ..self }
    }

    /// Set the highlight-spacing policy.
    pub fn with_highlight_spacing(self, highlight_spacing: HighlightSpacing) -> (r: Theme)
        ensures
            r@ == (ThemeView { highlight_spacing: highlight_spacing, ..self@ }),
    {
        Theme { highlight_spacing, ..self }
    }

    /// Add a top title generator; titles appear in the order added.
    pub fn with_title_top(self, title_top: TitleGen) -> (r: Theme)
        ensures
            r@ == (ThemeView { title_top: self@.title_top.push(title_top), ..self@ }),
    {
        let mut t = self;
        t.title_top.push(title_top);
        t
    }

    /// Add a bottom title generator; titles appear in the order added.
    pub fn with_title_bottom(self, title_bottom: TitleGen) -> (r: Theme)
        ensures
            r@ == (ThemeView { title_bottom: self@.title_bottom.push(title_bottom), ..self@ }),
    {
        let mut t = self;
        t.title_bottom.push(title_bottom);
        t
    }

    /// The wrapping block, if any.
    pub fn block(&self) -> (r: Option<&Block<'static>>)
        ensures
            r is Some <==> self@.block is Some,
            r is Some ==> *r->0 == self@.block->0,
    {
        self.block.as_ref()
    }

    /// The base style of the widget.
    pub fn style(&self) -> (r: &Style)
        ensures
            *r == self@.style,
    {
        &self.style
    }

    /// The style of non-directory entries.
    pub fn item_style(&self) -> (r: &Style)
        ensures
            *r == self@.item_style,
    {
        &self.item_style
    }

    /// The style of directory entries.
    pub fn dir_style(&self) -> (r: &Style)
        ensures
            *r == self@.dir_style,
    {
        &self.dir_style
    }

    /// The style of the selected entry when it is not a directory.
    pub fn highlight_item_style(&self) -> (r: &Style)
        ensures
            *r == self@.highlight_item_style,
    {
        &self.highlight_item_style
    }

    /// The style of the selected entry when it is a directory.
    pub fn highlight_dir_style(&self) -> (r: &Style)
        ensures
            *r == self@.highlight_dir_style,
    {
        &self.highlight_dir_style
    }

    /// The symbol drawn in front of the selected entry, if any.
    pub fn highlight_symbol(&self) -> (r: Option<&str>)
        ensures
            r is Some <==> self@.highlight_symbol is Some,
            r is Some ==> r->0@ == self@.highlight_symbol->0,
    {
        match &self.highlight_symbol {
            Some(s) => Some(s.as_str()),
            None => None,
        }
    }

    /// The highlight-spacing policy.
    pub fn highlight_spacing(&self) -> (r: &HighlightSpacing)
        ensures
            *r == self@.highlight_spacing,
    {
        &self.highlight_spacing
    }
}

/// The title a generator produces for a given explorer state: the current
/// directory and fixed texts become plain text titles, a pre-styled line is
/// carried through unchanged.
pub open spec fn title_matches(g: TitleGen, v: ExplorerView, t: TitleLine) -> bool {
    match g {
        TitleGen::CurrentDir => t matches TitleLine::Text(s) && s@ == v.cwd,
        TitleGen::Text(x) => t matches TitleLine::Text(s) && s@ == x@,
        TitleGen::Styled(l) => t matches TitleLine::Styled(m) && m == l,
    }
}

impl TitleGen {
    /// Produce the title line for the current explorer state.
    pub fn generate(&self, explorer: &FileExplorer) -> (r: TitleLine)
        ensures
            title_matches(*self, explorer@, r),
    {
        match self {
            TitleGen::CurrentDir => TitleLine::Text(explorer.cwd().clone()),
            TitleGen::Text(s) => TitleLine::Text(s.clone()),
            TitleGen::Styled(l) => TitleLine::Styled(l.clone()),
        }
    }
}

impl Theme {
    /// The top titles generated for the current explorer state, in the order
    /// their generators were added.
    pub fn title_top(&self, explorer: &FileExplorer) -> (r: Vec<TitleLine>)
        ensures
            r@.len() == self@.title_top.len(),
            forall|i: int|
                0 <= i < r@.len() ==> #[trigger] title_matches(
                    self@.title_top[i],
                    explorer@,
                    r@[i],
                ),
    {
        generate_titles(&self.title_top, explorer)
    }

    /// The bottom titles generated for the current explorer state, in the
    /// order their generators were added.
    pub fn title_bottom(&self, explorer: &FileExplorer) -> (r: Vec<TitleLine>)
        ensures
            r@.len() == self@.title_bottom.len(),
            forall|i: int|
                0 <= i < r@.len() ==> #[trigger] title_matches(
                    self@.title_bottom[i],
                    explorer@,
                    r@[i],
                ),
    {
        generate_titles(&self.title_bottom, explorer)
    }
}

/// Run every generator of one title list on the current explorer state.
fn generate_titles(gens: &Vec<TitleGen>, explorer: &FileExplorer) -> (r: Vec<TitleLine>)
    ensures
        r@.len() == gens@.len(),
        forall|i: int|
            0 <= i < r@.len() ==> #[trigger] title_matches(gens@[i], explorer@, r@[i]),
{
    let mut out: Vec<TitleLine> = Vec::new();
    let mut i: usize = 0;
    while i < gens.len()
        invariant
            i <= gens@.len(),
            out@.len() == i,
            forall|k: int| 0 <= k < i ==> #[trigger] title_matches(gens@[k], explorer@, out@[k]),
        decreases gens@.len() - i,
    {
        let t = gens[i].generate(explorer);
        out.push(t);
        i = i + 1;
    }
    out
}

/// One renderable line: the display text of an entry and the style chosen
/// for it.
#[derive(Debug)]
pub struct StyledLine {
    /// The text of the line.
    pub text: String,
    /// The style of the line.
    pub style: Style,
}

/// The renderable projection of an explorer: everything a terminal list
/// widget needs — styled lines, the selection, highlight styling, and the
/// optional wrapping block with its generated titles.
#[derive(Debug)]
pub struct ListView {
    /// One styled line per entry, in listing order.
    pub items: Vec<StyledLine>,
    /// The selected index; `None` when the listing is empty.
    pub selected: Option<usize>,
    /// The base style of the widget.
    pub style: Style,
    /// The style of the selected line.
    pub highlight_style: Style,
    /// The symbol drawn in front of the selected line, if any.
    pub highlight_symbol: Option<String>,
    /// The highlight-spacing policy.
    pub highlight_spacing: HighlightSpacing,
    /// The wrapping block, if the theme carries one.
    pub block: Option<Block<'static>>,
    /// The generated top titles, in order.
    pub top_titles: Vec<TitleLine>,
    /// The generated bottom titles, in order.
    pub bottom_titles: Vec<TitleLine>,
}

/// The full contract of rendering: which text and style every line carries,
/// where the highlight sits, and how the theme's bundle is carried over.
pub open spec fn render_post(v: ExplorerView, t: ThemeView, r: ListView) -> bool {
    &&& r.items@.len() == v.entries.len()
    &&& forall|i: int|
        0 <= i < v.entries.len() ==> #[trigger] r.items@[i].text@ == v.entries[i].name
            && r.items@[i].style == (if v.entries[i].is_dir {
            t.dir_style
        } else {
            t.item_style
        })
    &&& if v.entries.len() > 0 {
        r.selected == Some(v.selected as usize)
    } else {
        r.selected is None
    }
    &&& r.style == t.style
    &&& r.highlight_style == (if v.entries.len() > 0 && v.entries[v.selected].is_dir {
        t.highlight_dir_style
    } else {
        t.highlight_item_style
    })
    &&& match t.highlight_symbol {
        Some(s) => r.highlight_symbol is Some && r.highlight_symbol->0@ == s,
        None => r.highlight_symbol is None,
    }
    &&& r.highlight_spacing == t.highlight_spacing
    &&& match t.block {
        Some(b) => r.block == Some(b),
        None => r.block is None,
    }
    &&& r.top_titles@.len() == t.title_top.len()
    &&& forall|i: int|
        0 <= i < t.title_top.len() ==> #[trigger] title_matches(
            t.title_top[i],
            v,
            r.top_titles@[i],
        )
    &&& r.bottom_titles@.len() == t.title_bottom.len()
    &&& forall|i: int|
        0 <= i < t.title_bottom.len() ==> #[trigger] title_matches(
            t.title_bottom[i],
            v,
            r.bottom_titles@[i],
        )
}

/// The stateless renderer: borrows an explorer and projects it, together
/// with its theme, into a renderable list.
pub struct Renderer<'a>(pub(crate) &'a FileExplorer);

impl<'a> Renderer<'a> {
    /// The explorer this renderer reads.
    pub closed spec fn spec_explorer(&self) -> FileExplorer {
        *self.0
    }

    /// Project the explorer state and theme into a renderable list. A pure
    /// projection: it never fails and changes nothing.
    pub fn render(&self) -> (r: ListView)
        requires
            self.spec_explorer().wf(),
        ensures
            render_post(self.spec_explorer()@, self.spec_explorer().spec_theme()@, r),
    {
        let fe = self.0;
        let files = fe.files();
        let theme = fe.theme();
        let mut items: Vec<StyledLine> = Vec::new();
        let mut i: usize = 0;
        while i < files.len()
            invariant
                fe.wf(),
                files.deep_view() == fe@.entries,
                *theme == fe.spec_theme(),
                i <= files@.len(),
                items@.len() == i,
                forall|k: int|
                    0 <= k < i ==> #[trigger] items@[k].text@ == fe@.entries[k].name
                        && items@[k].style == (if fe@.entries[k].is_dir {
                        fe.spec_theme()@.dir_style
                    } else {
                        fe.spec_theme()@.item_style
                    }),
            decreases files@.len() - i,
        {
            let f = &files[i];
            proof {
                assert(files.deep_view()[i as int] == files@[i as int]@);
            }
            let style = if f.is_dir() {
                *theme.dir_style()
            } else {
                *theme.item_style()
            };
            let text = f.name().to_owned();
            let line = StyledLine { text, style };
            let ghost pre = items@;
            let ghost line_val = line;
            items.push(line);
            proof {
                assert(items@ == pre.push(line_val));
                assert forall|k: int| 0 <= k < i + 1 implies #[trigger] items@[k].text@
                    == fe@.entries[k].name && items@[k].style == (if fe@.entries[k].is_dir {
                    fe.spec_theme()@.dir_style
                } else {
                    fe.spec_theme()@.item_style
                }) by {
                    if k < i {
                        assert(items@[k] == pre[k]);
                    } else {
                        assert(k == i);
                        assert(items@[k] == line_val);
                        assert(fe@.entries[k] == f@);
                        assert(items@[k].text@ == fe@.entries[k].name);
                        assert(items@[k].style == (if fe@.entries[k].is_dir {
                            fe.spec_theme()@.dir_style
                        } else {
                            fe.spec_theme()@.item_style
                        }));
                    }
                }
            }
            i = i + 1;
        }
        let selected = if files.len() > 0 {
            Some(fe.selected_idx())
        } else {
            None
        };
        let highlight_style = if files.len() > 0 {
            let cur = fe.current();
            if cur.is_dir() {
                *theme.highlight_dir_style()
            } else {
                *theme.highlight_item_style()
            }
        } else {
            *theme.highlight_item_style()
        };
        let highlight_symbol = match theme.highlight_symbol() {
            Some(s) => Some(s.to_owned()),
            None => None,
        };
        let block = match theme.block() {
            Some(b) => Some(b.clone()),
            None => None,
        };
        ListView {
            items,
            selected,
            style: *theme.style(),
            highlight_style,
            highlight_symbol,
            highlight_spacing: theme.highlight_spacing().clone(),
            block,
            top_titles: theme.title_top(fe),
            bottom_titles: theme.title_bottom(fe),
        }
    }
}

impl FileExplorer {
    /// A renderer over this explorer; project it with [`Renderer::render`].
    pub fn widget(&self) -> (r: Renderer<'_>)
        ensures
            r.spec_explorer() == *self,
    {
        Renderer(self)
    }
}

/// The default preset, as far as it is statable: a wrapping block, no
/// titles, no highlight symbol, an always-visible highlight column, an
/// unstyled base, white non-directory entries, light-blue directories, and
/// the same two colors on a dark-gray background for the selected entry.
/// (The modifier bits and the block's bordered-ness stay unstated: those
/// types keep private fields and are opaque here.)
pub open spec fn default_theme_shape(t: ThemeView) -> bool {
    &&& t.block is Some
    &&& t.title_top.len() == 0
    &&& t.title_bottom.len() == 0
    &&& t.highlight_symbol is None
    &&& t.highlight_spacing == HighlightSpacing::Always
    &&& no_colors(t.style)
    &&& t.item_style.fg == Some(Color::White)
    &&& t.item_style.bg is None
    &&& t.dir_style.fg == Some(Color::LightBlue)
    &&& t.dir_style.bg is None
    &&& t.highlight_item_style.fg == Some(Color::White)
    &&& t.highlight_item_style.bg == Some(Color::DarkGray)
    &&& t.highlight_dir_style.fg == Some(Color::LightBlue)
    &&& t.highlight_dir_style.bg == Some(Color::DarkGray)
}

impl Default for Theme {
    /// The default theme: a bordered block, distinct colors for directory
    /// and non-directory entries, an always-visible highlight column, no
    /// titles and no highlight symbol.
    fn default() -> (r: Theme)
        ensures
            default_theme_shape(r@),
    {
        Theme {
            block: Some(bordered_block()),
            title_top: Vec::new(),
            title_bottom: Vec::new(),
            style: style_new(),
            item_style: style_fg(style_new(), Color::White),
            dir_style: style_fg(style_new(), Color::LightBlue),
            highlight_spacing: HighlightSpacing::Always,
            highlight_item_style: style_bg(style_fg(style_new(), Color::White), Color::DarkGray),
            highlight_dir_style: style_bg(
                style_fg(style_new(), Color::LightBlue),
                Color::DarkGray,
            ),
            highlight_symbol: None,
        }
    }
}

} // verus!

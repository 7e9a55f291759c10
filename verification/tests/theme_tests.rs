use ratatui::style::Color;
use ratatui::style::Style;
use ratatui::widgets::Block;
use ratatui::widgets::HighlightSpacing;
use ratatui_explorer::FileExplorer;
use ratatui_explorer::FileKind;
use ratatui_explorer::RawEntry;
use ratatui_explorer::Theme;
use ratatui_explorer::TitleGen;
use ratatui_explorer::TitleLine;
use ratatui::text::Line;

fn entry(name: &str, is_dir: bool) -> RawEntry {
    RawEntry {
        name: name.to_string(),
        path: format!("/tmp/x/{}", name),
        is_dir,
        is_hidden: false,
        file_type: Some(if is_dir { FileKind::Directory } else { FileKind::Regular }),
    }
}

fn example_explorer() -> FileExplorer {
    FileExplorer::new(
        "/tmp/x".to_string(),
        vec![entry("b.txt", false), entry("A", true)],
    )
}

#[test]
fn empty_theme_has_nothing_set() {
    let theme = Theme::new();
    assert!(theme.block().is_none());
    assert!(theme.highlight_symbol().is_none());
    assert_eq!(theme.highlight_spacing(), &HighlightSpacing::WhenSelected);
    assert_eq!(theme.style(), &Style::new());
    assert_eq!(theme.item_style(), &Style::new());
    assert_eq!(theme.dir_style(), &Style::new());
}

#[test]
fn default_theme_shape() {
    let theme = Theme::default();
    assert!(theme.block().is_some());
    assert!(theme.highlight_symbol().is_none());
    assert_eq!(theme.highlight_spacing(), &HighlightSpacing::Always);
    assert_eq!(theme.item_style(), &Style::new().fg(Color::White));
    assert_eq!(theme.dir_style(), &Style::new().fg(Color::LightBlue));
    assert_eq!(
        theme.highlight_item_style(),
        &Style::new().fg(Color::White).bg(Color::DarkGray)
    );
    assert_eq!(
        theme.highlight_dir_style(),
        &Style::new().fg(Color::LightBlue).bg(Color::DarkGray)
    );
}

#[test]
fn builders_replace_each_field() {
    let block = Block::bordered().title("files");
    let base = Style::new().fg(Color::Yellow);
    let item = Style::new().fg(Color::Green);
    let dir = Style::new().fg(Color::Blue);
    let hl_item = Style::new().bg(Color::Red);
    let hl_dir = Style::new().bg(Color::Magenta);
    let theme = Theme::new()
        .with_block(block.clone())
        .with_style(base)
        .with_item_style(item)
        .with_dir_style(dir)
        .with_highlight_item_style(hl_item)
        .with_highlight_dir_style(hl_dir)
        .with_highlight_symbol("> ")
        .with_highlight_spacing(HighlightSpacing::Never);
    assert_eq!(theme.block(), Some(&block));
    assert_eq!(theme.style(), &base);
    assert_eq!(theme.item_style(), &item);
    assert_eq!(theme.dir_style(), &dir);
    assert_eq!(theme.highlight_item_style(), &hl_item);
    assert_eq!(theme.highlight_dir_style(), &hl_dir);
    assert_eq!(theme.highlight_symbol(), Some("> "));
    assert_eq!(theme.highlight_spacing(), &HighlightSpacing::Never);
}

#[test]
fn titles_generate_in_order() {
    let fe = example_explorer();
    let theme = Theme::new()
        .add_default_title()
        .with_title_top(TitleGen::Text("browser".to_string()))
        .with_title_bottom(TitleGen::Text("press q to quit".to_string()));
    assert_eq!(
        theme.title_top(&fe),
        vec![
            TitleLine::Text("/tmp/x".to_string()),
            TitleLine::Text("browser".to_string())
        ]
    );
    assert_eq!(
        theme.title_bottom(&fe),
        vec![TitleLine::Text("press q to quit".to_string())]
    );
}

#[test]
fn default_title_follows_directory_changes() {
    let mut fe = example_explorer();
    let theme = Theme::new().add_default_title();
    assert_eq!(theme.title_top(&fe), vec![TitleLine::Text("/tmp/x".to_string())]);
    let req = fe.set_cwd("/tmp".to_string());
    fe.apply_listing(req, Ok(vec![entry("x", true)])).unwrap();
    assert_eq!(theme.title_top(&fe), vec![TitleLine::Text("/tmp".to_string())]);
}

#[test]
fn render_styles_and_texts() {
    let mut fe = example_explorer();
    let item = Style::new().fg(Color::Green);
    let dir = Style::new().fg(Color::Blue);
    let hl_item = Style::new().bg(Color::Red);
    let hl_dir = Style::new().bg(Color::Magenta);
    let block = Block::bordered().title("files");
    fe.set_theme(
        Theme::new()
            .with_block(block.clone())
            .with_item_style(item)
            .with_dir_style(dir)
            .with_highlight_item_style(hl_item)
            .with_highlight_dir_style(hl_dir)
            .with_highlight_symbol("> ")
            .add_default_title(),
    );

    let lv = fe.widget().render();
    let texts: Vec<&str> = lv.items.iter().map(|l| l.text.as_str()).collect();
    assert_eq!(texts, vec!["../", "A/", "b.txt"]);
    // Directory lines carry the directory style, others the item style.
    assert_eq!(lv.items[0].style, dir);
    assert_eq!(lv.items[1].style, dir);
    assert_eq!(lv.items[2].style, item);
    // The parent entry is a directory, so the highlight is the directory one.
    assert_eq!(lv.selected, Some(0));
    assert_eq!(lv.highlight_style, hl_dir);
    assert_eq!(lv.highlight_symbol.as_deref(), Some("> "));
    assert_eq!(lv.block, Some(block));
    assert_eq!(lv.top_titles, vec![TitleLine::Text("/tmp/x".to_string())]);
    assert!(lv.bottom_titles.is_empty());
}

#[test]
fn render_highlight_follows_selection() {
    let mut fe = example_explorer();
    let hl_item = Style::new().bg(Color::Red);
    let hl_dir = Style::new().bg(Color::Magenta);
    fe.set_theme(
        Theme::new().with_highlight_item_style(hl_item).with_highlight_dir_style(hl_dir),
    );
    fe.set_selected_idx(2);
    let lv = fe.widget().render();
    assert_eq!(lv.selected, Some(2));
    assert_eq!(lv.highlight_style, hl_item);
}

#[test]
fn render_empty_listing_selects_nothing() {
    let fe = FileExplorer::new("/".to_string(), Vec::new());
    let lv = fe.widget().render();
    assert!(lv.items.is_empty());
    assert_eq!(lv.selected, None);
}

#[test]
fn set_theme_keeps_navigation_state() {
    let mut fe = example_explorer();
    fe.set_selected_idx(1);
    fe.set_theme(Theme::new());
    assert_eq!(fe.selected_idx(), 1);
    assert_eq!(fe.cwd(), "/tmp/x");
    assert!(fe.theme().block().is_none());
}

#[test]
fn with_theme_uses_given_theme() {
    let theme = Theme::new().with_highlight_symbol("* ");
    let fe = FileExplorer::with_theme(
        "/tmp/x".to_string(),
        vec![entry("b.txt", false)],
        theme,
    );
    assert_eq!(fe.theme().highlight_symbol(), Some("* "));
}

#[test]
fn cloned_theme_keeps_every_field() {
    let theme = Theme::default()
        .with_highlight_symbol("> ")
        .with_title_top(TitleGen::Text("top".to_string()));
    let copy = theme.clone();
    assert_eq!(copy, theme);
    assert_eq!(copy.highlight_symbol(), Some("> "));
    assert_eq!(copy.block(), theme.block());
}

#[test]
fn cloned_explorer_is_independent() {
    let mut fe = example_explorer();
    let copy = fe.clone();
    assert_eq!(copy, fe);
    fe.set_selected_idx(1);
    assert_eq!(copy.selected_idx(), 0);
    assert_eq!(fe.selected_idx(), 1);
}

#[test]
fn styled_titles_carry_through_unchanged() {
    let fe = example_explorer();
    let styled = Line::from("status").right_aligned();
    let theme = Theme::new()
        .add_default_title()
        .with_title_top(TitleGen::Styled(styled.clone()));
    assert_eq!(
        theme.title_top(&fe),
        vec![
            TitleLine::Text("/tmp/x".to_string()),
            TitleLine::Styled(styled.clone())
        ]
    );
    let mut fe = fe;
    fe.set_theme(theme);
    let lv = fe.widget().render();
    assert_eq!(lv.top_titles[1], TitleLine::Styled(styled));
}

use alacritty_terminal::event::VoidListener;
use alacritty_terminal::grid::Dimensions;
use alacritty_terminal::term::{Config, Term};
use alacritty_terminal::vte::ansi;
use therminal_window::hotspot::HotspotKind;
use therminal_window::render::cells::{
    apply_hotspots_to_cells, collect_cells, GridChar, HyperlinkSource, RenderCell, TextHotspot,
};
use therminal_window::render::damage::{
    damage_rows, plan_redraw, LineDamage, Redraw,
};
use therminal_window::render::pane::{render_single_pane, Finders, PaneFrame, PanePicture};
use therminal_window::render::patterns::{
    extend_hotspots_from_patterns, PatternAction, PatternMatch, PatternWidgetMatch,
};
use therminal_window::render::rows::{
    byte_to_col_map, column_at, compute_wrap_continuation, extract_row_text_from_cells,
};
use therminal_window::render::tree::{render_panes_recursive, DrawStep};
use therminal_window::layout::{LayoutNode, PaneState, Ratio, SplitDirection};

struct Size {
    columns: usize,
    screen_lines: usize,
}

impl Dimensions for Size {
    fn total_lines(&self) -> usize {
        self.screen_lines
    }

    fn screen_lines(&self) -> usize {
        self.screen_lines
    }

    fn columns(&self) -> usize {
        self.columns
    }
}

fn grid_of(columns: usize, screen_lines: usize, input: &[u8]) -> Vec<GridChar> {
    let size = Size { columns, screen_lines };
    let mut term = Term::new(Config::default(), &size, VoidListener);
    let mut parser = ansi::Processor::<ansi::StdSyncHandler>::new();
    parser.advance(&mut term, input);
    term.renderable_content()
        .display_iter
        .map(|indexed| GridChar {
            line: indexed.point.line.0,
            col: indexed.point.column.0,
            c: indexed.cell.c,
            flags: indexed.cell.flags.bits(),
            hyperlink: indexed.cell.hyperlink().map(|h| h.uri().to_string()),
        })
        .collect()
}

fn feed_and_extract(columns: usize, rows: usize, input: &[u8]) -> Vec<RenderCell> {
    collect_cells(&grid_of(columns, rows, input), 0, rows)
}

fn hotspot(row: usize, start_col: usize, end_col: usize, kind: HotspotKind) -> TextHotspot {
    TextHotspot {
        row,
        start_col,
        end_col,
        kind,
        text: "text".to_string(),
        is_dir: false,
        resolved_text: None,
    }
}

#[test]
fn alt_screen_round_trip_preserves_primary_content() {
    let cols = 80;
    let rows = 24;
    let mut input = Vec::new();
    input.extend_from_slice(b"PRIMARY content here\r\n");
    input.extend_from_slice(b"\x1b[?1049h");
    input.extend_from_slice(b"ALTSCREEN content\r\n");
    input.extend_from_slice(b"\x1b[?1049l");

    let cells = feed_and_extract(cols, rows, &input);
    let row_texts = extract_row_text_from_cells(&cells, rows);
    let joined = row_texts.join("");
    assert!(joined.contains("PRIMARY content here"));
    assert!(!joined.contains("ALTSCREEN"));
}

#[test]
fn pattern_hotspot_highlight_group_narrows_to_keyword() {
    let line = b"daemon PTY/session flows that are still ignored\r\n";
    let mut cells = feed_and_extract(80, 24, line);
    let row_texts = extract_row_text_from_cells(&cells, 24);
    assert_eq!(&row_texts[0][7..10], "PTY");
    // The pattern engine reports the bytes of the highlighted group.
    let engine = |text: &str| match text.find("PTY/session") {
        Some(at) => vec![PatternMatch {
            byte_start: at,
            byte_end: at + 3,
            action: PatternAction::Hotspot {
                kind: HotspotKind::Other(1),
                text: "PTY".to_string(),
            },
        }],
        None => Vec::new(),
    };
    let mut hotspots = Vec::new();
    let mut widgets = Vec::new();
    extend_hotspots_from_patterns(&engine, 1, &row_texts, &mut hotspots, &mut widgets);
    apply_hotspots_to_cells(&mut cells, &hotspots);

    let marked: Vec<&RenderCell> = cells.iter().filter(|c| c.hotspot.is_some()).collect();
    assert!(!marked.is_empty());
    for cell in &marked {
        assert_eq!(cell.row, 0);
        assert!(cell.col >= 7 && cell.col < 10);
    }
    assert_eq!(marked.len(), 3);
    for cell in cells.iter().filter(|c| c.row == 0 && c.col >= 10 && c.c != ' ') {
        assert!(cell.hotspot.is_none());
    }
    assert!(widgets.is_empty());
}

#[test]
fn url_hotspot_suppresses_overlapping_file_path() {
    let line = b"see https://example.com/src/main.rs for details\r\n";
    let mut cells = feed_and_extract(80, 24, line);
    let url_start = 4;
    let url_text = "https://example.com/src/main.rs";
    let url_end = url_start + url_text.len();
    // The detector lists the link before the path inside of it.
    let hotspots = vec![
        hotspot(0, url_start, url_end, HotspotKind::Url),
        hotspot(0, 24, url_end, HotspotKind::FilePath),
    ];
    apply_hotspots_to_cells(&mut cells, &hotspots);
    let marked: Vec<&RenderCell> = cells.iter().filter(|c| c.hotspot.is_some()).collect();
    assert!(!marked.is_empty());
    for cell in &marked {
        if cell.col >= url_start && cell.col < url_end {
            assert_eq!(cell.hotspot.as_ref().unwrap().kind, HotspotKind::Url);
        }
    }
    assert!(!marked.iter().any(|c| {
        c.col >= url_start
            && c.col < url_end
            && c.hotspot.as_ref().is_some_and(|h| h.kind == HotspotKind::FilePath)
    }));
}

#[test]
fn wrapped_line_hotspot_spans_two_rows() {
    let cols = 40;
    let prefix = "see ";
    let path = "/home/user/projects/therminal/src/main.rs:42:5";
    let line = format!("{}{}\r\n", prefix, path);
    let mut cells = feed_and_extract(cols, 24, line.as_bytes());

    let row_texts = extract_row_text_from_cells(&cells, 24);
    let wraps = compute_wrap_continuation(&cells, 24);
    assert!(!wraps[0]);
    assert!(wraps[1]);
    assert!(!wraps[2]);
    // The detector joins the rows of a line and gives one part for each.
    assert_eq!(row_texts[0], line[..cols]);
    assert!(row_texts[1].starts_with(&line[cols..prefix.len() + path.len()]));
    let hotspots = vec![
        hotspot(0, prefix.len(), cols, HotspotKind::FilePath),
        hotspot(1, 0, prefix.len() + path.len() - cols, HotspotKind::FilePath),
    ];
    apply_hotspots_to_cells(&mut cells, &hotspots);

    let marked: Vec<&RenderCell> = cells.iter().filter(|c| c.hotspot.is_some()).collect();
    assert!(marked.iter().any(|c| c.row == 0) && marked.iter().any(|c| c.row == 1));
    assert_eq!(marked.iter().find(|c| c.row == 0).unwrap().col, prefix.len());
    assert_eq!(marked.iter().find(|c| c.row == 1).unwrap().col, 0);
    assert_eq!(marked.len(), path.len());
}

#[test]
fn wide_characters_are_drawn_once() {
    let cells = feed_and_extract(10, 2, "世a".as_bytes());
    let row: Vec<(usize, char)> =
        cells.iter().filter(|c| c.row == 0).take(2).map(|c| (c.col, c.c)).collect();
    assert_eq!(row, vec![(0, '世'), (2, 'a')]);
    // A space fills the column of the second half.
    assert!(extract_row_text_from_cells(&cells, 2)[0].starts_with("世 a"));
}

#[test]
fn links_of_the_program_keep_their_source() {
    let cells = feed_and_extract(20, 2, b"\x1b]8;;https://a.example\x1b\\go\x1b]8;;\x1b\\ on");
    assert_eq!(cells[0].hyperlink.as_deref(), Some("https://a.example"));
    assert_eq!(cells[0].hyperlink_source, Some(HyperlinkSource::Osc8));
    assert_eq!(cells[3].hyperlink, None);
    assert_eq!(cells[3].hyperlink_source, None);
}

fn cell(line: i32, col: usize, c: char) -> GridChar {
    GridChar { line, col, c, flags: 0, hyperlink: None }
}

#[test]
fn cells_outside_of_the_view_are_left_out() {
    let grid = vec![cell(-3, 0, 'a'), cell(-2, 0, 'b'), cell(0, 1, 'c'), cell(1, 0, 'd')];
    let cells = collect_cells(&grid, 2, 3);
    let seen: Vec<(usize, usize, char, usize)> =
        cells.iter().map(|c| (c.row, c.col, c.c, c.index)).collect();
    assert_eq!(seen, vec![(0, 0, 'b', 1), (2, 1, 'c', 2)]);
}

#[test]
fn row_text_fills_gaps_and_keeps_the_last_character() {
    let grid = vec![cell(0, 3, 'x'), cell(0, 0, 'a'), cell(0, 0, 'b')];
    let cells = collect_cells(&grid, 0, 1);
    assert_eq!(extract_row_text_from_cells(&cells, 1), vec!["b  x".to_string()]);
}

#[test]
fn bytes_map_to_columns() {
    // One byte, three bytes, two bytes.
    let map = byte_to_col_map("a世é");
    assert_eq!(map, vec![0, 1, 2, 2, 2, 3, 3]);
    assert_eq!(column_at(&map, 4), 2);
    assert_eq!(column_at(&map, 99), 99);
}

#[test]
fn widgets_have_columns_and_empty_rows_give_nothing() {
    let texts = vec![String::new(), "é=1".to_string()];
    let engine = |text: &str| {
        assert!(!text.is_empty());
        vec![
            PatternMatch { byte_start: 2, byte_end: 4, action: PatternAction::Widget(5) },
            PatternMatch { byte_start: 0, byte_end: 1, action: PatternAction::Other },
        ]
    };
    let mut hotspots = Vec::new();
    let mut widgets = Vec::new();
    extend_hotspots_from_patterns(&engine, 3, &texts, &mut hotspots, &mut widgets);
    assert!(hotspots.is_empty());
    assert_eq!(
        widgets,
        vec![PatternWidgetMatch { pane_id: 3, row: 1, start_col: 1, end_col: 3, widget: 5 }]
    );
}

#[test]
fn the_first_hotspot_wins() {
    let grid = vec![cell(0, 0, 'a'), cell(0, 1, 'b'), cell(0, 2, 'c')];
    let mut cells = collect_cells(&grid, 0, 1);
    let hotspots = vec![
        hotspot(0, 1, 2, HotspotKind::Url),
        hotspot(0, 0, 2, HotspotKind::FilePath),
    ];
    apply_hotspots_to_cells(&mut cells, &hotspots);
    assert_eq!(cells[0].hotspot.as_ref().map(|h| h.kind), Some(HotspotKind::FilePath));
    assert_eq!(cells[1].hotspot.as_ref().map(|h| h.kind), Some(HotspotKind::Url));
    assert!(cells[2].hotspot.is_none());
}

#[test]
fn damaged_lines_become_rows() {
    let lines = vec![
        LineDamage { line: 1, damaged: true },
        LineDamage { line: 0, damaged: false },
        LineDamage { line: 7, damaged: true },
    ];
    assert_eq!(damage_rows(&lines, 3), vec![false, true, false]);
}

#[test]
fn redraw_follows_damage_and_cache() {
    assert_eq!(plan_redraw(None, true, false), Redraw::Full);
    assert_eq!(plan_redraw(Some(&[false]), true, false), Redraw::Cached);
    assert_eq!(plan_redraw(Some(&[false]), true, true), Redraw::Cached);
    assert_eq!(plan_redraw(Some(&[false]), false, true), Redraw::Full);
    assert_eq!(plan_redraw(Some(&[true]), true, false), Redraw::Partial);
    assert_eq!(plan_redraw(Some(&[true]), false, false), Redraw::Full);
}

fn frame(damage: Option<Vec<LineDamage>>, cache_matches_viewport: bool) -> PaneFrame {
    PaneFrame {
        pane_id: 6,
        pane_count: 2,
        show_pane_headers: true,
        draw_focus_border: true,
        screen_lines: 2,
        display_offset: 0,
        damage,
        cache_matches_viewport,
        is_remote: false,
    }
}

fn no_calls(_: &Vec<String>) -> Vec<TextHotspot> {
    Vec::new()
}

fn no_patterns(_: &str) -> Vec<PatternMatch> {
    Vec::new()
}

fn link_everything(cells: Vec<RenderCell>) -> Vec<RenderCell> {
    cells
        .into_iter()
        .map(|mut c| {
            c.hyperlink = Some("u".to_string());
            c.hyperlink_source = None;
            c
        })
        .collect()
}

#[test]
fn an_unchanged_pane_is_drawn_from_the_cache() {
    let grid = vec![cell(0, 0, 'a')];
    let picture = render_single_pane(
        &frame(Some(vec![]), true),
        &grid,
        &Finders {
            urls: link_everything,
            spots: |_: &Vec<String>, _: &Vec<bool>| Vec::new(),
            calls: Some(no_calls),
            engine: Some(no_patterns),
        },
    );
    assert_eq!(picture, PanePicture::Cached { header: true, focus_border: true });
}

#[test]
fn links_are_looked_for_in_changed_rows_only() {
    let grid = vec![cell(0, 0, 'a'), cell(1, 0, 'b')];
    let changed = vec![LineDamage { line: 1, damaged: true }];
    let picture = render_single_pane(
        &frame(Some(changed), true),
        &grid,
        &Finders {
            urls: link_everything,
            spots: |texts: &Vec<String>, _: &Vec<bool>| {
                assert_eq!(*texts, vec![String::new(), "b".to_string()]);
                vec![hotspot(0, 0, 1, HotspotKind::Url)]
            },
            calls: Some(no_calls),
            engine: Some(no_patterns),
        },
    );
    match picture {
        PanePicture::Drawn { cells, damaged_rows, .. } => {
            assert_eq!(damaged_rows, Some(vec![false, true]));
            assert_eq!(cells[0].hyperlink, None);
            assert_eq!(cells[1].hyperlink.as_deref(), Some("u"));
            assert_eq!(cells[1].hyperlink_source, Some(HyperlinkSource::Regex));
            assert!(cells[0].hotspot.is_some());
        }
        other => panic!("expected a drawing, got {other:?}"),
    }
}

#[test]
fn a_pane_that_changed_otherwise_is_drawn_whole() {
    let grid = vec![cell(0, 0, 'a'), cell(1, 0, 'b')];
    let picture = render_single_pane(
        &frame(Some(vec![LineDamage { line: 1, damaged: true }]), false),
        &grid,
        &Finders {
            urls: link_everything,
            spots: |_: &Vec<String>, _: &Vec<bool>| Vec::new(),
            calls: Some(no_calls),
            engine: Some(no_patterns),
        },
    );
    match picture {
        PanePicture::Drawn { cells, damaged_rows, header, focus_border, widgets } => {
            assert!(header && focus_border);
            assert!(widgets.is_empty());
            assert_eq!(damaged_rows, None);
            assert!(cells.iter().all(|c| c.hyperlink.is_some()));
        }
        other => panic!("expected a drawing, got {other:?}"),
    }
}

#[test]
fn texts_win_over_tool_calls_and_those_over_patterns() {
    let grid = vec![cell(0, 0, 'a'), cell(0, 1, 'b'), cell(0, 2, 'c')];
    let engine = |text: &str| {
        assert_eq!(text, "abc");
        vec![
            PatternMatch {
                byte_start: 0,
                byte_end: 3,
                action: PatternAction::Hotspot {
                    kind: HotspotKind::Other(1),
                    text: "abc".to_string(),
                },
            },
            PatternMatch { byte_start: 1, byte_end: 2, action: PatternAction::Widget(4) },
        ]
    };
    let with = |known: bool| Finders {
        urls: |cells: Vec<RenderCell>| cells,
        spots: |_: &Vec<String>, _: &Vec<bool>| vec![hotspot(0, 0, 1, HotspotKind::Url)],
        calls: if known {
            Some(|_: &Vec<String>| vec![hotspot(0, 0, 2, HotspotKind::FilePath)])
        } else {
            None
        },
        engine: if known { Some(engine) } else { None },
    };
    let kinds = |picture: PanePicture| match picture {
        PanePicture::Drawn { cells, widgets, .. } => (
            cells.iter().map(|c| c.hotspot.as_ref().map(|h| h.kind)).collect::<Vec<_>>(),
            widgets,
        ),
        other => panic!("expected a drawing, got {other:?}"),
    };
    let (marks, widgets) = kinds(render_single_pane(&frame(None, true), &grid, &with(true)));
    assert_eq!(
        marks,
        vec![Some(HotspotKind::Url), Some(HotspotKind::FilePath), Some(HotspotKind::Other(1))]
    );
    assert_eq!(
        widgets,
        vec![PatternWidgetMatch { pane_id: 6, row: 0, start_col: 1, end_col: 2, widget: 4 }]
    );
    let (marks, widgets) = kinds(render_single_pane(&frame(None, true), &grid, &with(false)));
    assert_eq!(marks, vec![Some(HotspotKind::Url), None, None]);
    assert!(widgets.is_empty());
}

fn leaf(id: u64) -> LayoutNode {
    LayoutNode::Leaf(PaneState { id, pinned: false, cwd: None, claude_session_id: None })
}

#[test]
fn panes_are_drawn_before_their_separator() {
    let tree = LayoutNode::Split {
        direction: SplitDirection::Vertical,
        ratio: Ratio { bits: 0x3f00_0000 },
        first: Box::new(leaf(4)),
        second: Box::new(leaf(9)),
    };
    let mut count = 0;
    let mut steps = Vec::new();
    render_panes_recursive(&tree, Some(9), true, &mut count, &mut steps);
    assert_eq!(count, 2);
    assert_eq!(
        steps,
        vec![
            DrawStep::Pane { id: 4, focus_border: false },
            DrawStep::Pane { id: 9, focus_border: true },
            DrawStep::Separator { direction: SplitDirection::Vertical },
        ]
    );
}

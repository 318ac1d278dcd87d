use vstd::prelude::*;

use crate::model::AppMode;
use ratatui::layout::{Constraint, Direction, Flex, Layout, Rect};

verus! {

/// The terminal size the application renders into.
#[derive(Clone, Copy, Debug, PartialEq, Eq)]
pub struct Viewport {
    pub width: u16,
    pub height: u16,
}

impl Default for Viewport {
    /// The size assumed before the terminal reports one: 120 columns by 32 rows.
    fn default() -> (v: Self)
        ensures
            v.width == 120,
            v.height == 32,
    {
        Viewport { width: 120, height: 32 }
    }
}

/// A rectangle of terminal cells.
#[derive(Clone, Copy, Debug, PartialEq, Eq)]
pub struct Area {
    pub x: u16,
    pub y: u16,
    pub width: u16,
    pub height: u16,
}

/// The area a frame is rendered into: the whole viewport, at least one cell wide and high.
pub fn render_area(viewport: Viewport) -> (a: Area)
    ensures
        a.x == 0,
        a.y == 0,
        a.width == if viewport.width >= 1 { viewport.width } else { 1 },
        a.height == if viewport.height >= 1 { viewport.height } else { 1 },
{
    Area {
        x: 0,
        y: 0,
        width: if viewport.width >= 1 { viewport.width } else { 1 },
        height: if viewport.height >= 1 { viewport.height } else { 1 },
    }
}

/// How many rows a page of a repository list holds in a viewport of `height` rows:
/// the height less eight rows of chrome, and at least one.
pub open spec fn page_size_for(height: u16) -> int {
    if height > 9 {
        height - 8
    } else {
        1
    }
}

/// The page size of repository lists (see `page_size_for`).
pub fn repo_list_page_size(viewport: Viewport) -> (n: usize)
    ensures
        n == page_size_for(viewport.height),
        n >= 1,
{
    let h = viewport.height;
    let rest: u16 = if h > 8 { h - 8 } else { 0 };
    if rest >= 1 { rest as usize } else { 1 }
}

/// The number of rows of the status bar: one without the help footer, three in
/// repository mode with no modal open, two otherwise.
pub open spec fn status_bar_rows(show_help_footer: bool, mode: AppMode, modal_open: bool) -> u16 {
    if !show_help_footer {
        1
    } else if mode == AppMode::Repository && !modal_open {
        3
    } else {
        2
    }
}

/// The height of the status bar (see `status_bar_rows`).
pub fn status_bar_height(show_help_footer: bool, mode: AppMode, modal_open: bool) -> (h: u16)
    ensures
        h == status_bar_rows(show_help_footer, mode, modal_open),
{
    if !show_help_footer {
        return 1;
    }
    match mode {
        AppMode::Repository => if !modal_open {
            3
        } else {
            2
        },
        AppMode::Workspace => 2,
    }
}

/// The column widths of the workspace repository table.
#[derive(Clone, Copy, Debug, PartialEq, Eq)]
pub struct WorkspaceTableLayout {
    pub name_width: usize,
    pub branch_width: usize,
    pub dirty_width: usize,
    pub sync_width: Option<usize>,
    pub fetch_width: usize,
}

/// The width of a table row: its columns and one space between each two.
pub open spec fn table_row_width(l: WorkspaceTableLayout) -> int {
    match l.sync_width {
        Some(s) => l.name_width + l.branch_width + l.dirty_width + s + l.fetch_width + 4,
        None => l.name_width + l.branch_width + l.dirty_width + l.fetch_width + 3,
    }
}

pub open spec fn at_least(value: int, floor: int) -> int {
    if value >= floor {
        value
    } else {
        floor
    }
}

/// The table layout for a list `width` columns wide: five columns from 54 columns on,
/// four narrower columns from 40 on, and compact columns below that; the name column
/// takes the room the other columns leave, down to a floor.
pub open spec fn table_layout_for(width: usize) -> WorkspaceTableLayout {
    if width >= 54 {
        WorkspaceTableLayout {
            name_width: at_least(width - 46, 12) as usize,
            branch_width: 14,
            dirty_width: 12,
            sync_width: Some(8),
            fetch_width: 8,
        }
    } else if width >= 40 {
        WorkspaceTableLayout {
            name_width: at_least(width - 30, 10) as usize,
            branch_width: 9,
            dirty_width: 12,
            sync_width: None,
            fetch_width: 6,
        }
    } else {
        WorkspaceTableLayout {
            name_width: at_least(width - 24, 8) as usize,
            branch_width: 6,
            dirty_width: 10,
            sync_width: None,
            fetch_width: 5,
        }
    }
}

/// The column widths of the workspace table for a list `width` columns wide (see
/// `table_layout_for`); a row then spans exactly the width, except below the widths at
/// which the name column reaches its floor.
pub fn workspace_table_layout(width: usize) -> (l: WorkspaceTableLayout)
    ensures
        l == table_layout_for(width),
        table_row_width(l) == if width >= 54 {
            at_least(width as int, 58)
        } else if width >= 40 {
            width as int
        } else {
            at_least(width as int, 32)
        },
{
    if width >= 54 {
        let rest = width - 46;
        WorkspaceTableLayout {
            name_width: if rest >= 12 { rest } else { 12 },
            branch_width: 14,
            dirty_width: 12,
            sync_width: Some(8),
            fetch_width: 8,
        }
    } else if width >= 40 {
        let rest = width - 30;
        WorkspaceTableLayout {
            name_width: if rest >= 10 { rest } else { 10 },
            branch_width: 9,
            dirty_width: 12,
            sync_width: None,
            fetch_width: 6,
        }
    } else {
        let rest: usize = if width >= 24 { width - 24 } else { 0 };
        WorkspaceTableLayout {
            name_width: if rest >= 8 { rest } else { 8 },
            branch_width: 6,
            dirty_width: 10,
            sync_width: None,
            fetch_width: 5,
        }
    }
}

/// The axis along which an area is split.
#[derive(Clone, Copy, Debug, PartialEq, Eq)]
pub enum SplitAxis {
    Horizontal,
    Vertical,
}

/// The areas that ratatui's constraint solver splits an area into along an axis, one per
/// percentage constraint, with the leftover space spread evenly around them when
/// `centered` is set.
pub uninterp spec fn ratatui_split(area: Area, axis: SplitAxis, percents: Seq<u16>, centered: bool) -> Seq<Area>;

/// Splits `area` by percentages with ratatui's `Layout::split` (the `Flex::Center` flex
/// mode when `centered` is set, the default otherwise). Claimed of it: the result is a
/// function of the arguments (`ratatui_split`) with one area per percentage, as the
/// crate's source builds one segment per constraint.
#[verifier::external_body]
fn layout_split(area: Area, axis: SplitAxis, percents: &Vec<u16>, centered: bool) -> (res: Vec<Area>)
    ensures
        res@ == ratatui_split(area, axis, percents@, centered),
        res@.len() == percents@.len(),
{
    let direction = match axis {
        SplitAxis::Horizontal => Direction::Horizontal,
        SplitAxis::Vertical => Direction::Vertical,
    };
    let constraints: Vec<Constraint> = percents.iter().map(|p| Constraint::Percentage(*p)).collect();
    let layout = Layout::default().direction(direction).constraints(constraints);
    let layout = if centered { layout.flex(Flex::Center) } else { layout };
    let rects = layout.split(Rect::new(area.x, area.y, area.width, area.height));
    rects.iter().map(|r| Area { x: r.x, y: r.y, width: r.width, height: r.height }).collect()
}

/// The percentages of the two workspace columns for a viewport `width` columns wide.
pub open spec fn two_column_percents(width: u16) -> Seq<u16> {
    if width >= 120 {
        seq![44u16, 56u16]
    } else if width >= 90 {
        seq![50u16, 50u16]
    } else {
        seq![58u16, 42u16]
    }
}

/// Splits the workspace screen into the repository list and the preview; the list
/// gets the larger share on narrow screens.
pub fn split_two_columns(area: Area) -> (res: Vec<Area>)
    ensures
        res@ == ratatui_split(area, SplitAxis::Horizontal, two_column_percents(area.width), false),
        res@.len() == 2,
{
    let percents: Vec<u16> = if area.width >= 120 {
        vec![44, 56]
    } else if area.width >= 90 {
        vec![50, 50]
    } else {
        vec![58, 42]
    };
    assert(percents@ =~= two_column_percents(area.width));
    layout_split(area, SplitAxis::Horizontal, &percents, false)
}

/// Splits the repository screen into the side panel (`side_panel_width` percent) and
/// the detail pane (the rest, none when the side panel takes it all).
pub fn split_repo_columns(area: Area, side_panel_width: u16) -> (res: Vec<Area>)
    ensures
        res@ == ratatui_split(
            area,
            SplitAxis::Horizontal,
            seq![side_panel_width, (if side_panel_width <= 100 { 100 - side_panel_width } else { 0 }) as u16],
            false,
        ),
        res@.len() == 2,
{
    let rest: u16 = if side_panel_width <= 100 { 100 - side_panel_width } else { 0 };
    let percents: Vec<u16> = vec![side_panel_width, rest];
    layout_split(area, SplitAxis::Horizontal, &percents, false)
}

/// Splits the side panel into the unstaged pane (55 percent) above the staged pane.
pub fn split_repo_left_column(area: Area) -> (res: Vec<Area>)
    ensures
        res@ == ratatui_split(area, SplitAxis::Vertical, seq![55u16, 45u16], false),
        res@.len() == 2,
{
    let percents: Vec<u16> = vec![55, 45];
    layout_split(area, SplitAxis::Vertical, &percents, false)
}

/// The percentages that centre a band of `percent` percent: equal margins on both sides.
pub open spec fn centered_percents(percent: u16) -> Seq<u16> {
    let margin = ((100 - percent) / 2) as u16;
    seq![margin, percent, margin]
}

/// The area of a modal: the middle band of `height_percent` percent of the rows, and
/// within it the middle `width_percent` percent of the columns.
pub fn centered_rect(area: Area, width_percent: u16, height_percent: u16) -> (res: Area)
    requires
        width_percent <= 100,
        height_percent <= 100,
    ensures
        res == ratatui_split(
            ratatui_split(area, SplitAxis::Vertical, centered_percents(height_percent), false)[1],
            SplitAxis::Horizontal,
            centered_percents(width_percent),
            true,
        )[1],
{
    let vmargin = (100 - height_percent) / 2;
    let vertical_percents: Vec<u16> = vec![vmargin, height_percent, vmargin];
    assert(vertical_percents@ =~= centered_percents(height_percent));
    let vertical = layout_split(area, SplitAxis::Vertical, &vertical_percents, false);
    let hmargin = (100 - width_percent) / 2;
    let horizontal_percents: Vec<u16> = vec![hmargin, width_percent, hmargin];
    assert(horizontal_percents@ =~= centered_percents(width_percent));
    let horizontal = layout_split(vertical[1], SplitAxis::Horizontal, &horizontal_percents, true);
    horizontal[1]
}

} // verus!

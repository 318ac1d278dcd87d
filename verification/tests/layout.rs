use super_lazygit_tui::layout::{centered_rect, split_repo_columns, split_repo_left_column, split_two_columns, Area};

fn screen(width: u16, height: u16) -> Area {
    Area { x: 0, y: 0, width, height }
}

#[test]
fn two_columns_share_the_width() {
    let parts = split_two_columns(screen(120, 40));
    assert_eq!(parts.len(), 2);
    assert_eq!(parts[0].x, 0);
    assert_eq!(parts[1].x, parts[0].width);
    assert_eq!(parts[0].width + parts[1].width, 120);
    assert!(parts[0].width >= 52 && parts[0].width <= 53);
    assert_eq!(parts[0].height, 40);
    assert_eq!(parts[1].height, 40);
}

#[test]
fn narrow_two_columns_favour_the_list() {
    let parts = split_two_columns(screen(80, 24));
    assert_eq!(parts.len(), 2);
    assert!(parts[0].width > parts[1].width);
    assert_eq!(parts[0].width + parts[1].width, 80);
}

#[test]
fn repo_columns_follow_the_side_panel_width() {
    let parts = split_repo_columns(screen(100, 30), 40);
    assert_eq!(parts.len(), 2);
    assert_eq!(parts[0].width, 40);
    assert_eq!(parts[1].x, 40);
    assert_eq!(parts[1].width, 60);
}

#[test]
fn left_column_stacks_unstaged_over_staged() {
    let parts = split_repo_left_column(Area { x: 3, y: 2, width: 40, height: 20 });
    assert_eq!(parts.len(), 2);
    assert_eq!(parts[0].y, 2);
    assert_eq!(parts[0].height, 11);
    assert_eq!(parts[1].y, 13);
    assert_eq!(parts[1].height, 9);
    assert_eq!(parts[0].x, 3);
    assert_eq!(parts[1].width, 40);
}

#[test]
fn modal_is_centered() {
    let area = screen(120, 32);
    let modal = centered_rect(area, 72, 45);
    assert!(modal.width >= 85 && modal.width <= 87);
    assert!(modal.height >= 13 && modal.height <= 15);
    assert!(modal.x > 0 && modal.y > 0);
    assert!(modal.x + modal.width < 120);
    assert!(modal.y + modal.height < 32);
    let left = modal.x;
    let right = 120 - (modal.x + modal.width);
    assert!(left.abs_diff(right) <= 1);
}

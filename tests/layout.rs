use winsafe::handles::{HWND, POINT, RECT, SIZE};
use winsafe::layout::{Horz, Layout, Vert, SIZE_R_MINIMIZED, SWP_NOMOVE, SWP_NOSIZE, SWP_NOZORDER};
use winsafe::shell_icons::{shell_icon_queries, E_NOTIMPL, SHGFI_ICON, SHGFI_SMALLICON, SHGFI_USEFILEATTRIBUTES};

fn rect(left: i32, top: i32, right: i32, bottom: i32) -> RECT {
    RECT { left, top, right, bottom }
}

#[test]
fn layout_moves_and_stretches_children() {
    let parent = HWND::from_ptr(1);
    let mut layout = Layout::new();
    layout.add_child(&parent, &HWND::from_ptr(10), (Horz::Repos, Vert::Repos), rect(0, 0, 200, 100));
    layout.add_child(&parent, &HWND::from_ptr(11), (Horz::Resize, Vert::Resize), rect(0, 0, 999, 999));
    layout.add_child(&parent, &HWND::from_ptr(12), (Horz::Keep, Vert::Keep), rect(0, 0, 1, 1));
    layout.add_child(&parent, &HWND::from_ptr(13), (Horz::Resize, Vert::Keep), rect(0, 0, 1, 1));
    assert_eq!(layout.child_handles(), vec![HWND::from_ptr(10), HWND::from_ptr(11), HWND::from_ptr(13)]);

    let now = [rect(150, 70, 190, 90), rect(10, 10, 100, 60), rect(5, 5, 50, 25)];
    let placed = layout.rearrange(0, SIZE::with(300, 150), &now);
    assert_eq!(placed.len(), 3);

    assert_eq!(placed[0].hchild, HWND::from_ptr(10));
    assert_eq!(placed[0].pos, POINT::with(250, 120));
    assert_eq!(placed[0].size, SIZE::with(40, 20));
    assert_eq!(placed[0].flags, SWP_NOZORDER | SWP_NOSIZE);

    assert_eq!(placed[1].pos, POINT::with(10, 10));
    assert_eq!(placed[1].size, SIZE::with(190, 100));
    assert_eq!(placed[1].flags, SWP_NOZORDER | SWP_NOMOVE);

    assert_eq!(placed[2].pos, POINT::with(5, 5));
    assert_eq!(placed[2].size, SIZE::with(145, 20));
    assert_eq!(placed[2].flags, SWP_NOZORDER);
}

#[test]
fn layout_keeps_original_rects() {
    let parent = HWND::from_ptr(1);
    let mut layout = Layout::new();
    layout.add_child(&parent, &HWND::from_ptr(10), (Horz::Repos, Vert::Keep), rect(0, 0, 100, 100));
    let first = layout.rearrange(0, SIZE::with(100, 100), &[rect(80, 5, 95, 15)]);
    assert_eq!(first[0].pos, POINT::with(80, 5));
    let second = layout.rearrange(0, SIZE::with(120, 50), &[rect(0, 0, 0, 0)]);
    assert_eq!(second[0].pos, POINT::with(100, 5));
    assert_eq!(second[0].size, SIZE::with(15, 10));
}

#[test]
fn layout_does_nothing_when_minimized_or_empty() {
    let mut empty = Layout::new();
    assert!(empty.rearrange(0, SIZE::with(10, 10), &[]).is_empty());
    let mut layout = Layout::new();
    layout.add_child(&HWND::from_ptr(1), &HWND::from_ptr(2), (Horz::Resize, Vert::Keep), rect(0, 0, 10, 10));
    assert!(layout.rearrange(SIZE_R_MINIMIZED, SIZE::with(0, 0), &[rect(0, 0, 5, 5)]).is_empty());
}

#[test]
fn layout_coordinates_wrap() {
    let mut layout = Layout::new();
    layout.add_child(&HWND::from_ptr(1), &HWND::from_ptr(2), (Horz::Repos, Vert::Keep), rect(0, 0, 0, 0));
    let placed = layout.rearrange(0, SIZE::with(i32::MAX, 0), &[rect(10, 0, 20, 0)]);
    assert_eq!(placed[0].pos.x, i32::MAX.wrapping_add(10));
}

#[test]
fn shell_icon_queries_by_size() {
    assert_eq!(shell_icon_queries(SIZE::with(20, 20), &["mp3"]).err(), Some(E_NOTIMPL));
    let qs = shell_icon_queries(SIZE::with(16, 16), &["mp3", "wav"]).unwrap();
    assert_eq!(qs.len(), 2);
    assert_eq!(qs[0].file_name, "*.mp3");
    assert_eq!(qs[1].file_name, "*.wav");
    assert_eq!(qs[0].flags, SHGFI_USEFILEATTRIBUTES | SHGFI_ICON | SHGFI_SMALLICON);
    let qs = shell_icon_queries(SIZE::with(32, 32), &["txt"]).unwrap();
    assert_eq!(qs[0].flags, SHGFI_USEFILEATTRIBUTES | SHGFI_ICON);
}

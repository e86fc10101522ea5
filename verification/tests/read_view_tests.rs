use glyph::app::input::{KeyCode, KeyEvent, KeyEventKind};
use glyph::app::page::glyph_read_view::{
    area_inner, evaluate_read_areas, find_section_area, place_read_areas, read_view_key, split_tree, Area,
    ReadViewAction, SizeConstraint, SplitTree,
};
use glyph::models::layout::{BorderMode, Layout, LayoutOrientation, SizeMode};

fn area(x: u16, y: u16, width: u16, height: u16) -> Area {
    Area { x, y, width, height }
}

fn leaf(section: Option<u16>) -> Layout {
    let mut l = Layout::new("leaf");
    l.section_index = section;
    l
}

fn fixed(section: u16, length: u16) -> Layout {
    let mut l = leaf(Some(section));
    l.details.size_mode = SizeMode::Length;
    l.details.length = length;
    l
}

#[test]
fn a_leaf_with_a_section_takes_the_whole_area() {
    let mut l = leaf(Some(3));
    l.details.border_mode = BorderMode::Rounded;
    l.details.padding = 2;
    let r = evaluate_read_areas(area(1, 2, 30, 10), &l);
    assert_eq!(r, vec![(3, area(1, 2, 30, 10), BorderMode::Rounded, 2)]);
}

#[test]
fn a_leaf_without_a_section_draws_nothing() {
    assert!(evaluate_read_areas(area(0, 0, 5, 5), &leaf(None)).is_empty());
}

#[test]
fn the_margin_is_taken_off_each_side() {
    let mut l = leaf(Some(0));
    l.details.margin = 1;
    assert_eq!(evaluate_read_areas(area(0, 0, 10, 10), &l)[0].1, area(1, 1, 8, 8));
    l.details.margin = 6;
    assert_eq!(evaluate_read_areas(area(0, 0, 10, 10), &l)[0].1, area(0, 0, 0, 0));
}

#[test]
fn children_split_the_area_along_the_main_axis() {
    let mut root = leaf(Some(9));
    root.sub_layouts.push(fixed(0, 4));
    root.sub_layouts.push(fixed(1, 6));
    let r = evaluate_read_areas(area(0, 0, 20, 10), &root);
    assert_eq!(
        r,
        vec![
            (0, area(0, 0, 20, 4), BorderMode::Borderless, 0),
            (1, area(0, 4, 20, 6), BorderMode::Borderless, 0),
        ]
    );
    root.details.orientation = LayoutOrientation::Horizontal;
    root.sub_layouts[0].details.length = 15;
    root.sub_layouts[1].details.length = 5;
    let r = evaluate_read_areas(area(0, 0, 20, 10), &root);
    assert_eq!(r[0].1, area(0, 0, 15, 10));
    assert_eq!(r[1].1, area(15, 0, 5, 10));
}

#[test]
fn nested_children_come_in_tree_order() {
    let mut inner = leaf(None);
    inner.details.size_mode = SizeMode::Length;
    inner.details.length = 6;
    inner.details.orientation = LayoutOrientation::Horizontal;
    inner.sub_layouts.push(fixed(2, 10));
    inner.sub_layouts.push(fixed(3, 10));
    let mut root = leaf(None);
    root.sub_layouts.push(inner);
    root.sub_layouts.push(fixed(1, 4));
    let r = evaluate_read_areas(area(0, 0, 20, 10), &root);
    let positions: Vec<u16> = r.iter().map(|a| a.0).collect();
    assert_eq!(positions, vec![2, 3, 1]);
    assert_eq!(r[0].1, area(0, 0, 10, 6));
    assert_eq!(r[1].1, area(10, 0, 10, 6));
    assert_eq!(r[2].1, area(0, 6, 20, 4));
}

#[test]
fn find_section_area_returns_the_first_match() {
    let areas = vec![
        (1, area(0, 0, 1, 1), BorderMode::Plain, 0),
        (2, area(0, 1, 1, 1), BorderMode::Plain, 0),
        (1, area(0, 2, 1, 1), BorderMode::Plain, 0),
    ];
    assert_eq!(find_section_area(&areas, 1), Some(areas[0]));
    assert_eq!(find_section_area(&areas, 2), Some(areas[1]));
    assert_eq!(find_section_area(&areas, 3), None);
    assert_eq!(find_section_area(&areas, -1), None);
}

#[test]
fn read_view_keys() {
    let press = |c| KeyEvent::press(c);
    assert_eq!(read_view_key(&press(KeyCode::Esc)), ReadViewAction::LeaveFocus);
    assert_eq!(read_view_key(&press(KeyCode::PageUp)), ReadViewAction::ScrollPageUp);
    assert_eq!(read_view_key(&press(KeyCode::PageDown)), ReadViewAction::ScrollPageDown);
    assert_eq!(read_view_key(&press(KeyCode::Up)), ReadViewAction::ScrollUp);
    assert_eq!(read_view_key(&press(KeyCode::Down)), ReadViewAction::ScrollDown);
    assert_eq!(read_view_key(&press(KeyCode::Char('P'))), ReadViewAction::AskExportPath);
    assert_eq!(read_view_key(&press(KeyCode::Char('p'))), ReadViewAction::Nothing);
    let release = KeyEvent { code: KeyCode::Esc, control: false, shift: false, kind: KeyEventKind::Release };
    assert_eq!(read_view_key(&release), ReadViewAction::Nothing);
}

fn no_split() -> SplitTree {
    SplitTree { constraints: vec![], areas: vec![], children: vec![] }
}

#[test]
fn sections_are_placed_in_the_areas_given() {
    let mut inner = leaf(None);
    inner.sub_layouts.push(leaf(Some(4)));
    let mut margined = leaf(Some(5));
    margined.details.margin = 1;
    let mut root = leaf(Some(9));
    root.sub_layouts.push(inner);
    root.sub_layouts.push(margined);
    let splits = SplitTree {
        constraints: vec![SizeConstraint::Fill(1), SizeConstraint::Fill(1)],
        areas: vec![area(3, 3, 7, 2), area(0, 8, 6, 6)],
        children: vec![
            SplitTree {
                constraints: vec![SizeConstraint::Fill(1)],
                areas: vec![area(4, 3, 2, 2)],
                children: vec![no_split()],
            },
            no_split(),
        ],
    };
    let r = place_read_areas(area(0, 0, 20, 20), &root, &splits);
    assert_eq!(
        r,
        vec![
            (4, area(4, 3, 2, 2), BorderMode::Borderless, 0),
            (5, area(1, 9, 4, 4), BorderMode::Borderless, 0),
        ]
    );
}

#[test]
fn a_split_tree_has_one_area_per_child_across_the_whole_area() {
    let mut root = leaf(None);
    root.sub_layouts.push(fixed(0, 3));
    root.sub_layouts.push(leaf(Some(1)));
    root.sub_layouts.push(fixed(2, 2));
    let s = split_tree(area(2, 1, 12, 9), &root);
    assert_eq!(
        s.constraints,
        vec![SizeConstraint::Length(3), SizeConstraint::Fill(1), SizeConstraint::Length(2)]
    );
    assert_eq!(s.areas.len(), 3);
    assert_eq!(s.children.len(), 3);
    for a in &s.areas {
        assert_eq!((a.x, a.width), (2, 12));
        assert!(a.y >= 1 && a.y + a.height <= 10);
    }
    assert_eq!(s.areas[0], area(2, 1, 12, 3));
    assert_eq!(s.areas[2], area(2, 8, 12, 2));
    assert!(s.children.iter().all(|c| c.constraints.is_empty() && c.areas.is_empty() && c.children.is_empty()));
}

#[test]
fn inner_areas_saturate_at_the_edge() {
    assert_eq!(area_inner(area(2, 3, 10, 8), 2), area(4, 5, 6, 4));
    assert_eq!(area_inner(area(0, 0, 4, 9), 2), area(2, 2, 0, 5));
    assert_eq!(area_inner(area(0, 0, 3, 9), 2), area(0, 0, 0, 0));
    assert_eq!(area_inner(area(65530, 0, 40000, 40000), 10), area(65535, 10, 39980, 39980));
    assert_eq!(area_inner(area(0, 0, 65535, 65535), 40000), area(40000, 40000, 0, 0));
    assert_eq!(area_inner(area(5, 6, 7, 8), 0), area(5, 6, 7, 8));
}

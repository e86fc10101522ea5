use vstd::prelude::*;

use ratatui::layout::{Constraint, Direction, Rect};

use crate::app::input::{KeyCode, KeyEvent, KeyEventKind};
use crate::models::layout::{BorderMode, Layout, LayoutModel, LayoutOrientation, SizeMode};

verus! {

/// A rectangle of the terminal: its top left corner and its size, in cells.
#[derive(Clone, Copy, PartialEq, Eq, Structural, Debug)]
pub struct Area {
    pub x: u16,
    pub y: u16,
    pub width: u16,
    pub height: u16,
}

/// How much room a child layout asks for along its parent's main axis.
#[derive(Clone, Copy, PartialEq, Eq, Structural, Debug)]
pub enum SizeConstraint {
    /// A share of the room left, by weight.
    Fill(u16),
    /// A fixed number of cells.
    Length(u16),
}

/// Where a section is drawn: its position, its area, its border and its padding.
pub type ReadArea = (u16, Area, BorderMode, u16);

/// `a` lies inside `outer`.
pub open spec fn area_within(a: Area, outer: Area) -> bool {
    &&& outer.x <= a.x
    &&& a.x + a.width <= outer.x + outer.width
    &&& outer.y <= a.y
    &&& a.y + a.height <= outer.y + outer.height
}

/// `a` is one of the areas a split of `outer` along one axis gives: it lies
/// inside `outer` and spans the whole of it across the other axis.
pub open spec fn split_part(a: Area, outer: Area, vertical: bool) -> bool {
    &&& area_within(a, outer)
    &&& if vertical {
        a.x == outer.x && a.width == outer.width
    } else {
        a.y == outer.y && a.height == outer.height
    }
}

/// `area` with `margin` cells taken off each side; no area at all when the
/// margins do not fit.
pub open spec fn spec_area_inner(area: Area, margin: u16) -> Area {
    let double = if 2 * margin > u16::MAX {
        u16::MAX as int
    } else {
        2 * margin
    };
    if area.width < double || area.height < double {
        Area { x: 0, y: 0, width: 0, height: 0 }
    } else {
        Area {
            x: if area.x + margin > u16::MAX {
                u16::MAX
            } else {
                (area.x + margin) as u16
            },
            y: if area.y + margin > u16::MAX {
                u16::MAX
            } else {
                (area.y + margin) as u16
            },
            width: (area.width - double) as u16,
            height: (area.height - double) as u16,
        }
    }
}

/// ratatui's `Layout::new(direction, constraints).split(area)`, without a
/// margin: its constraint solver divides the area into one area for each
/// constraint, which it hands back beside the areas. Its source builds one
/// segment per constraint, keeps each one across the whole area on the
/// other axis, and holds every boundary between the start and the end of
/// the area with required constraints. Where along the main axis the
/// boundaries fall is left unsaid: the solver's choice among equally good
/// solutions depends on the order in which its hash maps are walked, and the
/// order of neighbouring segments rests on constraints weaker than required.
#[verifier::external_body]
fn split_area(area: Area, constraints: Vec<SizeConstraint>, vertical: bool) -> (r: (
    Vec<SizeConstraint>,
    Vec<Area>,
))
    ensures
        r.0@ == constraints@,
        r.1@.len() == constraints@.len(),
        forall|i: int| 0 <= i < r.1@.len() ==> split_part(#[trigger] r.1@[i], area, vertical),
{
    let direction = if vertical { Direction::Vertical } else { Direction::Horizontal };
    let cs: Vec<Constraint> = constraints.iter().map(|c| match c {
        SizeConstraint::Fill(w) => Constraint::Fill(*w),
        SizeConstraint::Length(l) => Constraint::Length(*l),
    }).collect();
    let rect = Rect { x: area.x, y: area.y, width: area.width, height: area.height };
    let rects = ratatui::layout::Layout::new(direction, cs).split(rect);
    (constraints, rects.iter().map(|r| Area { x: r.x, y: r.y, width: r.width, height: r.height }).collect())
}

/// `area` shrunk by `margin` cells on each side, or no area when the margins
/// do not fit: what ratatui's `Rect::inner` gives with the same margin on
/// the four sides.
pub fn area_inner(area: Area, margin: u16) -> (r: Area)
    ensures
        r == spec_area_inner(area, margin),
{
    let double: u16 = if margin > u16::MAX / 2 {
        u16::MAX
    } else {
        2 * margin
    };
    if area.width < double || area.height < double {
        return Area { x: 0, y: 0, width: 0, height: 0 };
    }
    let x: u16 = if area.x > u16::MAX - margin {
        u16::MAX
    } else {
        area.x + margin
    };
    let y: u16 = if area.y > u16::MAX - margin {
        u16::MAX
    } else {
        area.y + margin
    };
    Area { x, y, width: area.width - double, height: area.height - double }
}

/// The constraint a child asks its parent for.
pub open spec fn constraint_of(t: LayoutModel) -> SizeConstraint {
    match t.details.size_mode {
        SizeMode::Flex => SizeConstraint::Fill(t.details.flex),
        SizeMode::Length => SizeConstraint::Length(t.details.length),
    }
}

/// The areas a layout tree is split into: `constraints` are what a node's
/// children asked for, `areas` what they got, and `children` hold, for each
/// child, the split below it.
pub struct SplitTree {
    pub constraints: Vec<SizeConstraint>,
    pub areas: Vec<Area>,
    pub children: Vec<SplitTree>,
}

/// `s` has the shape of the tree `t`, for the node and its first `k`
/// children: the constraints the children ask for, and one area and one
/// subtree for each child.
pub open spec fn split_shaped_upto(t: LayoutModel, s: SplitTree, k: nat) -> bool
    decreases t, k,
{
    if k == 0 || k > t.children.len() {
        &&& s.constraints@ == t.children.map_values(|c: LayoutModel| constraint_of(c))
        &&& s.areas@.len() == t.children.len()
        &&& s.children@.len() == t.children.len()
    } else {
        let c = t.children[k - 1];
        split_shaped_upto(t, s, (k - 1) as nat) && split_shaped_upto(c, s.children@[k - 1], c.children.len())
    }
}

/// `s` has the shape of the tree `t`.
pub open spec fn split_shaped(t: LayoutModel, s: SplitTree) -> bool {
    split_shaped_upto(t, s, t.children.len())
}

/// The areas of `s` for the node `t` and its first `k` children are splits
/// along the node's main axis, each of the area its parent got.
pub open spec fn split_fits_upto(area: Area, t: LayoutModel, s: SplitTree, k: nat) -> bool
    decreases t, k,
{
    if k == 0 || k > t.children.len() {
        true
    } else {
        let c = t.children[k - 1];
        let a = s.areas@[k - 1];
        &&& split_fits_upto(area, t, s, (k - 1) as nat)
        &&& split_part(a, area, t.details.orientation == LayoutOrientation::Vertical)
        &&& split_fits_upto(a, c, s.children@[k - 1], c.children.len())
    }
}

/// The areas of `s` are splits of `area` down the tree `t`.
pub open spec fn split_fits(area: Area, t: LayoutModel, s: SplitTree) -> bool {
    split_fits_upto(area, t, s, t.children.len())
}

/// Where the sections of the node `t` and of its first `k` children are
/// drawn, given the areas `s` they are split into: a leaf with a section
/// gets its area less its margin, and each child in turn draws within its
/// own area.
pub open spec fn placed_upto(area: Area, t: LayoutModel, s: SplitTree, k: nat) -> Seq<ReadArea>
    decreases t, k,
{
    if k == 0 || k > t.children.len() {
        if t.section_index is Some && t.children.len() == 0 {
            seq![(t.section_index->0, spec_area_inner(area, t.details.margin), t.details.border_mode, t.details.padding)]
        } else {
            Seq::empty()
        }
    } else {
        let c = t.children[k - 1];
        placed_upto(area, t, s, (k - 1) as nat) + placed_upto(
            s.areas@[k - 1],
            c,
            s.children@[k - 1],
            c.children.len(),
        )
    }
}

/// Where the sections of the tree `t` are drawn within `area`, given the
/// areas `s` it is split into.
pub open spec fn placed(area: Area, t: LayoutModel, s: SplitTree) -> Seq<ReadArea> {
    placed_upto(area, t, s, t.children.len())
}

/// The constraints the children of `layout` ask for, in order.
fn child_constraints(layout: &Layout) -> (r: Vec<SizeConstraint>)
    ensures
        r@ == layout@.children.map_values(|c: LayoutModel| constraint_of(c)),
{
    let mut constraints: Vec<SizeConstraint> = Vec::new();
    let mut k: usize = 0;
    while k < layout.sub_layouts.len()
        invariant
            0 <= k <= layout.sub_layouts@.len(),
            constraints@ == layout@.children.take(k as int).map_values(|c: LayoutModel| constraint_of(c)),
        decreases layout.sub_layouts@.len() - k,
    {
        let sub = &layout.sub_layouts[k];
        let c = match sub.details.size_mode {
            SizeMode::Flex => SizeConstraint::Fill(sub.details.flex),
            SizeMode::Length => SizeConstraint::Length(sub.details.length),
        };
        constraints.push(c);
        k = k + 1;
        proof {
            assert(layout@.children[k - 1] == sub@);
            assert(constraints@ =~= layout@.children.take(k as int).map_values(
                |c: LayoutModel| constraint_of(c),
            ));
        }
    }
    proof {
        assert(layout@.children.take(k as int) =~= layout@.children);
    }
    constraints
}

/// Splits `area` down the tree `layout`: each node's area among its
/// children, as their constraints ask, along the node's main axis.
pub fn split_tree(area: Area, layout: &Layout) -> (s: SplitTree)
    ensures
        split_shaped(layout@, s),
        split_fits(area, layout@, s),
    decreases layout,
{
    let vertical = match layout.details.orientation {
        LayoutOrientation::Vertical => true,
        LayoutOrientation::Horizontal => false,
    };
    let (constraints, areas) = split_area(area, child_constraints(layout), vertical);
    let mut children: Vec<SplitTree> = Vec::new();
    let mut i: usize = 0;
    while i < layout.sub_layouts.len()
        invariant
            0 <= i <= layout.sub_layouts@.len(),
            constraints@ == layout@.children.map_values(|c: LayoutModel| constraint_of(c)),
            areas@.len() == layout.sub_layouts@.len(),
            children@.len() == i,
            forall|j: int| 0 <= j < areas@.len() ==> split_part(#[trigger] areas@[j], area, vertical),
            vertical == (layout@.details.orientation == LayoutOrientation::Vertical),
            forall|j: int|
                0 <= j < i ==> split_shaped(layout@.children[j], #[trigger] children@[j]) && split_fits(
                    areas@[j],
                    layout@.children[j],
                    children@[j],
                ),
        decreases layout.sub_layouts@.len() - i,
    {
        let sub = split_tree(areas[i], &layout.sub_layouts[i]);
        proof {
            assert(layout@.children[i as int] == layout.sub_layouts@[i as int]@);
        }
        children.push(sub);
        i = i + 1;
    }
    let s = SplitTree { constraints, areas, children };
    proof {
        lemma_split_tree_built(area, layout@, s, layout@.children.len());
    }
    s
}

/// A split tree whose children each fit their child of `t`, and whose
/// areas split `area`, fits `t` as a whole, for its first `k` children.
proof fn lemma_split_tree_built(area: Area, t: LayoutModel, s: SplitTree, k: nat)
    requires
        k <= t.children.len(),
        s.constraints@ == t.children.map_values(|c: LayoutModel| constraint_of(c)),
        s.areas@.len() == t.children.len(),
        s.children@.len() == t.children.len(),
        forall|j: int|
            0 <= j < s.areas@.len() ==> split_part(
                #[trigger] s.areas@[j],
                area,
                t.details.orientation == LayoutOrientation::Vertical,
            ),
        forall|j: int|
            0 <= j < t.children.len() ==> split_shaped(t.children[j], #[trigger] s.children@[j]) && split_fits(
                s.areas@[j],
                t.children[j],
                s.children@[j],
            ),
    ensures
        split_shaped_upto(t, s, k),
        split_fits_upto(area, t, s, k),
    decreases k,
{
    if k > 0 {
        lemma_split_tree_built(area, t, s, (k - 1) as nat);
        assert(split_part(s.areas@[k - 1], area, t.details.orientation == LayoutOrientation::Vertical));
        assert(split_shaped(t.children[k - 1], s.children@[k - 1]));
    }
}

/// Where the sections of `layout` are drawn within `area`, given the areas
/// `splits` its nodes are split into.
pub fn place_read_areas(area: Area, layout: &Layout, splits: &SplitTree) -> (r: Vec<ReadArea>)
    requires
        split_shaped(layout@, *splits),
    ensures
        r@ == placed(area, layout@, *splits),
    decreases layout,
{
    let mut areas: Vec<ReadArea> = Vec::new();
    if let Some(section_index) = layout.section_index {
        if layout.sub_layouts.len() == 0 {
            areas.push(
                (
                    section_index,
                    area_inner(area, layout.details.margin),
                    layout.details.border_mode,
                    layout.details.padding,
                ),
            );
        }
    }
    proof {
        assert(areas@ =~= placed_upto(area, layout@, *splits, 0));
        lemma_split_shaped_parts(layout@, *splits, layout@.children.len());
    }
    let mut i: usize = 0;
    while i < layout.sub_layouts.len()
        invariant
            0 <= i <= layout.sub_layouts@.len(),
            splits.areas@.len() == layout.sub_layouts@.len(),
            splits.children@.len() == layout.sub_layouts@.len(),
            forall|j: int|
                0 <= j < layout@.children.len() ==> split_shaped(
                    layout@.children[j],
                    #[trigger] splits.children@[j],
                ),
            areas@ == placed_upto(area, layout@, *splits, i as nat),
        decreases layout.sub_layouts@.len() - i,
    {
        proof {
            assert(layout@.children[i as int] == layout.sub_layouts@[i as int]@);
        }
        let part = place_read_areas(splits.areas[i], &layout.sub_layouts[i], &splits.children[i]);
        let mut part = part;
        areas.append(&mut part);
        i = i + 1;
    }
    areas
}

/// A tree of the shape of `t`, up to its `k`-th child, has one area and one
/// subtree for each child, and each subtree has the shape of its child.
proof fn lemma_split_shaped_parts(t: LayoutModel, s: SplitTree, k: nat)
    requires
        k <= t.children.len(),
        split_shaped_upto(t, s, k),
    ensures
        s.constraints@ == t.children.map_values(|c: LayoutModel| constraint_of(c)),
        s.areas@.len() == t.children.len(),
        s.children@.len() == t.children.len(),
        forall|j: int| 0 <= j < k ==> split_shaped(t.children[j], #[trigger] s.children@[j]),
    decreases k,
{
    if k > 0 {
        lemma_split_shaped_parts(t, s, (k - 1) as nat);
    }
}

/// In a split of a layout tree, each child asks its parent for the room its
/// own settings give: a flexible child a share weighted by its flex weight,
/// a child of fixed size its length; and each child's own split is made
/// the same way.
pub proof fn law_children_ask_for_their_settings(t: LayoutModel, s: SplitTree, i: int)
    requires
        split_shaped(t, s),
        0 <= i < t.children.len(),
    ensures
        s.constraints@.len() == t.children.len(),
        t.children[i].details.size_mode == SizeMode::Flex ==> s.constraints@[i] == SizeConstraint::Fill(
            t.children[i].details.flex,
        ),
        t.children[i].details.size_mode == SizeMode::Length ==> s.constraints@[i]
            == SizeConstraint::Length(t.children[i].details.length),
        split_shaped(t.children[i], s.children@[i]),
{
    lemma_split_shaped_parts(t, s, t.children.len());
}

/// Where the sections of `layout` are drawn within `area`: the area is split
/// down the tree, and the sections placed within the parts.
pub fn evaluate_read_areas(area: Area, layout: &Layout) -> (r: Vec<ReadArea>)
    ensures
        exists|s: SplitTree|
            split_shaped(layout@, s) && split_fits(area, layout@, s) && r@ == placed(area, layout@, s),
{
    let splits = split_tree(area, layout);
    place_read_areas(area, layout, &splits)
}

/// The area of the first entry with the given position.
pub fn find_section_area(areas: &Vec<ReadArea>, position: i64) -> (r: Option<ReadArea>)
    ensures
        match r {
            Some(a) => exists|k: int|
                0 <= k < areas@.len() && areas@[k] == a && a.0 as i64 == position && forall|j: int|
                    0 <= j < k ==> (#[trigger] areas@[j]).0 as i64 != position,
            None => forall|j: int| 0 <= j < areas@.len() ==> (#[trigger] areas@[j]).0 as i64 != position,
        },
{
    let mut k: usize = 0;
    while k < areas.len()
        invariant
            0 <= k <= areas@.len(),
            forall|j: int| 0 <= j < k ==> (#[trigger] areas@[j]).0 as i64 != position,
        decreases areas@.len() - k,
    {
        if areas[k].0 as i64 == position {
            return Some(areas[k]);
        }
        k = k + 1;
    }
    None
}

/// What the application does after a key in the reading view.
#[derive(Clone, Copy, PartialEq, Eq, Structural, Debug)]
pub enum ReadViewAction {
    Nothing,
    /// Give the focus back to the page.
    LeaveFocus,
    ScrollPageUp,
    ScrollPageDown,
    ScrollUp,
    ScrollDown,
    /// Ask for the path of a file to write the entry to, as it reads.
    AskExportPath,
}

/// The action of a key in the reading view.
pub open spec fn read_view_step(key: KeyEvent) -> ReadViewAction {
    if !key.is_press() {
        ReadViewAction::Nothing
    } else {
        match key.code {
            KeyCode::Esc => ReadViewAction::LeaveFocus,
            KeyCode::PageUp => ReadViewAction::ScrollPageUp,
            KeyCode::PageDown => ReadViewAction::ScrollPageDown,
            KeyCode::Up => ReadViewAction::ScrollUp,
            KeyCode::Down => ReadViewAction::ScrollDown,
            KeyCode::Char(c) => if c == 'P' {
                ReadViewAction::AskExportPath
            } else {
                ReadViewAction::Nothing
            },
            _ => ReadViewAction::Nothing,
        }
    }
}

/// Acts on a key in the reading view: Esc gives the focus back, the page
/// keys and Up and Down scroll, and `P` asks where to write the entry.
pub fn read_view_key(key: &KeyEvent) -> (r: ReadViewAction)
    ensures
        r == read_view_step(*key),
{
    if key.kind != KeyEventKind::Press {
        return ReadViewAction::Nothing;
    }
    match key.code {
        KeyCode::Esc => ReadViewAction::LeaveFocus,
        KeyCode::PageUp => ReadViewAction::ScrollPageUp,
        KeyCode::PageDown => ReadViewAction::ScrollPageDown,
        KeyCode::Up => ReadViewAction::ScrollUp,
        KeyCode::Down => ReadViewAction::ScrollDown,
        KeyCode::Char(c) => {
            if c == 'P' {
                ReadViewAction::AskExportPath
            } else {
                ReadViewAction::Nothing
            }
        },
        _ => ReadViewAction::Nothing,
    }
}

} // verus!

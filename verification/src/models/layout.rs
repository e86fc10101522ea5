use vstd::prelude::*;

verus! {

/// Orientation of the main axis along which a layout places its children.
#[derive(Clone, Copy, PartialEq, Eq, Structural, Debug)]
pub enum LayoutOrientation {
    Horizontal,
    Vertical,
}

/// How the size of a layout along its parent's main axis is decided.
#[derive(Clone, Copy, PartialEq, Eq, Structural, Debug)]
pub enum SizeMode {
    Length,
    Flex,
}

/// The border drawn around a layout.
#[derive(Clone, Copy, PartialEq, Eq, Structural, Debug)]
pub enum BorderMode {
    Borderless,
    Plain,
    Dashed,
    Rounded,
}

/// Presentation settings of one node of a layout tree.
#[derive(Clone, Copy, PartialEq, Eq, Structural, Debug)]
pub struct LayoutDetails {
    pub size_mode: SizeMode,
    pub border_mode: BorderMode,
    pub length: u16,
    pub flex: u16,
    pub padding: u16,
    pub margin: u16,
    /// Orientation of the main axis for the children.
    pub orientation: LayoutOrientation,
}

/// The mathematical value of a layout tree: a rose tree whose nodes carry
/// a label, an optional section index and presentation details.
#[verifier::ext_equal]
pub struct LayoutModel {
    pub label: Seq<char>,
    pub section_index: Option<u16>,
    pub details: LayoutDetails,
    pub children: Seq<LayoutModel>,
}

/// A node of the layout tree of an entry.
pub struct Layout {
    pub label: String,
    pub section_index: Option<u16>,
    pub sub_layouts: Vec<Layout>,
    pub details: LayoutDetails,
}

impl Layout {
    pub open spec fn model(self) -> LayoutModel
        decreases self,
    {
        LayoutModel {
            label: self.label@,
            section_index: self.section_index,
            details: self.details,
            children: Seq::new(
                self.sub_layouts@.len(),
                |i: int|
                    {
                        if 0 <= i < self.sub_layouts@.len() {
                            proof {
                                broadcast use vstd::std_specs::vec::axiom_vec_index_decreases;
                            }
                            self.sub_layouts@[i].model()
                        } else {
                            self.model_leaf()
                        }
                    },
            ),
        }
    }

    pub open spec fn model_leaf(self) -> LayoutModel {
        LayoutModel {
            label: self.label@,
            section_index: self.section_index,
            details: self.details,
            children: Seq::empty(),
        }
    }
}

/// The model of a layout holds its own fields and, in order, the models of
/// its children.
pub proof fn lemma_model_of_layout(l: Layout)
    ensures
        l@.label == l.label@,
        l@.section_index == l.section_index,
        l@.details == l.details,
        l@.children.len() == l.sub_layouts@.len(),
        forall|i: int| 0 <= i < l.sub_layouts@.len() ==> l@.children[i] == (#[trigger] l.sub_layouts@[i])@,
{
}

impl View for Layout {
    type V = LayoutModel;

    open spec fn view(&self) -> LayoutModel {
        self.model()
    }
}

impl LayoutModel {
    /// `path` names a node of the tree: each index selects a child of the node before it.
    pub open spec fn valid_path(self, path: Seq<usize>) -> bool
        decreases path.len(),
    {
        path.len() == 0 || (path[0] < self.children.len() && self.children[path[0] as int].valid_path(
            path.drop_first(),
        ))
    }

    /// A node with the given label, no section, default details and no children.
    pub open spec fn leaf(label: Seq<char>) -> LayoutModel {
        LayoutModel {
            label,
            section_index: None,
            details: LayoutDetails::spec_new(),
            children: Seq::empty(),
        }
    }

    /// The node with its label and details replaced.
    pub open spec fn with_label_details(self, label: Seq<char>, details: LayoutDetails) -> LayoutModel {
        LayoutModel { label, details, ..self }
    }

    /// The node with `c` appended to its children.
    pub open spec fn push_child(self, c: LayoutModel) -> LayoutModel {
        LayoutModel { children: self.children.push(c), ..self }
    }

    /// The node with its child at `i` taken out.
    pub open spec fn remove_child(self, i: int) -> LayoutModel {
        LayoutModel { children: self.children.remove(i), ..self }
    }

    /// The tree with the node that the non-empty `path` names taken out of its parent.
    pub open spec fn remove_at(self, path: Seq<usize>) -> LayoutModel {
        self.replace_at(path.drop_last(), self.at(path.drop_last()).remove_child(path.last() as int))
    }

    /// The node with its child at `i` replaced by `c`.
    pub open spec fn replace_child(self, i: int, c: LayoutModel) -> LayoutModel {
        LayoutModel { children: self.children.update(i, c), ..self }
    }

    /// The subtree that `path` names.
    pub open spec fn at(self, path: Seq<usize>) -> LayoutModel
        decreases path.len(),
    {
        if path.len() == 0 {
            self
        } else {
            self.children[path[0] as int].at(path.drop_first())
        }
    }

    /// The tree with the subtree that `path` names replaced by `node`.
    pub open spec fn replace_at(self, path: Seq<usize>, node: LayoutModel) -> LayoutModel
        decreases path.len(),
    {
        if path.len() == 0 {
            node
        } else {
            self.replace_child(
                path[0] as int,
                self.children[path[0] as int].replace_at(path.drop_first(), node),
            )
        }
    }
}

fn layout_at<'a>(node: &'a Layout, path: &Vec<usize>, i: usize, end: usize) -> (r: &'a Layout)
    requires
        i <= end <= path@.len(),
        node@.valid_path(path@.subrange(i as int, end as int)),
    ensures
        r@ == node@.at(path@.subrange(i as int, end as int)),
    decreases end - i,
{
    if i == end {
        node
    } else {
        let idx = path[i];
        proof {
            assert(path@.subrange(i as int, end as int).drop_first() =~= path@.subrange(
                i + 1,
                end as int,
            ));
        }
        layout_at(&node.sub_layouts[idx], path, i + 1, end)
    }
}

/// Whether `path@.subrange(i, end)` names a node under `node`.
fn path_in(node: &Layout, path: &Vec<usize>, i: usize, end: usize) -> (r: bool)
    requires
        i <= end <= path@.len(),
    ensures
        r == node@.valid_path(path@.subrange(i as int, end as int)),
    decreases end - i,
{
    if i == end {
        true
    } else {
        let idx = path[i];
        proof {
            assert(path@.subrange(i as int, end as int).drop_first() =~= path@.subrange(
                i + 1,
                end as int,
            ));
        }
        if idx >= node.sub_layouts.len() {
            false
        } else {
            path_in(&node.sub_layouts[idx], path, i + 1, end)
        }
    }
}

/// Replacing one child of a node changes the model of the node at that child only.
proof fn lemma_model_child_update(old: Layout, idx: int)
    requires
        0 <= idx < old.sub_layouts@.len(),
    ensures
        forall|l: Layout|
            #![trigger l.model()]
            l.label == old.label && l.section_index == old.section_index && l.details == old.details
                && l.sub_layouts@ == old.sub_layouts@.update(idx, l.sub_layouts@[idx]) ==> l.model()
                == old.model().replace_child(idx, l.sub_layouts@[idx].model()),
{
    assert forall|l: Layout|
        #![trigger l.model()]
        l.label == old.label && l.section_index == old.section_index && l.details == old.details
            && l.sub_layouts@ == old.sub_layouts@.update(idx, l.sub_layouts@[idx]) implies l.model()
            == old.model().replace_child(idx, l.sub_layouts@[idx].model()) by {
        assert(l.model().children =~= old.model().children.update(idx, l.sub_layouts@[idx].model()));
    }
}

fn layout_at_mut<'a>(node: &'a mut Layout, path: &Vec<usize>, i: usize, end: usize) -> (r:
    &'a mut Layout)
    requires
        i <= end <= path@.len(),
        old(node)@.valid_path(path@.subrange(i as int, end as int)),
    ensures
        r@ == old(node)@.at(path@.subrange(i as int, end as int)),
        final(node)@ == old(node)@.replace_at(path@.subrange(i as int, end as int), final(r)@),
    decreases end - i,
{
    if i == end {
        node
    } else {
        let idx = path[i];
        proof {
            assert(path@.subrange(i as int, end as int).drop_first() =~= path@.subrange(
                i + 1,
                end as int,
            ));
            lemma_model_child_update(*node, idx as int);
        }
        let child = &mut node.sub_layouts[idx];
        layout_at_mut(child, path, i + 1, end)
    }
}

/// A path that names a node is made of a path that names its parent and one more index.
pub proof fn lemma_valid_path_parent(t: LayoutModel, p: Seq<usize>)
    requires
        p.len() > 0,
        t.valid_path(p),
    ensures
        t.valid_path(p.drop_last()),
        p.last() < t.at(p.drop_last()).children.len(),
        t.at(p) == t.at(p.drop_last()).children[p.last() as int],
    decreases p.len(),
{
    reveal_with_fuel(LayoutModel::at, 2);
    reveal_with_fuel(LayoutModel::valid_path, 2);
    if p.len() > 1 {
        let c = t.children[p[0] as int];
        lemma_valid_path_parent(c, p.drop_first());
        assert(p.drop_first().drop_last() =~= p.drop_last().drop_first());
    }
}

/// Extending a path to a node by the index of one of its children names that child.
pub proof fn lemma_valid_path_child(t: LayoutModel, p: Seq<usize>, i: usize)
    requires
        t.valid_path(p),
        i < t.at(p).children.len(),
    ensures
        t.valid_path(p.push(i)),
        t.at(p.push(i)) == t.at(p).children[i as int],
        p.push(i).drop_last() == p,
    decreases p.len(),
{
    reveal_with_fuel(LayoutModel::at, 2);
    reveal_with_fuel(LayoutModel::valid_path, 2);
    assert(p.push(i).drop_last() =~= p);
    if p.len() > 0 {
        let c = t.children[p[0] as int];
        lemma_valid_path_child(c, p.drop_first(), i);
        assert(p.push(i).drop_first() =~= p.drop_first().push(i));
        assert(p.push(i)[0] == p[0]);
    } else {
        assert(p.push(i).drop_first() =~= Seq::<usize>::empty());
    }
}

/// `q` is a prefix of `p`: the node that `q` names is `p`'s node or one of its ancestors.
pub open spec fn is_prefix_of(q: Seq<usize>, p: Seq<usize>) -> bool {
    q.len() <= p.len() && forall|j: int| 0 <= j < q.len() ==> q[j] == p[j]
}

/// What is written at a node is read back there: after the node that `p`
/// names is replaced by `n`, `p` still names a node, and that node is `n`.
pub proof fn law_read_after_write(t: LayoutModel, p: Seq<usize>, n: LayoutModel)
    requires
        t.valid_path(p),
    ensures
        t.replace_at(p, n).valid_path(p),
        t.replace_at(p, n).at(p) == n,
    decreases p.len(),
{
    if p.len() > 0 {
        law_read_after_write(t.children[p[0] as int], p.drop_first(), n);
    }
}

/// Replacing a node by one with the same children keeps the shape of the
/// tree, and every node that is not the replaced one or one of its ancestors.
pub proof fn law_replace_keeps_shape_and_others(
    t: LayoutModel,
    p: Seq<usize>,
    n: LayoutModel,
    q: Seq<usize>,
)
    requires
        t.valid_path(p),
        n.children == t.at(p).children,
    ensures
        t.replace_at(p, n).valid_path(q) == t.valid_path(q),
        t.valid_path(q) && !is_prefix_of(q, p) ==> t.replace_at(p, n).at(q) == t.at(q),
    decreases p.len(),
{
    let u = t.replace_at(p, n);
    if p.len() == 0 {
        if q.len() > 0 {
            assert(!is_prefix_of(q, p));
        }
    } else if q.len() > 0 {
        let i = p[0] as int;
        assert(u.children.len() == t.children.len());
        if q[0] as int == i {
            law_replace_keeps_shape_and_others(t.children[i], p.drop_first(), n, q.drop_first());
            if is_prefix_of(q.drop_first(), p.drop_first()) {
                assert forall|j: int| 0 <= j < q.len() implies q[j] == p[j] by {
                    if j > 0 {
                        assert(q[j] == q.drop_first()[j - 1]);
                    }
                }
            }
        } else if q[0] < t.children.len() {
            assert(u.children[q[0] as int] == t.children[q[0] as int]);
        }
    } else {
        assert(is_prefix_of(q, p));
    }
}

/// Appending a child under a node and then removing the node at the new
/// child's coordinates gives back the tree one started from.
pub proof fn law_insert_then_remove_restores(t: LayoutModel, p: Seq<usize>, x: LayoutModel)
    requires
        t.valid_path(p),
        t.at(p).children.len() < usize::MAX,
    ensures
        ({
            let k = t.at(p).children.len();
            let q = p.push(k as usize);
            let u = t.replace_at(p, t.at(p).push_child(x));
            &&& u.valid_path(q)
            &&& u.at(q) == x
            &&& u.remove_at(q) == t
        }),
{
    let k = t.at(p).children.len();
    let q = p.push(k as usize);
    let a = t.at(p).push_child(x);
    let u = t.replace_at(p, a);
    law_read_after_write(t, p, a);
    lemma_valid_path_child(u, p, k as usize);
    assert(q.drop_last() =~= p);
    assert(a.children.remove(k as int) =~= t.at(p).children);
    assert(a.remove_child(k as int) =~= t.at(p));
    lemma_replace_twice(t, p, a, t.at(p));
    lemma_replace_with_self(t, p);
}

/// Replacing a node twice leaves only the second replacement.
pub proof fn lemma_replace_twice(t: LayoutModel, p: Seq<usize>, a: LayoutModel, b: LayoutModel)
    requires
        t.valid_path(p),
    ensures
        t.replace_at(p, a).replace_at(p, b) == t.replace_at(p, b),
    decreases p.len(),
{
    if p.len() > 0 {
        let i = p[0] as int;
        lemma_replace_twice(t.children[i], p.drop_first(), a, b);
        assert(t.replace_at(p, a).replace_at(p, b).children =~= t.replace_at(p, b).children);
    }
}

/// Replacing a node by itself leaves the tree as it was.
pub proof fn lemma_replace_with_self(t: LayoutModel, p: Seq<usize>)
    requires
        t.valid_path(p),
    ensures
        t.replace_at(p, t.at(p)) == t,
    decreases p.len(),
{
    if p.len() > 0 {
        let i = p[0] as int;
        lemma_replace_with_self(t.children[i], p.drop_first());
        assert(t.replace_at(p, t.at(p)).children =~= t.children);
    }
}

impl Layout {
    /// Creates a leaf layout with the given label, no section and default details.
    pub fn new(label: &str) -> (r: Self)
        ensures
            r@ == LayoutModel::leaf(label@),
    {
        broadcast use vstd::string::group_string_axioms;

        let r = Self {
            label: label.to_string(),
            section_index: None,
            sub_layouts: Vec::new(),
            details: LayoutDetails::new(),
        };
        assert(r@.children =~= Seq::<LayoutModel>::empty());
        r
    }

    /// The layout that `coordinates` names, each coordinate selecting a child
    /// of the layout before it.
    pub fn get_layout_at_ref(&self, coordinates: &Vec<usize>) -> (r: Option<&Layout>)
        requires
            self@.valid_path(coordinates@),
        ensures
            r is Some,
            r->0@ == self@.at(coordinates@),
    {
        proof {
            assert(coordinates@.subrange(0, coordinates@.len() as int) =~= coordinates@);
        }
        Some(layout_at(self, coordinates, 0, coordinates.len()))
    }

    /// Whether `coordinates` names a node of the layout.
    pub fn has_path(&self, coordinates: &Vec<usize>) -> (r: bool)
        ensures
            r == self@.valid_path(coordinates@),
    {
        proof {
            assert(coordinates@.subrange(0, coordinates@.len() as int) =~= coordinates@);
        }
        path_in(self, coordinates, 0, coordinates.len())
    }

    /// A mutable borrow of the layout that `coordinates` names; what is written
    /// through it becomes that node of the tree.
    pub fn get_layout_at_mut(&mut self, coordinates: &Vec<usize>) -> (r: Option<&mut Layout>)
        requires
            old(self)@.valid_path(coordinates@),
        ensures
            r is Some,
            r->0@ == old(self)@.at(coordinates@),
            final(self)@ == old(self)@.replace_at(coordinates@, final(r->0)@),
    {
        proof {
            assert(coordinates@.subrange(0, coordinates@.len() as int) =~= coordinates@);
        }
        Some(layout_at_mut(self, coordinates, 0, coordinates.len()))
    }

    /// Copies the label and the details of `layout` into the node that
    /// `coordinates` names; its section and its children stay.
    pub fn update_layout_at(&mut self, layout: &Layout, coordinates: &Vec<usize>)
        requires
            old(self)@.valid_path(coordinates@),
        ensures
            final(self)@ == old(self)@.replace_at(
                coordinates@,
                old(self)@.at(coordinates@).with_label_details(layout@.label, layout@.details),
            ),
    {
        if let Some(target) = self.get_layout_at_mut(coordinates) {
            let ghost before = *target;
            target.label = layout.label.clone();
            target.details = layout.details;
            assert(target@.children =~= before@.children);
        }
    }

    /// Appends `layout` as the last child of the node that `coordinates` names.
    pub fn insert_sublayout_under(&mut self, layout: Layout, coordinates: &Vec<usize>)
        requires
            old(self)@.valid_path(coordinates@),
        ensures
            final(self)@ == old(self)@.replace_at(
                coordinates@,
                old(self)@.at(coordinates@).push_child(layout@),
            ),
    {
        if coordinates.len() == 0 {
            let ghost before = *self;
            self.sub_layouts.push(layout);
            assert(self@.children =~= before@.children.push(layout@));
        } else {
            if let Some(target) = self.get_layout_at_mut(coordinates) {
                let ghost before = *target;
                target.sub_layouts.push(layout);
                assert(target@.children =~= before@.children.push(layout@));
            }
        }
    }

    /// Removes the node that `coordinates` names from the children of its parent.
    pub fn remove_sublayout(&mut self, coordinates: &Vec<usize>) -> (r: Result<(), LayoutError>)
        requires
            coordinates@.len() > 0,
            old(self)@.valid_path(coordinates@),
        ensures
            r is Ok,
            final(self)@ == old(self)@.remove_at(coordinates@),
    {
        let end = coordinates.len() - 1;
        let index = coordinates[end];
        proof {
            lemma_valid_path_parent(self@, coordinates@);
            assert(coordinates@.subrange(0, end as int) =~= coordinates@.drop_last());
        }
        let target = layout_at_mut(self, coordinates, 0, end);
        let ghost before = *target;
        target.sub_layouts.remove(index);
        assert(target@.children =~= before@.children.remove(index as int));
        Ok(())
    }
}

impl LayoutDetails {
    /// Default details: flexible size with weight one, no border, no padding
    /// or margin, a length of 42 and a vertical main axis.
    pub fn new() -> (r: Self)
        ensures
            r == LayoutDetails::spec_new(),
    {
        Self {
            size_mode: SizeMode::Flex,
            border_mode: BorderMode::Borderless,
            length: 42,
            flex: 1,
            padding: 0,
            margin: 0,
            orientation: LayoutOrientation::Vertical,
        }
    }

    pub open spec fn spec_new() -> LayoutDetails {
        LayoutDetails {
            size_mode: SizeMode::Flex,
            border_mode: BorderMode::Borderless,
            length: 42,
            flex: 1,
            padding: 0,
            margin: 0,
            orientation: LayoutOrientation::Vertical,
        }
    }
}

/// Why a layout operation was refused.
#[derive(Clone, Copy, PartialEq, Eq, Structural, Debug)]
pub enum LayoutError {
    /// No layout stands at the given coordinates.
    Missing,
}

} // verus!

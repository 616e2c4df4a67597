//! The widget tree: a closed set of node kinds with build, layout and draw
//! passes, and hit-testing for input dispatch.
//!
//! Layout is a single pass: constraints flow top-down (available width and
//! height), sizes are reported bottom-up, and a widget's size is a pure
//! function of the constraints it is given and its children's reported
//! sizes. Drawing emits vertex batches depth-first in tree order, so later
//! siblings paint over earlier ones.

use vstd::prelude::*;

use crate::vertex::{quad_spec, Rgba, Vertex};

verus! {

/// A reported size, in logical pixels.
#[derive(Clone, Copy, Debug, PartialEq, Eq, Structural)]
pub struct Size {
    pub width: u32,
    pub height: u32,
}

/// Layout constraints handed down to a widget: the space available to it.
#[derive(Clone, Copy, Debug, PartialEq, Eq, Structural)]
pub struct Constraints {
    pub max_width: u32,
    pub max_height: u32,
}

/// A node of the widget tree: a leaf panel, or a container stacking its
/// children vertically or horizontally. Children are owned by their
/// parent: the tree is a tree, not a graph.
#[verifier::ext_equal]
#[derive(Debug, PartialEq)]
pub enum WidgetNode {
    /// A colored rectangle asking for a fixed size.
    Panel { id: u64, width: u32, height: u32, color: Rgba },
    /// Stacks its children top to bottom.
    Column { id: u64, children: Vec<WidgetNode> },
    /// Stacks its children left to right.
    Row { id: u64, children: Vec<WidgetNode> },
}

/// The smaller of two lengths.
pub open spec fn min_u32(a: u32, b: u32) -> u32 {
    if a <= b {
        a
    } else {
        b
    }
}

/// The larger of two lengths.
pub open spec fn max_u32(a: u32, b: u32) -> u32 {
    if a >= b {
        a
    } else {
        b
    }
}

/// `a - b`, floored at zero.
pub open spec fn sub_floor(a: u32, b: u32) -> u32 {
    if b <= a {
        (a - b) as u32
    } else {
        0
    }
}

/// `a + b`, capped at `cap`.
pub open spec fn add_capped(a: u32, b: u32, cap: u32) -> u32 {
    if a + b <= cap {
        (a + b) as u32
    } else {
        cap
    }
}

/// The constraints left for the siblings below a child of `height` in a
/// vertical stack.
pub open spec fn remaining_below(c: Constraints, height: u32) -> Constraints {
    Constraints { max_width: c.max_width, max_height: sub_floor(c.max_height, height) }
}

/// The constraints left for the siblings right of a child of `width` in a
/// horizontal stack.
pub open spec fn remaining_beside(c: Constraints, width: u32) -> Constraints {
    Constraints { max_width: sub_floor(c.max_width, width), max_height: c.max_height }
}

/// The size a widget reports under the given constraints. A panel asks for
/// its fixed size, clamped to the constraints; a column reports the widest
/// child and the sum of child heights; a row, symmetrically. Each child of
/// a stack is laid out in the space its earlier siblings left over.
pub open spec fn spec_layout(w: WidgetNode, c: Constraints) -> Size
    decreases w, 0int,
{
    match w {
        WidgetNode::Panel { width, height, .. } => Size {
            width: min_u32(width, c.max_width),
            height: min_u32(height, c.max_height),
        },
        WidgetNode::Column { children, .. } => spec_stack_v(children@, 0, c),
        WidgetNode::Row { children, .. } => spec_stack_h(children@, 0, c),
    }
}

/// The size of the vertical stack of `s[i..]` under `c`.
pub open spec fn spec_stack_v(s: Seq<WidgetNode>, i: int, c: Constraints) -> Size
    decreases s, s.len() - i,
{
    if i < 0 || i >= s.len() {
        Size { width: 0, height: 0 }
    } else {
        let first = spec_layout(s[i], c);
        let rest = spec_stack_v(s, i + 1, remaining_below(c, first.height));
        Size {
            width: max_u32(first.width, rest.width),
            height: add_capped(first.height, rest.height, c.max_height),
        }
    }
}

/// The size of the horizontal stack of `s[i..]` under `c`.
pub open spec fn spec_stack_h(s: Seq<WidgetNode>, i: int, c: Constraints) -> Size
    decreases s, s.len() - i,
{
    if i < 0 || i >= s.len() {
        Size { width: 0, height: 0 }
    } else {
        let first = spec_layout(s[i], c);
        let rest = spec_stack_h(s, i + 1, remaining_beside(c, first.width));
        Size {
            width: add_capped(first.width, rest.width, c.max_width),
            height: max_u32(first.height, rest.height),
        }
    }
}

/// A reported size never exceeds the constraints it was computed under.
pub proof fn lemma_layout_fits(w: WidgetNode, c: Constraints)
    ensures
        spec_layout(w, c).width <= c.max_width,
        spec_layout(w, c).height <= c.max_height,
    decreases w, 0int,
{
    match w {
        WidgetNode::Panel { .. } => {},
        WidgetNode::Column { children, .. } => lemma_stack_v_fits(children@, 0, c),
        WidgetNode::Row { children, .. } => lemma_stack_h_fits(children@, 0, c),
    }
}

proof fn lemma_stack_v_fits(s: Seq<WidgetNode>, i: int, c: Constraints)
    ensures
        spec_stack_v(s, i, c).width <= c.max_width,
        spec_stack_v(s, i, c).height <= c.max_height,
    decreases s, s.len() - i,
{
    if 0 <= i < s.len() {
        lemma_layout_fits(s[i], c);
        let first = spec_layout(s[i], c);
        lemma_stack_v_fits(s, i + 1, remaining_below(c, first.height));
    }
}

proof fn lemma_stack_h_fits(s: Seq<WidgetNode>, i: int, c: Constraints)
    ensures
        spec_stack_h(s, i, c).width <= c.max_width,
        spec_stack_h(s, i, c).height <= c.max_height,
    decreases s, s.len() - i,
{
    if 0 <= i < s.len() {
        lemma_layout_fits(s[i], c);
        let first = spec_layout(s[i], c);
        lemma_stack_h_fits(s, i + 1, remaining_beside(c, first.width));
    }
}

/// Lays out one node: reports the size it takes under `c`.
pub fn layout_node(w: &WidgetNode, c: Constraints) -> (s: Size)
    ensures
        s == spec_layout(*w, c),
    decreases *w, 0int,
{
    match w {
        WidgetNode::Panel { width, height, .. } => Size {
            width: if *width <= c.max_width {
                *width
            } else {
                c.max_width
            },
            height: if *height <= c.max_height {
                *height
            } else {
                c.max_height
            },
        },
        WidgetNode::Column { children, .. } => layout_stack_v(children, 0, c),
        WidgetNode::Row { children, .. } => layout_stack_h(children, 0, c),
    }
}

fn layout_stack_v(children: &Vec<WidgetNode>, i: usize, c: Constraints) -> (s: Size)
    requires
        i <= children@.len(),
    ensures
        s == spec_stack_v(children@, i as int, c),
    decreases children@, children@.len() - i,
{
    if i == children.len() {
        Size { width: 0, height: 0 }
    } else {
        let first = layout_node(&children[i], c);
        let rest = layout_stack_v(children, i + 1, remaining_below_exec(c, first.height));
        Size {
            width: if first.width >= rest.width {
                first.width
            } else {
                rest.width
            },
            height: if first.height as u64 + rest.height as u64 <= c.max_height as u64 {
                first.height + rest.height
            } else {
                c.max_height
            },
        }
    }
}

fn layout_stack_h(children: &Vec<WidgetNode>, i: usize, c: Constraints) -> (s: Size)
    requires
        i <= children@.len(),
    ensures
        s == spec_stack_h(children@, i as int, c),
    decreases children@, children@.len() - i,
{
    if i == children.len() {
        Size { width: 0, height: 0 }
    } else {
        let first = layout_node(&children[i], c);
        let rest = layout_stack_h(children, i + 1, remaining_beside_exec(c, first.width));
        Size {
            width: if first.width as u64 + rest.width as u64 <= c.max_width as u64 {
                first.width + rest.width
            } else {
                c.max_width
            },
            height: if first.height >= rest.height {
                first.height
            } else {
                rest.height
            },
        }
    }
}

fn remaining_below_exec(c: Constraints, height: u32) -> (r: Constraints)
    ensures
        r == remaining_below(c, height),
{
    Constraints {
        max_width: c.max_width,
        max_height: if height <= c.max_height {
            c.max_height - height
        } else {
            0
        },
    }
}

fn remaining_beside_exec(c: Constraints, width: u32) -> (r: Constraints)
    ensures
        r == remaining_beside(c, width),
{
    Constraints {
        max_width: if width <= c.max_width {
            c.max_width - width
        } else {
            0
        },
        max_height: c.max_height,
    }
}

/// True when drawing at `(x, y)` under `c` stays within the coordinate
/// type: the far corner of the constrained area still fits.
pub open spec fn origin_fits(x: i64, y: i64, c: Constraints) -> bool {
    &&& x + c.max_width <= i64::MAX
    &&& y + c.max_height <= i64::MAX
}

/// The vertices a widget emits when drawn with its top-left corner at
/// `(x, y)` under constraints `c`: a panel emits one quad of its laid-out
/// size; a stack draws its children in order, each offset past the space
/// its earlier siblings took, so later siblings paint over earlier ones.
pub open spec fn spec_draw(w: WidgetNode, x: i64, y: i64, c: Constraints) -> Seq<Vertex>
    decreases w, 0int,
{
    match w {
        WidgetNode::Panel { color, .. } => {
            let size = spec_layout(w, c);
            quad_spec(size.width as i64, size.height as i64, x, y, color)
        },
        WidgetNode::Column { children, .. } => spec_draw_v(children@, 0, x, y, c),
        WidgetNode::Row { children, .. } => spec_draw_h(children@, 0, x, y, c),
    }
}

/// The vertices of the vertical stack of `s[i..]` drawn at `(x, y)`.
pub open spec fn spec_draw_v(s: Seq<WidgetNode>, i: int, x: i64, y: i64, c: Constraints) -> Seq<
    Vertex,
>
    decreases s, s.len() - i,
{
    if i < 0 || i >= s.len() {
        Seq::empty()
    } else {
        let size = spec_layout(s[i], c);
        spec_draw(s[i], x, y, c) + spec_draw_v(
            s,
            i + 1,
            x,
            (y + size.height) as i64,
            remaining_below(c, size.height),
        )
    }
}

/// The vertices of the horizontal stack of `s[i..]` drawn at `(x, y)`.
pub open spec fn spec_draw_h(s: Seq<WidgetNode>, i: int, x: i64, y: i64, c: Constraints) -> Seq<
    Vertex,
>
    decreases s, s.len() - i,
{
    if i < 0 || i >= s.len() {
        Seq::empty()
    } else {
        let size = spec_layout(s[i], c);
        spec_draw(s[i], x, y, c) + spec_draw_h(
            s,
            i + 1,
            (x + size.width) as i64,
            y,
            remaining_beside(c, size.width),
        )
    }
}

/// Draws one node: appends its vertices to `out`, depth-first in tree
/// order.
pub fn draw_node(w: &WidgetNode, x: i64, y: i64, c: Constraints, out: &mut Vec<Vertex>)
    requires
        origin_fits(x, y, c),
    ensures
        final(out)@ == old(out)@ + spec_draw(*w, x, y, c),
    decreases *w, 0int,
{
    match w {
        WidgetNode::Panel { color, .. } => {
            let size = layout_node(w, c);
            proof {
                lemma_layout_fits(*w, c);
            }
            let mut q = Vertex::quad_colored(size.width as i64, size.height as i64, x, y, *color);
            out.append(&mut q);
        },
        WidgetNode::Column { children, .. } => {
            draw_stack_v(children, 0, x, y, c, out);
        },
        WidgetNode::Row { children, .. } => {
            draw_stack_h(children, 0, x, y, c, out);
        },
    }
}

fn draw_stack_v(
    children: &Vec<WidgetNode>,
    i: usize,
    x: i64,
    y: i64,
    c: Constraints,
    out: &mut Vec<Vertex>,
)
    requires
        i <= children@.len(),
        origin_fits(x, y, c),
    ensures
        final(out)@ == old(out)@ + spec_draw_v(children@, i as int, x, y, c),
    decreases children@, children@.len() - i,
{
    if i == children.len() {
        assert(out@ =~= old(out)@ + spec_draw_v(children@, i as int, x, y, c));
    } else {
        let size = layout_node(&children[i], c);
        proof {
            lemma_layout_fits(children@[i as int], c);
        }
        draw_node(&children[i], x, y, c, out);
        let y2 = y + size.height as i64;
        let rem = remaining_below_exec(c, size.height);
        draw_stack_v(children, i + 1, x, y2, rem, out);
        assert(out@ =~= old(out)@ + spec_draw_v(children@, i as int, x, y, c));
    }
}

fn draw_stack_h(
    children: &Vec<WidgetNode>,
    i: usize,
    x: i64,
    y: i64,
    c: Constraints,
    out: &mut Vec<Vertex>,
)
    requires
        i <= children@.len(),
        origin_fits(x, y, c),
    ensures
        final(out)@ == old(out)@ + spec_draw_h(children@, i as int, x, y, c),
    decreases children@, children@.len() - i,
{
    if i == children.len() {
        assert(out@ =~= old(out)@ + spec_draw_h(children@, i as int, x, y, c));
    } else {
        let size = layout_node(&children[i], c);
        proof {
            lemma_layout_fits(children@[i as int], c);
        }
        draw_node(&children[i], x, y, c, out);
        let x2 = x + size.width as i64;
        let rem = remaining_beside_exec(c, size.width);
        draw_stack_h(children, i + 1, x2, y, rem, out);
        assert(out@ =~= old(out)@ + spec_draw_h(children@, i as int, x, y, c));
    }
}

/// True when the point `(px, py)` lies within the rectangle at `(x, y)` of
/// the given size; edges are half-open.
pub open spec fn spec_contains(x: i64, y: i64, size: Size, px: i64, py: i64) -> bool {
    &&& x <= px < x + size.width
    &&& y <= py < y + size.height
}

/// The widget an input event at `(px, py)` is delivered to: the topmost
/// node whose laid-out bounds contain the point. Later siblings paint over
/// earlier ones and children over their parent, so a hit in a later
/// sibling's subtree wins over an earlier one's, and a child over its
/// container.
pub open spec fn spec_hit(
    w: WidgetNode,
    x: i64,
    y: i64,
    c: Constraints,
    px: i64,
    py: i64,
) -> Option<u64>
    decreases w, 0int,
{
    match w {
        WidgetNode::Panel { id, .. } => {
            if spec_contains(x, y, spec_layout(w, c), px, py) {
                Some(id)
            } else {
                None
            }
        },
        WidgetNode::Column { id, children } => {
            let from_children = spec_hit_v(children@, 0, x, y, c, px, py);
            if from_children is Some {
                from_children
            } else if spec_contains(x, y, spec_layout(w, c), px, py) {
                Some(id)
            } else {
                None
            }
        },
        WidgetNode::Row { id, children } => {
            let from_children = spec_hit_h(children@, 0, x, y, c, px, py);
            if from_children is Some {
                from_children
            } else if spec_contains(x, y, spec_layout(w, c), px, py) {
                Some(id)
            } else {
                None
            }
        },
    }
}

/// The hit among the vertically stacked `s[i..]`, preferring later
/// siblings.
pub open spec fn spec_hit_v(
    s: Seq<WidgetNode>,
    i: int,
    x: i64,
    y: i64,
    c: Constraints,
    px: i64,
    py: i64,
) -> Option<u64>
    decreases s, s.len() - i,
{
    if i < 0 || i >= s.len() {
        None
    } else {
        let size = spec_layout(s[i], c);
        let rest = spec_hit_v(
            s,
            i + 1,
            x,
            (y + size.height) as i64,
            remaining_below(c, size.height),
            px,
            py,
        );
        if rest is Some {
            rest
        } else {
            spec_hit(s[i], x, y, c, px, py)
        }
    }
}

/// The hit among the horizontally stacked `s[i..]`, preferring later
/// siblings.
pub open spec fn spec_hit_h(
    s: Seq<WidgetNode>,
    i: int,
    x: i64,
    y: i64,
    c: Constraints,
    px: i64,
    py: i64,
) -> Option<u64>
    decreases s, s.len() - i,
{
    if i < 0 || i >= s.len() {
        None
    } else {
        let size = spec_layout(s[i], c);
        let rest = spec_hit_h(
            s,
            i + 1,
            (x + size.width) as i64,
            y,
            remaining_beside(c, size.width),
            px,
            py,
        );
        if rest is Some {
            rest
        } else {
            spec_hit(s[i], x, y, c, px, py)
        }
    }
}

fn contains_point(x: i64, y: i64, size: Size, px: i64, py: i64) -> (b: bool)
    requires
        x + size.width <= i64::MAX,
        y + size.height <= i64::MAX,
    ensures
        b == spec_contains(x, y, size, px, py),
{
    x <= px && px < x + size.width as i64 && y <= py && py < y + size.height as i64
}

/// Hit-tests the tree: the id of the topmost widget whose laid-out bounds
/// contain `(px, py)`, if any.
pub fn hit_test_node(w: &WidgetNode, x: i64, y: i64, c: Constraints, px: i64, py: i64) -> (r:
    Option<u64>)
    requires
        origin_fits(x, y, c),
    ensures
        r == spec_hit(*w, x, y, c, px, py),
    decreases *w, 0int,
{
    proof {
        lemma_layout_fits(*w, c);
    }
    match w {
        WidgetNode::Panel { id, .. } => {
            let size = layout_node(w, c);
            if contains_point(x, y, size, px, py) {
                Some(*id)
            } else {
                None
            }
        },
        WidgetNode::Column { id, children } => {
            let from_children = hit_stack_v(children, 0, x, y, c, px, py);
            if from_children.is_some() {
                from_children
            } else {
                let size = layout_node(w, c);
                if contains_point(x, y, size, px, py) {
                    Some(*id)
                } else {
                    None
                }
            }
        },
        WidgetNode::Row { id, children } => {
            let from_children = hit_stack_h(children, 0, x, y, c, px, py);
            if from_children.is_some() {
                from_children
            } else {
                let size = layout_node(w, c);
                if contains_point(x, y, size, px, py) {
                    Some(*id)
                } else {
                    None
                }
            }
        },
    }
}

fn hit_stack_v(
    children: &Vec<WidgetNode>,
    i: usize,
    x: i64,
    y: i64,
    c: Constraints,
    px: i64,
    py: i64,
) -> (r: Option<u64>)
    requires
        i <= children@.len(),
        origin_fits(x, y, c),
    ensures
        r == spec_hit_v(children@, i as int, x, y, c, px, py),
    decreases children@, children@.len() - i,
{
    if i == children.len() {
        None
    } else {
        let size = layout_node(&children[i], c);
        proof {
            lemma_layout_fits(children@[i as int], c);
        }
        let y2 = y + size.height as i64;
        let rem = remaining_below_exec(c, size.height);
        let rest = hit_stack_v(children, i + 1, x, y2, rem, px, py);
        if rest.is_some() {
            rest
        } else {
            hit_test_node(&children[i], x, y, c, px, py)
        }
    }
}

fn hit_stack_h(
    children: &Vec<WidgetNode>,
    i: usize,
    x: i64,
    y: i64,
    c: Constraints,
    px: i64,
    py: i64,
) -> (r: Option<u64>)
    requires
        i <= children@.len(),
        origin_fits(x, y, c),
    ensures
        r == spec_hit_h(children@, i as int, x, y, c, px, py),
    decreases children@, children@.len() - i,
{
    if i == children.len() {
        None
    } else {
        let size = layout_node(&children[i], c);
        proof {
            lemma_layout_fits(children@[i as int], c);
        }
        let x2 = x + size.width as i64;
        let rem = remaining_beside_exec(c, size.width);
        let rest = hit_stack_h(children, i + 1, x2, y, rem, px, py);
        if rest.is_some() {
            rest
        } else {
            hit_test_node(&children[i], x, y, c, px, py)
        }
    }
}

/// The children the build pass produces for a node: a leaf has none, a
/// container re-materializes its declared children.
pub open spec fn spec_children(w: WidgetNode) -> Seq<WidgetNode> {
    match w {
        WidgetNode::Panel { .. } => Seq::empty(),
        WidgetNode::Column { children, .. } => children@,
        WidgetNode::Row { children, .. } => children@,
    }
}

/// Runs the build pass for one node, consuming it: a container hands back
/// exactly its declared children, a leaf none. Each frame's tree is built
/// afresh, so the pass is pure: what comes out is a function of the node
/// alone.
pub fn build_children(w: WidgetNode) -> (r: Vec<WidgetNode>)
    ensures
        r@ == spec_children(w),
{
    match w {
        WidgetNode::Panel { .. } => {
            let r: Vec<WidgetNode> = Vec::new();
            assert(r@ =~= spec_children(w));
            r
        },
        WidgetNode::Column { children, .. } => children,
        WidgetNode::Row { children, .. } => children,
    }
}

/// The capability set every widget kind offers: a build pass that
/// materializes children, a layout pass that reports a size, and a draw
/// pass that emits vertices. Each method is pinned to a spec function of
/// the widget and its arguments alone, so all three passes are pure.
pub trait Widget {
    /// The children the build pass produces.
    spec fn build_spec(&self) -> Seq<WidgetNode>;

    /// The size the layout pass reports under the given constraints.
    spec fn layout_spec(&self, c: Constraints) -> Size;

    /// The vertices the draw pass emits at `(x, y)` under the given
    /// constraints.
    spec fn draw_spec(&self, x: i64, y: i64, c: Constraints) -> Seq<Vertex>;

    /// Build pass: materializes the node's children, consuming the node;
    /// the next frame starts from a fresh build.
    fn build(self) -> (children: Vec<WidgetNode>)
        ensures
            children@ == self.build_spec(),
    ;

    /// Layout pass: reports the size taken under `c`.
    fn layout(&self, c: Constraints) -> (s: Size)
        ensures
            s == self.layout_spec(c),
    ;

    /// Draw pass: appends the node's vertices to `out`.
    fn draw(&self, x: i64, y: i64, c: Constraints, out: &mut Vec<Vertex>)
        requires
            origin_fits(x, y, c),
        ensures
            final(out)@ == old(out)@ + self.draw_spec(x, y, c),
    ;
}

impl Widget for WidgetNode {
    open spec fn build_spec(&self) -> Seq<WidgetNode> {
        spec_children(*self)
    }

    open spec fn layout_spec(&self, c: Constraints) -> Size {
        spec_layout(*self, c)
    }

    open spec fn draw_spec(&self, x: i64, y: i64, c: Constraints) -> Seq<Vertex> {
        spec_draw(*self, x, y, c)
    }

    fn build(self) -> (children: Vec<WidgetNode>) {
        build_children(self)
    }

    fn layout(&self, c: Constraints) -> (s: Size) {
        layout_node(self, c)
    }

    fn draw(&self, x: i64, y: i64, c: Constraints, out: &mut Vec<Vertex>) {
        draw_node(self, x, y, c, out)
    }
}

/// Layout is deterministic: two layout passes over the same widget under
/// the same constraints report the same size.
pub proof fn lemma_layout_deterministic(w: WidgetNode, c: Constraints, s1: Size, s2: Size)
    requires
        s1 == spec_layout(w, c),
        s2 == spec_layout(w, c),
    ensures
        s1 == s2,
{
}

/// Layout purity: a stack's size depends on its children only through the
/// sizes they report. Two child lists whose members report identical sizes
/// under every constraint give the stack identical sizes.
pub proof fn lemma_stack_v_from_child_sizes(
    a: Seq<WidgetNode>,
    b: Seq<WidgetNode>,
    i: int,
    c: Constraints,
)
    requires
        a.len() == b.len(),
        forall|j: int, c2: Constraints| 0 <= j < a.len() ==> #[trigger] spec_layout(a[j], c2)
            == spec_layout(b[j], c2),
    ensures
        spec_stack_v(a, i, c) == spec_stack_v(b, i, c),
    decreases a.len() - i,
{
    if 0 <= i < a.len() {
        let first = spec_layout(a[i], c);
        lemma_stack_v_from_child_sizes(a, b, i + 1, remaining_below(c, first.height));
    }
}

/// Layout purity for horizontal stacks, as for vertical ones.
pub proof fn lemma_stack_h_from_child_sizes(
    a: Seq<WidgetNode>,
    b: Seq<WidgetNode>,
    i: int,
    c: Constraints,
)
    requires
        a.len() == b.len(),
        forall|j: int, c2: Constraints| 0 <= j < a.len() ==> #[trigger] spec_layout(a[j], c2)
            == spec_layout(b[j], c2),
    ensures
        spec_stack_h(a, i, c) == spec_stack_h(b, i, c),
    decreases a.len() - i,
{
    if 0 <= i < a.len() {
        let first = spec_layout(a[i], c);
        lemma_stack_h_from_child_sizes(a, b, i + 1, remaining_beside(c, first.width));
    }
}

} // verus!

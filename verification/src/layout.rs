//! The layout-box tree and the block layout solver.
//!
//! A `LayoutBox` owns its children exclusively and carries the resolved style
//! it was constructed against. `layout_tree` builds the box tree from a styled
//! node tree — synthesizing anonymous wrapper boxes where block- and
//! inline-level siblings would otherwise be interleaved — and then solves
//! block widths, positions and heights in one top-down pass.

use vstd::prelude::*;
use crate::builder::{build_layout_tree, built};
use crate::geometry::{edge_nonneg, expand, expand_fits, rect_contains, EdgeModel, Rect, RectModel};
use crate::style::{Automatic, Display, Edge, Pixels, Style, StyledNode};

verus! {

/// Fundamental layout mode of one box.
#[derive(Clone, Copy, PartialEq, Eq, Structural, Debug)]
pub enum BoxType {
    /// `display: block`
    Block,
    /// `display: inline`
    Inline,
}

/// A node in the layout tree.
pub struct LayoutBox {
    /// Position and size of the content box relative to the document origin.
    pub content: Rect,
    /// The containing block this box is laid out against.
    pub container: Rect,
    /// Edges of the padding box.
    pub padding: Edge<Pixels>,
    /// Edges of the border box.
    pub border: Edge<Pixels>,
    /// Edges of the margin box.
    pub margin: Edge<Pixels>,
    /// Specified values from styling.
    pub style: Style,
    /// Whether this box is anonymous (synthesized, not backed by a node).
    pub anonymous: bool,
    /// Fundamental layout mode.
    pub box_type: BoxType,
    /// Zero or more descendant (child) boxes, in document order.
    pub children: Vec<LayoutBox>,
}

/// Mathematical model of a layout box and its subtree.
pub ghost struct BoxModel {
    pub content: RectModel,
    pub container: RectModel,
    pub padding: EdgeModel,
    pub border: EdgeModel,
    pub margin: EdgeModel,
    pub style: Style,
    pub anonymous: bool,
    pub box_type: BoxType,
    pub children: Seq<BoxModel>,
}

/// The model of a layout box: the same fields over unbounded integers, with
/// the children as a sequence of models.
pub open spec fn box_model(b: LayoutBox) -> BoxModel
    decreases b,
{
    BoxModel {
        content: b.content@,
        container: b.container@,
        padding: b.padding@,
        border: b.border@,
        margin: b.margin@,
        style: b.style,
        anonymous: b.anonymous,
        box_type: b.box_type,
        children: Seq::new(
            b.children@.len(),
            |i: int|
                if 0 <= i < b.children@.len() {
                    box_model(b.children@[i])
                } else {
                    arbitrary()
                },
        ),
    }
}

impl View for LayoutBox {
    type V = BoxModel;

    open spec fn view(&self) -> BoxModel {
        box_model(*self)
    }
}

impl BoxModel {
    /// The area covered by the content area plus its padding.
    pub open spec fn padding_box(self) -> RectModel {
        expand(self.content, self.padding)
    }

    /// The area covered by the content area plus padding and borders.
    pub open spec fn border_box(self) -> RectModel {
        expand(self.padding_box(), self.border)
    }

    /// The area covered by the content area plus padding, borders and margin.
    pub open spec fn margin_box(self) -> RectModel {
        expand(self.border_box(), self.margin)
    }
}

/// All arithmetic in computing the box's padding, border and margin boxes
/// stays within pixel range.
pub open spec fn margin_box_fits(b: BoxModel) -> bool {
    &&& expand_fits(b.content, b.padding)
    &&& expand_fits(b.padding_box(), b.border)
    &&& expand_fits(b.border_box(), b.margin)
}

/// Containment invariant: the content box lies in the padding box, the
/// padding box in the border box, and the border box in the margin box,
/// each inclusion exact per the edge-expansion formula, whenever the edge
/// thicknesses are non-negative.
pub proof fn lemma_box_containment(b: BoxModel)
    requires
        edge_nonneg(b.padding),
        edge_nonneg(b.border),
        edge_nonneg(b.margin),
    ensures
        rect_contains(b.padding_box(), b.content),
        rect_contains(b.border_box(), b.padding_box()),
        rect_contains(b.margin_box(), b.border_box()),
        rect_contains(b.margin_box(), b.content),
{
}

/// Number of boxes in a subtree (the box itself plus all descendants).
pub open spec fn box_size(b: BoxModel) -> nat
    decreases b, 0int, 0int,
{
    1 + boxes_size(b.children, b.children.len() as int)
}

/// Combined size of the first `k` boxes of a sequence.
pub open spec fn boxes_size(cs: Seq<BoxModel>, k: int) -> nat
    decreases cs, 1int, k,
{
    if k < 1 || k > cs.len() {
        0
    } else {
        boxes_size(cs, k - 1) + box_size(cs[k - 1])
    }
}

proof fn lemma_boxes_size_elem(cs: Seq<BoxModel>, i: int, k: int)
    requires
        0 <= i < k <= cs.len(),
    ensures
        box_size(cs[i]) <= boxes_size(cs, k),
    decreases k,
{
    if i < k - 1 {
        lemma_boxes_size_elem(cs, i, k - 1);
    }
}

/// Used horizontal values solved for one block box: content width and the two
/// horizontal margins, everything else being copied from the style unchanged.
pub ghost struct WidthSolution {
    pub width: int,
    pub margin_left: int,
    pub margin_right: int,
}

/// Halving that rounds toward zero, matching machine division of pixels.
pub open spec fn half(x: int) -> int {
    if x >= 0 {
        x / 2
    } else {
        -((-x) / 2)
    }
}

/// Sum of the seven horizontal style quantities, automatic values counted as
/// zero: the two margins, the two borders, the two paddings and the width.
pub open spec fn horizontal_total(st: Style) -> int {
    st.margin.left.spec_value() + st.margin.right.spec_value() + st.border.left + st.border.right
        + st.padding.left + st.padding.right + st.width.spec_value()
}

/// The CSS block-width constraint: distribute the containing block's content
/// width `cw` over width and horizontal margins.
///
/// When the width is fixed and the horizontal total overflows the container,
/// automatic margins are forced to zero first; the case analysis then assigns
/// the leftover space (`underflow`) to the automatic values, or to
/// margin-right when the box is over-constrained.
pub open spec fn solve_width(st: Style, cw: int) -> WidthSolution {
    let w = st.width;
    let total = horizontal_total(st);
    let clamp = (w is Given) && total > cw;
    let ml = if clamp && (st.margin.left is Auto) {
        Automatic::Given(0)
    } else {
        st.margin.left
    };
    let mr = if clamp && (st.margin.right is Auto) {
        Automatic::Given(0)
    } else {
        st.margin.right
    };
    let underflow = cw - total;
    if w is Auto {
        // Any automatic margin becomes zero; the width fills the underflow,
        // and a negative underflow is absorbed by margin-right instead.
        let mlv = ml.spec_value() as int;
        let mrv = mr.spec_value() as int;
        if underflow >= 0 {
            WidthSolution { width: underflow, margin_left: mlv, margin_right: mrv }
        } else {
            WidthSolution { width: 0, margin_left: mlv, margin_right: mrv + underflow }
        }
    } else if (ml is Auto) && (mr is Auto) {
        // Both margins share the underflow equally.
        WidthSolution {
            width: w.spec_value() as int,
            margin_left: half(underflow),
            margin_right: half(underflow),
        }
    } else if ml is Auto {
        WidthSolution {
            width: w.spec_value() as int,
            margin_left: underflow,
            margin_right: mr.spec_value() as int,
        }
    } else if mr is Auto {
        WidthSolution {
            width: w.spec_value() as int,
            margin_left: ml.spec_value() as int,
            margin_right: underflow,
        }
    } else {
        // Over-constrained: margin-right absorbs the underflow.
        WidthSolution {
            width: w.spec_value() as int,
            margin_left: ml.spec_value() as int,
            margin_right: mr.spec_value() as int + underflow,
        }
    }
}

/// Width conservation: when width and both margins are fixed, the used
/// horizontal values fill the containing block's content width exactly,
/// whatever the sign of the underflow.
pub proof fn lemma_width_conservation(st: Style, cw: int)
    requires
        st.width is Given,
        st.margin.left is Given,
        st.margin.right is Given,
    ensures
        ({
            let s = solve_width(st, cw);
            s.margin_left + st.border.left + st.padding.left + s.width + st.padding.right
                + st.border.right + s.margin_right == cw
        }),
{
}

/// Equal-split symmetry: when width is fixed and both margins are automatic,
/// the two used margins are equal.
///
/// The inputs where the fixed quantities already exceed the containing width
/// are left out: there the solver first forces both automatic margins to zero
/// and then lets margin-right absorb the (negative) underflow alone.
pub proof fn lemma_equal_split(st: Style, cw: int)
    requires
        st.width is Given,
        st.margin.left is Auto,
        st.margin.right is Auto,
        horizontal_total(st) <= cw,
    ensures
        solve_width(st, cw).margin_left == solve_width(st, cw).margin_right,
{
}

/// Non-negative width: the used content width is never negative, however
/// negative the underflow is. (A width fixed to a negative length is the one
/// input left out: the solver uses such a value as given.)
pub proof fn lemma_nonnegative_width(st: Style, cw: int)
    requires
        st.width is Given ==> st.width.spec_value() >= 0,
    ensures
        solve_width(st, cw).width >= 0,
{
}

/// The content rectangle a block box gets from width and position resolution,
/// before its children contribute any height: the used width from the
/// constraint solver, the x and y origin inset from the containing block by
/// the used left and top edges, and the box's incoming running height.
pub open spec fn positioned_content(b: BoxModel, c: RectModel) -> RectModel {
    let ws = solve_width(b.style, c.width);
    RectModel {
        x: c.x + ws.margin_left + b.style.border.left + b.style.padding.left,
        y: c.y + c.height + b.style.margin.top.spec_value() + b.style.border.top
            + b.style.padding.top,
        width: ws.width,
        height: b.content.height,
    }
}

/// The used margin edge of a block box: solved left and right values,
/// and the fixed values on top and bottom (automatic resolves to zero).
pub open spec fn used_margin(b: BoxModel, c: RectModel) -> EdgeModel {
    let ws = solve_width(b.style, c.width);
    EdgeModel {
        left: ws.margin_left,
        right: ws.margin_right,
        top: b.style.margin.top.spec_value() as int,
        bottom: b.style.margin.bottom.spec_value() as int,
    }
}

/// The box `b` fully laid out against containing block `c`: used width and
/// margins solved, edges copied from the style, position resolved, children
/// laid out in document order below one another, and the box's own height
/// taken from the style when fixed, else from the children's total margin-box
/// height. Inline boxes are not positioned or sized: they only record the
/// containing block they were handed.
pub open spec fn laid_out(b: BoxModel, c: RectModel) -> BoxModel
    decreases b, 1int, 0int,
{
    if b.box_type is Block {
        let content0 = positioned_content(b, c);
        let r = children_laid_out(b.children, content0, b.children.len() as int);
        let h = if b.style.height is Given {
            b.style.height.spec_value() as int
        } else {
            r.1
        };
        BoxModel {
            content: RectModel { height: h, ..content0 },
            container: c,
            padding: b.style.padding@,
            border: b.style.border@,
            margin: used_margin(b, c),
            style: b.style,
            anonymous: b.anonymous,
            box_type: b.box_type,
            children: r.0,
        }
    } else {
        BoxModel { container: c, ..b }
    }
}

/// The first `k` children of `cs` laid out into a containing block whose
/// content rectangle is `content`, each placed below the accumulated
/// margin-box heights of its earlier siblings. Returns the laid-out children
/// and the accumulated running height.
pub open spec fn children_laid_out(cs: Seq<BoxModel>, content: RectModel, k: int) -> (Seq<
    BoxModel,
>, int)
    decreases cs, 0int, k,
{
    if k < 1 || k > cs.len() {
        (Seq::empty(), content.height)
    } else {
        let r = children_laid_out(cs, content, k - 1);
        let laid = laid_out(cs[k - 1], RectModel { height: r.1, ..content });
        (r.0.push(laid), r.1 + laid.margin_box().height)
    }
}

/// Pixel-range side conditions for laying out `b` against `c`: every
/// intermediate value the width, position and height computations produce
/// must fit the machine's pixel type. This is purely a machine limit; the
/// mathematical layout in `laid_out` is total.
pub open spec fn layout_fits(b: BoxModel, c: RectModel) -> bool
    decreases b, 1int, 0int,
{
    b.box_type is Inline || {
        let content0 = positioned_content(b, c);
        &&& width_fits(b.style, c.width)
        &&& position_fits(b, c)
        &&& children_fit(b.children, content0, b.children.len() as int)
    }
}

/// Pixel-range side conditions for the width constraint solver, following
/// the order in which the sum, the underflow and the used values are formed.
pub open spec fn width_fits(st: Style, cw: int) -> bool {
    let t1 = st.margin.left.spec_value() as int;
    let t2 = t1 + st.margin.right.spec_value();
    let t3 = t2 + st.border.left;
    let t4 = t3 + st.border.right;
    let t5 = t4 + st.padding.left;
    let t6 = t5 + st.padding.right;
    let total = t6 + st.width.spec_value();
    let uf = cw - total;
    &&& in_px(t2)
    &&& in_px(t3)
    &&& in_px(t4)
    &&& in_px(t5)
    &&& in_px(t6)
    &&& in_px(total)
    &&& in_px(uf)
    &&& uf != i64::MIN
    &&& in_px(solve_width(st, cw).margin_right)
}

/// Pixel-range side conditions for position resolution: the partial sums of
/// the content origin.
pub open spec fn position_fits(b: BoxModel, c: RectModel) -> bool {
    let ws = solve_width(b.style, c.width);
    &&& in_px(c.x + ws.margin_left)
    &&& in_px(c.x + ws.margin_left + b.style.border.left)
    &&& in_px(c.x + ws.margin_left + b.style.border.left + b.style.padding.left)
    &&& in_px(c.y + c.height)
    &&& in_px(c.y + c.height + b.style.margin.top.spec_value())
    &&& in_px(c.y + c.height + b.style.margin.top.spec_value() + b.style.border.top)
    &&& in_px(
        c.y + c.height + b.style.margin.top.spec_value() + b.style.border.top
            + b.style.padding.top,
    )
}

/// Pixel-range side conditions for laying out the first `k` children into a
/// content rectangle `content` and accumulating their margin-box heights.
pub open spec fn children_fit(cs: Seq<BoxModel>, content: RectModel, k: int) -> bool
    decreases cs, 0int, k,
{
    k < 1 || k > cs.len() || {
        let r = children_laid_out(cs, content, k - 1);
        let ck = RectModel { height: r.1, ..content };
        let laid = laid_out(cs[k - 1], ck);
        &&& children_fit(cs, content, k - 1)
        &&& layout_fits(cs[k - 1], ck)
        &&& margin_box_fits(laid)
        &&& in_px(r.1 + laid.margin_box().height)
    }
}

/// A value representable in the pixel type.
pub open spec fn in_px(x: int) -> bool {
    i64::MIN <= x <= i64::MAX
}

/// The model of a box as constructed, before any layout: zero rectangles and
/// edges, no children yet.
pub open spec fn fresh_box(box_type: BoxType, style: Style, anonymous: bool) -> BoxModel {
    let zero_rect = RectModel { x: 0, y: 0, width: 0, height: 0 };
    let zero_edge = EdgeModel { left: 0, right: 0, top: 0, bottom: 0 };
    BoxModel {
        content: zero_rect,
        container: zero_rect,
        padding: zero_edge,
        border: zero_edge,
        margin: zero_edge,
        style: style,
        anonymous: anonymous,
        box_type: box_type,
        children: Seq::empty(),
    }
}

impl LayoutBox {
    /// A fresh anonymous box of the given kind, carrying the style it was
    /// constructed against (a synthesized wrapper inherits its parent's
    /// style).
    pub fn new(box_type: BoxType, style: Style) -> (b: LayoutBox)
        ensures
            b@ == fresh_box(box_type, style, true),
    {
        let b = LayoutBox {
            content: Rect::zero(),
            container: Rect::zero(),
            padding: Edge::zero(),
            border: Edge::zero(),
            margin: Edge::zero(),
            style: style,
            anonymous: true,
            box_type: box_type,
            children: Vec::new(),
        };
        proof {
            assert(b@.children =~= Seq::<BoxModel>::empty());
        }
        b
    }

    /// A fresh non-anonymous box for a styled node, of the node's own kind.
    pub fn of_style_node(style_node: &StyledNode) -> (b: LayoutBox)
        requires
            style_node.specified.display != Display::NoBox,
        ensures
            b@ == fresh_box(
                if style_node.specified.display is Block {
                    BoxType::Block
                } else {
                    BoxType::Inline
                },
                style_node.specified,
                false,
            ),
    {
        let box_type = match style_node.specified.display {
            Display::Block => BoxType::Block,
            Display::Inline => BoxType::Inline,
            Display::NoBox => BoxType::Block,  // excluded by the precondition
        };
        let b = LayoutBox {
            content: Rect::zero(),
            container: Rect::zero(),
            padding: Edge::zero(),
            border: Edge::zero(),
            margin: Edge::zero(),
            style: style_node.specified,
            anonymous: false,
            box_type: box_type,
            children: Vec::new(),
        };
        proof {
            assert(b@.children =~= Seq::<BoxModel>::empty());
        }
        b
    }

    /// Is this box a synthesized block-level wrapper?
    pub fn is_anonymous_block(&self) -> (r: bool)
        ensures
            r == (self.box_type is Block && self.anonymous),
    {
        match self.box_type {
            BoxType::Block => self.anonymous,
            BoxType::Inline => false,
        }
    }

    /// Is this box a synthesized inline-level wrapper?
    pub fn is_anonymous_inline(&self) -> (r: bool)
        ensures
            r == (self.box_type is Inline && self.anonymous),
    {
        match self.box_type {
            BoxType::Inline => self.anonymous,
            BoxType::Block => false,
        }
    }

    /// The area covered by the content area plus its padding.
    pub fn padding_box(&self) -> (r: Rect)
        requires
            expand_fits(self@.content, self@.padding),
        ensures
            r@ == self@.padding_box(),
    {
        self.content.expanded_by(self.padding)
    }

    /// The area covered by the content area plus padding and borders.
    pub fn border_box(&self) -> (r: Rect)
        requires
            expand_fits(self@.content, self@.padding),
            expand_fits(self@.padding_box(), self@.border),
        ensures
            r@ == self@.border_box(),
    {
        self.padding_box().expanded_by(self.border)
    }

    /// The area covered by the content area plus padding, borders and margin.
    pub fn margin_box(&self) -> (r: Rect)
        requires
            margin_box_fits(self@),
        ensures
            r@ == self@.margin_box(),
    {
        self.border_box().expanded_by(self.margin)
    }
}

/// Halve a pixel length, rounding toward zero.
fn half_px(x: Pixels) -> (h: Pixels)
    requires
        x != i64::MIN,
    ensures
        h as int == half(x as int),
{
    if x >= 0 {
        ((x as u64) / 2) as i64
    } else {
        let m = ((-x) as u64) / 2;
        -(m as i64)
    }
}

impl LayoutBox {
    /// Calculate the width of a block-level element in normal flow, per the
    /// CSS block-width constraint.
    ///
    /// Sets the used horizontal margin, padding and border dimensions and the
    /// content width, leaving every other field unchanged.
    fn calculate_block_width(&mut self)
        requires
            width_fits(old(self)@.style, old(self)@.container.width),
        ensures
            ({
                let ws = solve_width(old(self)@.style, old(self)@.container.width);
                &&& final(self).content.width as int == ws.width
                &&& final(self).margin.left as int == ws.margin_left
                &&& final(self).margin.right as int == ws.margin_right
            }),
            final(self).padding.left == old(self).style.padding.left,
            final(self).padding.right == old(self).style.padding.right,
            final(self).border.left == old(self).style.border.left,
            final(self).border.right == old(self).style.border.right,
            final(self).content.x == old(self).content.x,
            final(self).content.y == old(self).content.y,
            final(self).content.height == old(self).content.height,
            final(self).container == old(self).container,
            final(self).padding.top == old(self).padding.top,
            final(self).padding.bottom == old(self).padding.bottom,
            final(self).border.top == old(self).border.top,
            final(self).border.bottom == old(self).border.bottom,
            final(self).margin.top == old(self).margin.top,
            final(self).margin.bottom == old(self).margin.bottom,
            final(self).style == old(self).style,
            final(self).anonymous == old(self).anonymous,
            final(self).box_type == old(self).box_type,
            final(self).children == old(self).children,
    {
        let style = self.style;
        let mut width = style.width;
        let mut margin_left = style.margin.left;
        let mut margin_right = style.margin.right;

        let total = margin_left.value() + margin_right.value() + style.border.left
            + style.border.right + style.padding.left + style.padding.right + width.value();

        // If width is not auto and the total is wider than the container,
        // treat auto margins as 0.
        if width.is_given() && total > self.container.width {
            if margin_left.is_auto() {
                margin_left = Automatic::Given(0);
            }
            if margin_right.is_auto() {
                margin_right = Automatic::Given(0);
            }
        }

        // Adjust used values so that the horizontal sum equals the containing
        // block's content width. Each case adds exactly `underflow` to the
        // total, and afterward every value is an absolute length.
        let underflow = self.container.width - total;

        match (width.is_auto(), margin_left.is_auto(), margin_right.is_auto()) {
            // If the values are overconstrained, calculate margin_right.
            (false, false, false) => {
                margin_right = Automatic::Given(margin_right.value() + underflow);
            },
            // If exactly one size is auto, its used value follows from the equality.
            (false, false, true) => {
                margin_right = Automatic::Given(underflow);
            },
            (false, true, false) => {
                margin_left = Automatic::Given(underflow);
            },
            // If width is set to auto, any other auto values become 0.
            (true, _, _) => {
                if margin_left.is_auto() {
                    margin_left = Automatic::Given(0);
                }
                if margin_right.is_auto() {
                    margin_right = Automatic::Given(0);
                }
                if underflow >= 0 {
                    // Expand width to fill the underflow.
                    width = Automatic::Given(underflow);
                } else {
                    // Width cannot be negative; adjust the right margin instead.
                    width = Automatic::Given(0);
                    margin_right = Automatic::Given(margin_right.value() + underflow);
                }
            },
            // If margin-left and margin-right are both auto, their used values
            // are equal.
            (false, true, true) => {
                let h = half_px(underflow);
                margin_left = Automatic::Given(h);
                margin_right = Automatic::Given(h);
            },
        }

        self.content.width = width.value();

        self.padding.left = style.padding.left;
        self.padding.right = style.padding.right;

        self.border.left = style.border.left;
        self.border.right = style.border.right;

        self.margin.left = margin_left.value();
        self.margin.right = margin_right.value();
    }

    /// Finish calculating the block's edge sizes, and position it within its
    /// containing block, directly below any earlier siblings (the containing
    /// block's accumulated height).
    ///
    /// Sets the used vertical margin, padding and border dimensions, and the
    /// content origin, leaving every other field unchanged. Automatic top and
    /// bottom margins resolve to zero unconditionally.
    fn calculate_block_position(&mut self)
        requires
            in_px(old(self)@.container.x + old(self)@.margin.left),
            in_px(old(self)@.container.x + old(self)@.margin.left + old(self)@.border.left),
            in_px(
                old(self)@.container.x + old(self)@.margin.left + old(self)@.border.left + old(
                    self,
                )@.padding.left,
            ),
            in_px(old(self)@.container.y + old(self)@.container.height),
            in_px(
                old(self)@.container.y + old(self)@.container.height
                    + old(self)@.style.margin.top.spec_value(),
            ),
            in_px(
                old(self)@.container.y + old(self)@.container.height
                    + old(self)@.style.margin.top.spec_value() + old(self)@.style.border.top,
            ),
            in_px(
                old(self)@.container.y + old(self)@.container.height
                    + old(self)@.style.margin.top.spec_value() + old(self)@.style.border.top + old(
                    self,
                )@.style.padding.top,
            ),
        ensures
            final(self).margin.top == old(self).style.margin.top.spec_value(),
            final(self).margin.bottom == old(self).style.margin.bottom.spec_value(),
            final(self).border.top == old(self).style.border.top,
            final(self).border.bottom == old(self).style.border.bottom,
            final(self).padding.top == old(self).style.padding.top,
            final(self).padding.bottom == old(self).style.padding.bottom,
            final(self).content.x as int == old(self)@.container.x + old(self)@.margin.left + old(
                self,
            )@.border.left + old(self)@.padding.left,
            final(self).content.y as int == old(self)@.container.y + old(self)@.container.height
                + old(self)@.style.margin.top.spec_value() + old(self)@.style.border.top + old(
                self,
            )@.style.padding.top,
            final(self).content.width == old(self).content.width,
            final(self).content.height == old(self).content.height,
            final(self).container == old(self).container,
            final(self).margin.left == old(self).margin.left,
            final(self).margin.right == old(self).margin.right,
            final(self).padding.left == old(self).padding.left,
            final(self).padding.right == old(self).padding.right,
            final(self).border.left == old(self).border.left,
            final(self).border.right == old(self).border.right,
            final(self).style == old(self).style,
            final(self).anonymous == old(self).anonymous,
            final(self).box_type == old(self).box_type,
            final(self).children == old(self).children,
    {
        let style = self.style;

        // If margin-top or margin-bottom is `auto`, the used value is zero.
        self.margin.top = style.margin.top.value();
        self.margin.bottom = style.margin.bottom.value();

        self.border.top = style.border.top;
        self.border.bottom = style.border.bottom;

        self.padding.top = style.padding.top;
        self.padding.bottom = style.padding.bottom;

        self.content.x = self.container.x + self.margin.left + self.border.left
            + self.padding.left;

        // Position the box below all the previous boxes in the container.
        self.content.y = self.container.y + self.container.height + self.margin.top
            + self.border.top + self.padding.top;
    }

    /// Height of a block-level element in normal flow with overflow visible:
    /// an explicit height wins; otherwise the accumulated children's height
    /// set by `layout_block_children` stands.
    fn calculate_block_height(&mut self)
        ensures
            final(self).content.height == (if old(self).style.height is Given {
                old(self).style.height.spec_value()
            } else {
                old(self).content.height
            }),
            final(self).content.x == old(self).content.x,
            final(self).content.y == old(self).content.y,
            final(self).content.width == old(self).content.width,
            final(self).container == old(self).container,
            final(self).padding == old(self).padding,
            final(self).border == old(self).border,
            final(self).margin == old(self).margin,
            final(self).style == old(self).style,
            final(self).anonymous == old(self).anonymous,
            final(self).box_type == old(self).box_type,
            final(self).children == old(self).children,
    {
        // If the height is set to an explicit length, use that exact length.
        if let Automatic::Given(h) = self.style.height {
            self.content.height = h;
        }
    }
}

/// Two boxes with the same (exec) child vector have the same child models.
proof fn lemma_children_view(a: LayoutBox, b: LayoutBox)
    requires
        a.children == b.children,
    ensures
        a@.children == b@.children,
{
    assert(a@.children =~= b@.children);
}

impl LayoutBox {
    /// Lay out a box and its descendants against the containing block stored
    /// in its `container` field.
    fn layout(&mut self)
        requires
            layout_fits(old(self)@, old(self)@.container),
        ensures
            final(self)@ == laid_out(old(self)@, old(self)@.container),
        decreases box_size(old(self)@), 3int,
    {
        match self.box_type {
            BoxType::Block => self.layout_block(),
            BoxType::Inline => {
                // Inline boxes are accepted into the tree but not positioned
                // or sized: line layout is out of scope.
                proof {
                    assert(laid_out(old(self)@, old(self)@.container) == old(self)@);
                }
            },
        }
    }

    /// Lay out a block-level element and its descendants: width first (child
    /// width depends on parent width), then position, then the children, then
    /// height (parent height can depend on children's heights).
    fn layout_block(&mut self)
        requires
            old(self).box_type is Block,
            layout_fits(old(self)@, old(self)@.container),
        ensures
            final(self)@ == laid_out(old(self)@, old(self)@.container),
        decreases box_size(old(self)@), 2int,
    {
        let ghost b0 = old(self)@;
        let ghost c = old(self)@.container;

        // Child width can depend on parent width, so this box's width comes
        // before its children are laid out.
        self.calculate_block_width();
        let ghost s1 = *self;
        proof {
            lemma_children_view(s1, *old(self));
        }

        // Determine where the box is located within its container.
        self.calculate_block_position();
        let ghost s2 = *self;
        proof {
            lemma_children_view(s2, s1);
            assert(s2@.content == positioned_content(b0, c));
            assert(s2@.children == b0.children);
        }

        // Recursively lay out the children of this box.
        self.layout_block_children();
        let ghost s3 = *self;

        // Parent height can depend on child height, so the height comes after
        // the children are laid out.
        self.calculate_block_height();

        proof {
            lemma_children_view(*self, s3);
            let content0 = positioned_content(b0, c);
            let r = children_laid_out(b0.children, content0, b0.children.len() as int);
            assert(self@.children == r.0);
            assert(self@ == laid_out(b0, c));
        }
    }

    /// Lay out the block's children within its content area, accumulating the
    /// total content height so each child lands below the previous one.
    fn layout_block_children(&mut self)
        requires
            children_fit(
                old(self)@.children,
                old(self)@.content,
                old(self)@.children.len() as int,
            ),
        ensures
            ({
                let r = children_laid_out(
                    old(self)@.children,
                    old(self)@.content,
                    old(self)@.children.len() as int,
                );
                &&& final(self)@.children == r.0
                &&& final(self).content.height as int == r.1
            }),
            final(self).content.x == old(self).content.x,
            final(self).content.y == old(self).content.y,
            final(self).content.width == old(self).content.width,
            final(self).container == old(self).container,
            final(self).padding == old(self).padding,
            final(self).border == old(self).border,
            final(self).margin == old(self).margin,
            final(self).style == old(self).style,
            final(self).anonymous == old(self).anonymous,
            final(self).box_type == old(self).box_type,
        decreases box_size(old(self)@), 1int,
    {
        let ghost kids0 = old(self)@.children;
        let ghost content0 = old(self)@.content;
        let ghost n = old(self).children@.len() as int;
        proof {
            assert(kids0.len() == old(self).children@.len());
            assert(forall|j: int|
                0 <= j < kids0.len() ==> kids0[j] == #[trigger] old(self).children@[j]@);
        }

        let mut i: usize = 0;
        while i < self.children.len()
            invariant
                0 <= i <= old(self).children@.len(),
                self.children@.len() == old(self).children@.len(),
                forall|j: int|
                    i <= j < self.children@.len() ==> self.children@[j] == old(self).children@[j],
                ({
                    let r = children_laid_out(kids0, content0, i as int);
                    &&& (forall|j: int| 0 <= j < i ==> #[trigger] self.children@[j]@ == r.0[j])
                    &&& self.content.height as int == r.1
                }),
                kids0 == old(self)@.children,
                kids0.len() == old(self).children@.len(),
                content0 == old(self)@.content,
                self.content.x == old(self).content.x,
                self.content.y == old(self).content.y,
                self.content.width == old(self).content.width,
                self.container == old(self).container,
                self.padding == old(self).padding,
                self.border == old(self).border,
                self.margin == old(self).margin,
                self.style == old(self).style,
                self.anonymous == old(self).anonymous,
                self.box_type == old(self).box_type,
                children_fit(kids0, content0, kids0.len() as int),
                box_size(old(self)@) == 1 + boxes_size(kids0, kids0.len() as int),
            decreases self.children@.len() - i,
        {
            proof {
                lemma_children_fit_step(kids0, content0, i as int, kids0.len() as int);
                lemma_boxes_size_elem(kids0, i as int, kids0.len() as int);
                lemma_children_laid_out_len(kids0, content0, i as int);
            }
            let ghost r_i = children_laid_out(kids0, content0, i as int);
            let ghost ck = RectModel { height: r_i.1, ..content0 };

            let mut child = self.children.remove(i);
            proof {
                assert(child@ == kids0[i as int]);
            }
            child.container = self.content;
            proof {
                assert(child@ == BoxModel { container: ck, ..kids0[i as int] });
                assert(layout_fits(child@, child@.container));
                assert(box_size(child@) == box_size(kids0[i as int]));
            }
            child.layout();
            proof {
                assert(child@ == laid_out(kids0[i as int], ck));
            }
            // Increment the height so each child is laid out below the
            // previous one.
            let mbh = child.margin_box().height;
            self.content.height = self.content.height + mbh;
            self.children.insert(i, child);
            i = i + 1;
            proof {
                let r_n = children_laid_out(kids0, content0, i as int);
                assert(r_n.0 == r_i.0.push(laid_out(kids0[i - 1], ck)));
                assert forall|j: int| 0 <= j < i implies #[trigger] self.children@[j]@ == r_n.0[j]
                by {
                    if j < i - 1 {
                        assert(self.children@[j]@ == r_i.0[j]);
                    }
                }
            }
        }
        proof {
            lemma_children_laid_out_len(kids0, content0, n);
            let r = children_laid_out(kids0, content0, n);
            assert forall|j: int| 0 <= j < n implies self@.children[j] == r.0[j] by {
                assert(self@.children[j] == self.children@[j]@);
                assert(self.children@[j]@ == r.0[j]);
            }
            assert(self@.children =~= r.0);
        }
    }
}

/// The first `k` children lay out to exactly `k` boxes.
proof fn lemma_children_laid_out_len(cs: Seq<BoxModel>, content: RectModel, k: int)
    requires
        0 <= k <= cs.len(),
    ensures
        children_laid_out(cs, content, k).0.len() == k,
    decreases k,
{
    if k > 0 {
        lemma_children_laid_out_len(cs, content, k - 1);
    }
}

/// Total margin-box height of a sequence of laid-out boxes.
pub open spec fn height_sum(cs: Seq<BoxModel>) -> int
    decreases cs.len(),
{
    if cs.len() == 0 {
        0
    } else {
        height_sum(cs.drop_last()) + cs.last().margin_box().height
    }
}

/// Characterization of `children_laid_out`: it lays out exactly the first `n`
/// children, each against the parent's content rectangle whose height is the
/// parent's incoming height plus the margin-box heights of the earlier
/// siblings, and it accumulates all their margin-box heights.
pub proof fn lemma_children_laid_out_spec(cs: Seq<BoxModel>, content: RectModel, n: int)
    requires
        0 <= n <= cs.len(),
    ensures
        ({
            let r = children_laid_out(cs, content, n);
            &&& r.0.len() == n
            &&& r.1 == content.height + height_sum(r.0)
            &&& forall|k: int|
                0 <= k < n ==> r.0[k] == laid_out(
                    cs[k],
                    RectModel { height: content.height + height_sum(r.0.subrange(0, k)), ..content },
                )
        }),
    decreases n,
{
    let r = children_laid_out(cs, content, n);
    if n == 0 {
        assert(r.0.len() == 0);
        assert(height_sum(r.0) == 0);
    } else {
        lemma_children_laid_out_spec(cs, content, n - 1);
        let rp = children_laid_out(cs, content, n - 1);
        let laid = laid_out(cs[n - 1], RectModel { height: rp.1, ..content });
        assert(r.0 == rp.0.push(laid));
        assert(r.0.drop_last() =~= rp.0);
        assert(r.0.last() == laid);
        assert(r.1 == content.height + height_sum(r.0));
        assert forall|k: int| 0 <= k < n implies r.0[k] == laid_out(
            cs[k],
            RectModel { height: content.height + height_sum(r.0.subrange(0, k)), ..content },
        ) by {
            assert(r.0.subrange(0, k) =~= rp.0.subrange(0, k));
            if k < n - 1 {
                assert(r.0[k] == rp.0[k]);
            } else {
                assert(r.0.subrange(0, k) =~= rp.0);
            }
        }
    }
}

/// Sibling stacking: in a laid-out block box, each block-level child's
/// content y sits below the parent's content origin by the parent's incoming
/// running height (zero for a freshly built box), plus the margin-box heights
/// of the earlier siblings, plus the child's own top inset (used top margin,
/// border and padding). There is no margin collapsing between siblings.
pub proof fn lemma_sibling_stacking(b: BoxModel, c: RectModel, k: int)
    requires
        b.box_type is Block,
        0 <= k < b.children.len(),
        b.children[k].box_type is Block,
    ensures
        ({
            let out = laid_out(b, c);
            out.children[k].content.y == out.content.y + b.content.height + height_sum(
                out.children.subrange(0, k),
            ) + b.children[k].style.margin.top.spec_value() + b.children[k].style.border.top
                + b.children[k].style.padding.top
        }),
{
    let content0 = positioned_content(b, c);
    lemma_children_laid_out_spec(b.children, content0, b.children.len() as int);
}

/// The one recognized layout failure: the document's root node resolves to
/// display mode `none`, so no box tree can be produced.
#[derive(Clone, Copy, PartialEq, Eq, Structural, Debug)]
pub enum LayoutError {
    NoRenderableRoot,
}

/// The top-level containing block: a rectangle at the document origin whose
/// content width seeds the layout and whose height starts at zero.
pub open spec fn root_container(width: int) -> RectModel {
    RectModel { x: 0, y: 0, width: width, height: 0 }
}

/// Transform a styled node tree into a laid-out box tree against an initial
/// containing block of the given width. The containing height is accepted but
/// unused: heights are always content-driven or explicit, never inherited
/// downward. Fails exactly when the root node's display mode is `none`.
pub fn layout_tree(node: &StyledNode, width: usize, _height: usize) -> (r: Result<
    LayoutBox,
    LayoutError,
>)
    requires
        node.specified.display != Display::NoBox ==> width as int <= i64::MAX as int
            && layout_fits(built(*node), root_container(width as int)),
    ensures
        node.specified.display is NoBox <==> r is Err,
        r is Err ==> r->Err_0 == LayoutError::NoRenderableRoot,
        r is Ok ==> (r->Ok_0)@ == laid_out(built(*node), root_container(width as int)),
{
    match node.specified.display {
        Display::NoBox => Err(LayoutError::NoRenderableRoot),
        _ => {
            let mut root_box = build_layout_tree(node);
            let ghost pre = root_box;
            // The layout algorithm expects the container height to start at 0;
            // only the width seeds the top-level containing block.
            root_box.container.width = width as Pixels;
            proof {
                lemma_children_view(root_box, pre);
                let c = root_container(width as int);
                assert(root_box@ == BoxModel { container: c, ..built(*node) });
                assert(layout_fits(root_box@, c) == layout_fits(built(*node), c));
            }
            root_box.layout();
            proof {
                let c = root_container(width as int);
                let b1 = BoxModel { container: c, ..built(*node) };
                assert(positioned_content(b1, c) == positioned_content(built(*node), c));
                assert(laid_out(b1, c) == laid_out(built(*node), c));
            }
            Ok(root_box)
        },
    }
}

/// Peel one step out of `children_fit`: the side conditions for laying out
/// child `k` hold whenever the first `n > k` children fit.
proof fn lemma_children_fit_step(cs: Seq<BoxModel>, content: RectModel, k: int, n: int)
    requires
        children_fit(cs, content, n),
        0 <= k < n <= cs.len(),
    ensures
        ({
            let r = children_laid_out(cs, content, k);
            let ck = RectModel { height: r.1, ..content };
            let laid = laid_out(cs[k], ck);
            &&& layout_fits(cs[k], ck)
            &&& margin_box_fits(laid)
            &&& in_px(r.1 + laid.margin_box().height)
        }),
    decreases n,
{
    if k < n - 1 {
        lemma_children_fit_step(cs, content, k, n - 1);
    }
}

} // verus!

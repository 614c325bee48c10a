use block_layout::builder::build_layout_tree;
use block_layout::layout::{layout_tree, BoxType, LayoutBox, LayoutError};
use block_layout::style::{Automatic, Color, Display, Edge, Style, StyledNode};

fn block_style() -> Style {
    let mut s = Style::default();
    s.display = Display::Block;
    s
}

fn inline_style() -> Style {
    let mut s = Style::default();
    s.display = Display::Inline;
    s
}

fn none_style() -> Style {
    let mut s = Style::default();
    s.display = Display::NoBox;
    s
}

fn leaf(s: Style) -> StyledNode {
    StyledNode { specified: s, children: Vec::new() }
}

fn node(s: Style, children: Vec<StyledNode>) -> StyledNode {
    StyledNode { specified: s, children }
}

#[test]
fn scenario_auto_width_auto_margins() {
    // Containing width 200; width auto, both margins auto, border/padding 0:
    // used width fills the container, margins become 0.
    let mut s = block_style();
    s.width = Automatic::Auto;
    s.margin.left = Automatic::Auto;
    s.margin.right = Automatic::Auto;
    let root = layout_tree(&leaf(s), 200, 100).unwrap();
    assert_eq!(root.content.width, 200);
    assert_eq!(root.margin.left, 0);
    assert_eq!(root.margin.right, 0);
}

#[test]
fn scenario_auto_margin_left_takes_underflow() {
    // Containing width 100; width 80, margin-left auto, margin-right 10:
    // underflow 10 goes to margin-left.
    let mut s = block_style();
    s.width = Automatic::Given(80);
    s.margin.left = Automatic::Auto;
    s.margin.right = Automatic::Given(10);
    let root = layout_tree(&leaf(s), 100, 100).unwrap();
    assert_eq!(root.content.width, 80);
    assert_eq!(root.margin.left, 10);
    assert_eq!(root.margin.right, 10);
}

#[test]
fn scenario_overconstrained_margin_right_absorbs() {
    // Width fixed 150 in a 100-wide container, margins both fixed 0:
    // margin-right absorbs the -50 underflow.
    let mut s = block_style();
    s.width = Automatic::Given(150);
    let root = layout_tree(&leaf(s), 100, 100).unwrap();
    assert_eq!(root.content.width, 150);
    assert_eq!(root.margin.left, 0);
    assert_eq!(root.margin.right, -50);
}

#[test]
fn equal_split_of_underflow() {
    let mut s = block_style();
    s.width = Automatic::Given(60);
    s.margin.left = Automatic::Auto;
    s.margin.right = Automatic::Auto;
    let root = layout_tree(&leaf(s), 100, 100).unwrap();
    assert_eq!(root.margin.left, 20);
    assert_eq!(root.margin.right, 20);
}

#[test]
fn auto_margins_zeroed_when_fixed_width_overflows() {
    // Fixed width wider than the container: automatic margins are forced to
    // zero first, then margin-right absorbs the negative underflow alone.
    let mut s = block_style();
    s.width = Automatic::Given(105);
    s.margin.left = Automatic::Auto;
    s.margin.right = Automatic::Auto;
    let root = layout_tree(&leaf(s), 100, 100).unwrap();
    assert_eq!(root.margin.left, 0);
    assert_eq!(root.margin.right, -5);
}

#[test]
fn width_conservation_all_fixed() {
    // margin-left + border-left + padding-left + width + padding-right +
    // border-right + margin-right == containing width, even over-constrained.
    let mut s = block_style();
    s.width = Automatic::Given(50);
    s.margin.left = Automatic::Given(7);
    s.margin.right = Automatic::Given(11);
    s.padding.left = 3;
    s.padding.right = 4;
    s.border.left = 2;
    s.border.right = 1;
    let root = layout_tree(&leaf(s), 100, 100).unwrap();
    let sum = root.margin.left + root.border.left + root.padding.left + root.content.width
        + root.padding.right + root.border.right + root.margin.right;
    assert_eq!(sum, 100);
}

#[test]
fn negative_underflow_width_stays_zero() {
    // Width auto in a container narrower than the fixed edges: the used width
    // clamps at zero and margin-right absorbs the deficit.
    let mut s = block_style();
    s.width = Automatic::Auto;
    s.padding.left = 30;
    s.padding.right = 30;
    let root = layout_tree(&leaf(s), 40, 100).unwrap();
    assert_eq!(root.content.width, 0);
    assert_eq!(root.margin.right, -20);
}

#[test]
fn sibling_stacking_and_auto_height() {
    let mut parent = block_style();
    parent.margin.top = Automatic::Given(2);
    parent.border.top = 3;
    parent.padding.top = 7;
    parent.padding.left = 5;

    let mut c1 = block_style();
    c1.height = Automatic::Given(10);
    c1.margin.top = Automatic::Given(1);
    c1.margin.bottom = Automatic::Given(4);

    let mut c2 = block_style();
    c2.height = Automatic::Given(20);

    let root = layout_tree(&node(parent, vec![leaf(c1), leaf(c2)]), 100, 100).unwrap();

    // Parent content origin: y = 0 + 0 + 2 + 3 + 7 = 12, x = 0 + 0 + 0 + 5.
    assert_eq!(root.content.y, 12);
    assert_eq!(root.content.x, 5);

    // First child: directly at the parent's content origin plus its own top
    // inset (margin-top 1).
    assert_eq!(root.children[0].content.y, 13);
    // Its margin-box height is 1 + 10 + 4 = 15.

    // Second child: below the first child's margin box.
    assert_eq!(root.children[1].content.y, 12 + 15);

    // Parent's automatic height is the sum of the children's margin-box
    // heights: 15 + 20.
    assert_eq!(root.content.height, 35);
}

#[test]
fn children_see_parent_content_x() {
    let mut parent = block_style();
    parent.padding.left = 5;
    parent.margin.left = Automatic::Given(6);
    parent.border.left = 2;

    let mut child = block_style();
    child.padding.left = 1;

    let root = layout_tree(&node(parent, vec![leaf(child)]), 100, 100).unwrap();
    assert_eq!(root.content.x, 13);
    assert_eq!(root.children[0].content.x, 14);
}

#[test]
fn explicit_height_wins_over_children() {
    let mut parent = block_style();
    parent.height = Automatic::Given(55);
    let mut child = block_style();
    child.height = Automatic::Given(10);
    let root = layout_tree(&node(parent, vec![leaf(child)]), 100, 100).unwrap();
    assert_eq!(root.content.height, 55);
    // The child is still laid out.
    assert_eq!(root.children[0].content.height, 10);
}

#[test]
fn childless_auto_height_is_zero() {
    let root = layout_tree(&leaf(block_style()), 100, 100).unwrap();
    assert_eq!(root.content.height, 0);
}

#[test]
fn no_renderable_root_is_an_error() {
    let r = layout_tree(&leaf(none_style()), 100, 100);
    assert_eq!(r.err(), Some(LayoutError::NoRenderableRoot));
}

#[test]
fn mid_tree_none_children_are_omitted() {
    let parent = block_style();
    let kids = vec![leaf(block_style()), leaf(none_style()), leaf(block_style())];
    let root = layout_tree(&node(parent, kids), 100, 100).unwrap();
    assert_eq!(root.children.len(), 2);
    assert!(root.children.iter().all(|c| !c.anonymous));
}

#[test]
fn inline_root_is_not_positioned_or_sized() {
    let root = layout_tree(&leaf(inline_style()), 100, 100).unwrap();
    assert_eq!(root.box_type, BoxType::Inline);
    assert_eq!(root.content.width, 0);
    assert_eq!(root.content.height, 0);
    assert_eq!(root.container.width, 100);
}

#[test]
fn anonymous_coalescing() {
    // A block parent with children of kinds [block, inline, inline, block,
    // inline] builds exactly 4 top-level children: block, one anonymous block
    // wrapping the two inlines, block, one anonymous block wrapping the last
    // inline — never one wrapper per inline child.
    let kids = vec![
        leaf(block_style()),
        leaf(inline_style()),
        leaf(inline_style()),
        leaf(block_style()),
        leaf(inline_style()),
    ];
    let root = build_layout_tree(&node(block_style(), kids));
    assert_eq!(root.children.len(), 4);

    assert_eq!(root.children[0].box_type, BoxType::Block);
    assert!(!root.children[0].anonymous);

    assert_eq!(root.children[1].box_type, BoxType::Block);
    assert!(root.children[1].anonymous);
    assert_eq!(root.children[1].children.len(), 2);
    assert_eq!(root.children[1].children[0].box_type, BoxType::Inline);
    assert_eq!(root.children[1].children[1].box_type, BoxType::Inline);

    assert_eq!(root.children[2].box_type, BoxType::Block);
    assert!(!root.children[2].anonymous);

    assert_eq!(root.children[3].box_type, BoxType::Block);
    assert!(root.children[3].anonymous);
    assert_eq!(root.children[3].children.len(), 1);
    assert_eq!(root.children[3].children[0].box_type, BoxType::Inline);
}

#[test]
fn inline_parent_wraps_block_run() {
    // The wrapper rule is symmetric: an inline parent wraps a run of block
    // children in an anonymous inline box.
    let kids = vec![leaf(block_style()), leaf(block_style()), leaf(inline_style())];
    let root = build_layout_tree(&node(inline_style(), kids));
    assert_eq!(root.children.len(), 2);
    assert_eq!(root.children[0].box_type, BoxType::Inline);
    assert!(root.children[0].anonymous);
    assert_eq!(root.children[0].children.len(), 2);
    assert_eq!(root.children[1].box_type, BoxType::Inline);
    assert!(!root.children[1].anonymous);
}

#[test]
fn wrapper_inherits_parent_style() {
    let mut parent = block_style();
    parent.background_color = Color { r: 9, g: 8, b: 7, a: 255 };
    let root = build_layout_tree(&node(parent, vec![leaf(inline_style())]));
    assert_eq!(root.children.len(), 1);
    assert!(root.children[0].anonymous);
    assert_eq!(root.children[0].style.background_color, Color { r: 9, g: 8, b: 7, a: 255 });
}

#[test]
fn automatic_accessors() {
    let a = Automatic::Auto;
    let g = Automatic::Given(42);
    assert!(a.is_auto());
    assert!(!a.is_given());
    assert_eq!(a.value(), 0);
    assert!(!g.is_auto());
    assert!(g.is_given());
    assert_eq!(g.value(), 42);
}

#[test]
fn style_defaults() {
    let s = Style::default();
    assert_eq!(s.display, Display::Inline);
    assert!(s.width.is_auto());
    assert!(s.height.is_auto());
    assert_eq!(s.margin.left, Automatic::Given(0));
    assert_eq!(s.margin.bottom, Automatic::Given(0));
    assert_eq!(s.padding, Edge { left: 0, right: 0, top: 0, bottom: 0 });
    assert_eq!(s.border, Edge { left: 0, right: 0, top: 0, bottom: 0 });
    assert_eq!(s.background_color, Color { r: 0, g: 0, b: 0, a: 0 });
}

#[test]
fn odd_underflow_split_rounds_toward_zero() {
    let mut s = block_style();
    s.width = Automatic::Given(59);
    s.margin.left = Automatic::Auto;
    s.margin.right = Automatic::Auto;
    let root = layout_tree(&leaf(s), 100, 100).unwrap();
    // 41 / 2 rounds to 20 on each side; the odd pixel stays unassigned.
    assert_eq!(root.margin.left, 20);
    assert_eq!(root.margin.right, 20);
}

#[test]
fn anonymous_box_predicates() {
    let wrapper = LayoutBox::new(BoxType::Block, Style::default());
    assert!(wrapper.is_anonymous_block());
    assert!(!wrapper.is_anonymous_inline());
    let named = build_layout_tree(&leaf(inline_style()));
    assert!(!named.is_anonymous_inline());
    assert!(!named.is_anonymous_block());
}

#[test]
fn container_is_recorded_on_children() {
    let mut parent = block_style();
    parent.padding.top = 4;
    let mut child = block_style();
    child.height = Automatic::Given(10);
    let root = layout_tree(&node(parent, vec![leaf(child)]), 80, 100).unwrap();
    // The child was laid out against the parent's content rectangle as it
    // stood when the child was reached (height still zero).
    assert_eq!(root.children[0].container.x, root.content.x);
    assert_eq!(root.children[0].container.y, root.content.y);
    assert_eq!(root.children[0].container.width, root.content.width);
    assert_eq!(root.children[0].container.height, 0);
}

#[test]
fn nested_three_levels_exact() {
    let mut grandchild = block_style();
    grandchild.height = Automatic::Given(5);
    grandchild.margin.top = Automatic::Given(1);
    grandchild.margin.bottom = Automatic::Given(1);

    let mut child = block_style();
    child.border.left = 1;
    child.border.right = 1;
    child.border.top = 1;
    child.border.bottom = 1;

    let mut root_style = block_style();
    root_style.padding.left = 2;
    root_style.padding.right = 2;
    root_style.padding.top = 2;
    root_style.padding.bottom = 2;

    let tree = node(root_style, vec![node(child, vec![leaf(grandchild)])]);
    let root = layout_tree(&tree, 50, 100).unwrap();

    // Root: width 50 - 4 padding = 46, content origin (2, 2).
    assert_eq!(root.content.x, 2);
    assert_eq!(root.content.y, 2);
    assert_eq!(root.content.width, 46);

    // Child: width 46 - 2 border = 44, origin (3, 3), height from its child.
    let c = &root.children[0];
    assert_eq!(c.content.x, 3);
    assert_eq!(c.content.y, 3);
    assert_eq!(c.content.width, 44);
    assert_eq!(c.content.height, 7);

    // Grandchild: fills the child's content width, sits below its margin-top.
    let g = &c.children[0];
    assert_eq!(g.content.x, 3);
    assert_eq!(g.content.y, 4);
    assert_eq!(g.content.width, 44);
    assert_eq!(g.content.height, 5);

    // Root's automatic height: the child's margin-box height 7 + 1 + 1.
    assert_eq!(root.content.height, 9);
}

#[test]
fn display_and_color_defaults() {
    assert_eq!(Display::default(), Display::Inline);
    assert_eq!(Color::default(), Color { r: 0, g: 0, b: 0, a: 0 });
}

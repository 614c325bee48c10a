//! The box-tree builder: from a styled node tree to a layout-box tree.
//!
//! Children whose display mode is `none` are dropped. Where a child's kind
//! differs from its parent's, the builder keeps an open anonymous wrapper box
//! of the parent's own kind and appends such children into it; a child of the
//! parent's own kind first flushes the open wrapper. Consecutive
//! mismatched-kind children therefore coalesce into a single wrapper, and
//! document order is preserved.

use vstd::prelude::*;
use crate::layout::{box_model, fresh_box, BoxModel, BoxType, LayoutBox};
use crate::style::{Display, Style, StyledNode};

verus! {

/// The box kind a (renderable) display mode maps to.
pub open spec fn box_kind(d: Display) -> BoxType {
    match d {
        Display::Block => BoxType::Block,
        _ => BoxType::Inline,
    }
}

/// The layout-box tree built for a styled node, before any layout: a fresh
/// non-anonymous box of the node's own kind whose children are the node's
/// renderable children, wrapped as the anonymous-box insertion rule asks.
pub open spec fn built(n: StyledNode) -> BoxModel
    decreases n, 1int, 0int,
{
    let kind = box_kind(n.specified.display);
    let r = built_children(n.children@, kind, n.specified, n.children@.len() as int);
    let kids = if r.1 is Some {
        r.0.push(r.1->0)
    } else {
        r.0
    };
    BoxModel { children: kids, ..fresh_box(kind, n.specified, false) }
}

/// The first `k` children of a node built and segregated: returns the closed
/// children of the parent so far, and the still-open anonymous wrapper, if
/// any. The wrapper has the parent's own kind and inherits the parent's
/// style.
pub open spec fn built_children(
    kids: Seq<StyledNode>,
    parent_kind: BoxType,
    parent_style: Style,
    k: int,
) -> (Seq<BoxModel>, Option<BoxModel>)
    decreases kids, 0int, k,
{
    if k < 1 || k > kids.len() {
        (Seq::empty(), None)
    } else {
        let r = built_children(kids, parent_kind, parent_style, k - 1);
        let child = kids[k - 1];
        if child.specified.display is NoBox {
            // Skip any child with `display: none`.
            r
        } else {
            let b = built(child);
            if b.box_type == parent_kind {
                // Flush the open wrapper, then append the child directly.
                match r.1 {
                    Some(w) => (r.0.push(w).push(b), None),
                    None => (r.0.push(b), None),
                }
            } else {
                // Append the mismatched child into the open wrapper, lazily
                // creating it.
                match r.1 {
                    Some(w) => (r.0, Some(BoxModel { children: w.children.push(b), ..w })),
                    None => (
                        r.0,
                        Some(
                            BoxModel {
                                children: seq![b],
                                ..fresh_box(parent_kind, parent_style, true)
                            },
                        ),
                    ),
                }
            }
        }
    }
}

/// Pushing one element onto a box's child vector pushes its model onto the
/// box's child models.
proof fn lemma_view_children_push(pre: LayoutBox, post: LayoutBox, x: LayoutBox)
    requires
        post.children@ == pre.children@.push(x),
    ensures
        box_model(post).children == box_model(pre).children.push(box_model(x)),
{
    assert forall|j: int| 0 <= j < post.children@.len() implies box_model(post).children[j]
        == box_model(pre).children.push(box_model(x))[j] by {
        if j < pre.children@.len() {
            assert(post.children@[j] == pre.children@[j]);
        } else {
            assert(post.children@[j] == x);
        }
    }
    assert(box_model(post).children =~= box_model(pre).children.push(box_model(x)));
}

/// Build the tree of layout boxes for a styled node, but don't perform any
/// layout calculations yet.
pub fn build_layout_tree(style_node: &StyledNode) -> (root: LayoutBox)
    requires
        style_node.specified.display != Display::NoBox,
    ensures
        root@ == built(*style_node),
    decreases *style_node,
{
    // Create the root box.
    let mut root = LayoutBox::of_style_node(style_node);
    proof {
        assert(root.box_type == box_kind(style_node.specified.display));
    }

    // Create the descendant boxes, keeping at most one wrapper open.
    let mut wrapper: Option<LayoutBox> = None;
    let mut i: usize = 0;
    while i < style_node.children.len()
        invariant
            0 <= i <= style_node.children@.len(),
            root.box_type == box_kind(style_node.specified.display),
            ({
                let r = built_children(
                    style_node.children@,
                    root.box_type,
                    style_node.specified,
                    i as int,
                );
                &&& root@ == BoxModel {
                    children: r.0,
                    ..fresh_box(root.box_type, style_node.specified, false)
                }
                &&& (wrapper is Some <==> r.1 is Some)
                &&& (wrapper is Some ==> r.1->0 == wrapper->0@)
            }),
        decreases style_node.children@.len() - i,
    {
        let ghost r_i = built_children(
            style_node.children@,
            root.box_type,
            style_node.specified,
            i as int,
        );
        let child = &style_node.children[i];
        match child.specified.display {
            Display::NoBox => {
                // Skip any child with `display: none`.
            },
            _ => {
                let b = build_layout_tree(child);
                let ghost root_pre = root;
                if b.box_type == root.box_type {
                    // Flush the open wrapper, then append the child directly.
                    let prev = wrapper;
                    wrapper = None;
                    match prev {
                        Some(w) => {
                            root.children.push(w);
                            proof {
                                lemma_view_children_push(root_pre, root, w);
                            }
                        },
                        None => {},
                    }
                    let ghost root_mid = root;
                    root.children.push(b);
                    proof {
                        lemma_view_children_push(root_mid, root, b);
                    }
                } else {
                    // Append the mismatched child into the open wrapper,
                    // lazily creating it.
                    let mut w = match wrapper {
                        Some(wb) => wb,
                        None => LayoutBox::new(root.box_type, root.style),
                    };
                    let ghost w_pre = w;
                    w.children.push(b);
                    proof {
                        lemma_view_children_push(w_pre, w, b);
                        assert(w@.children =~= w_pre@.children.push(b@));
                        if r_i.1 is None {
                            assert(w_pre@.children =~= Seq::<BoxModel>::empty());
                            assert(w@.children =~= seq![b@]);
                        }
                    }
                    wrapper = Some(w);
                }
            },
        }
        i = i + 1;
    }

    // Flush a still-open wrapper.
    let ghost root_pre = root;
    match wrapper {
        Some(w) => {
            root.children.push(w);
            proof {
                lemma_view_children_push(root_pre, root, w);
            }
        },
        None => {},
    }
    proof {
        assert(root@ == built(*style_node));
    }
    root
}

} // verus!

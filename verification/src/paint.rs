//! The display-list emitter: from a laid-out box tree to an ordered sequence
//! of solid-color paint commands.
//!
//! The walk is pre-order, self before children, so a parent never obscures a
//! child; within one box the background comes first, then the four border
//! strips (left, right, top, bottom), so later strips paint over earlier ones
//! at the corners. The list is the painter's-algorithm order a rasterizer
//! consumes.

use vstd::prelude::*;
use crate::geometry::{expand_fits, Rect, RectModel};
use crate::layout::{in_px, BoxModel, LayoutBox};
use crate::style::Color;

verus! {

/// One primitive paint operation: fill a rectangle with a solid color.
#[derive(Clone, Copy, PartialEq, Eq, Structural, Debug)]
pub enum DisplayCommand {
    SolidColor { color: Color, rect: Rect },
}

/// Mathematical model of one paint command.
pub ghost struct CommandModel {
    pub color: Color,
    pub rect: RectModel,
}

impl View for DisplayCommand {
    type V = CommandModel;

    open spec fn view(&self) -> CommandModel {
        match self {
            DisplayCommand::SolidColor { color, rect } => CommandModel {
                color: *color,
                rect: rect@,
            },
        }
    }
}

/// An ordered list of paint commands; order is paint order.
pub type DisplayList = Vec<DisplayCommand>;

/// The models of a command sequence, in order.
pub open spec fn cmds_model(s: Seq<DisplayCommand>) -> Seq<CommandModel> {
    Seq::new(s.len(), |i: int| s[i]@)
}

/// The background command of one box: the border-box area filled with the
/// box's background color.
pub open spec fn background_command(b: BoxModel) -> CommandModel {
    CommandModel { color: b.style.background_color, rect: b.border_box() }
}

/// The four border-strip commands of one box, in emission order: left, right,
/// top, bottom. Each strip is as thick as that edge's used border width and
/// spans the full border-box height or width, corners included.
pub open spec fn border_commands(b: BoxModel) -> Seq<CommandModel> {
    let bb = b.border_box();
    let color = b.style.border_color;
    seq![
        CommandModel {
            color: color,
            rect: RectModel { x: bb.x, y: bb.y, width: b.border.left, height: bb.height },
        },
        CommandModel {
            color: color,
            rect: RectModel {
                x: bb.x + bb.width - b.border.right,
                y: bb.y,
                width: b.border.right,
                height: bb.height,
            },
        },
        CommandModel {
            color: color,
            rect: RectModel { x: bb.x, y: bb.y, width: bb.width, height: b.border.top },
        },
        CommandModel {
            color: color,
            rect: RectModel {
                x: bb.x,
                y: bb.y + bb.height - b.border.bottom,
                width: bb.width,
                height: b.border.bottom,
            },
        },
    ]
}

/// The five commands one box emits for itself: background, then borders.
pub open spec fn box_commands(b: BoxModel) -> Seq<CommandModel> {
    seq![background_command(b)] + border_commands(b)
}

/// Every command of the box subtree, pre-order: the box's own five commands,
/// then each child's commands in document order.
pub open spec fn rendered(b: BoxModel) -> Seq<CommandModel>
    decreases b, 1int, 0int,
{
    box_commands(b) + rendered_children(b.children, b.children.len() as int)
}

/// The commands of the first `k` children, concatenated in order.
pub open spec fn rendered_children(cs: Seq<BoxModel>, k: int) -> Seq<CommandModel>
    decreases cs, 0int, k,
{
    if k < 1 || k > cs.len() {
        Seq::empty()
    } else {
        rendered_children(cs, k - 1) + rendered(cs[k - 1])
    }
}

/// Pixel-range side conditions for emitting the box subtree: the border-box
/// expansion and the right and bottom strip origins of every box must fit the
/// pixel type.
pub open spec fn render_fits(b: BoxModel) -> bool
    decreases b, 1int, 0int,
{
    let bb = b.border_box();
    &&& expand_fits(b.content, b.padding)
    &&& expand_fits(b.padding_box(), b.border)
    &&& in_px(bb.x + bb.width)
    &&& in_px(bb.x + bb.width - b.border.right)
    &&& in_px(bb.y + bb.height)
    &&& in_px(bb.y + bb.height - b.border.bottom)
    &&& children_render_fit(b.children, b.children.len() as int)
}

/// Pixel-range side conditions for emitting the first `k` children.
pub open spec fn children_render_fit(cs: Seq<BoxModel>, k: int) -> bool
    decreases cs, 0int, k,
{
    k < 1 || k > cs.len() || {
        &&& children_render_fit(cs, k - 1)
        &&& render_fits(cs[k - 1])
    }
}

/// Peel one step out of `children_render_fit`.
proof fn lemma_children_render_fit_step(cs: Seq<BoxModel>, k: int, n: int)
    requires
        children_render_fit(cs, n),
        0 <= k < n <= cs.len(),
    ensures
        render_fits(cs[k]),
    decreases n,
{
    if k < n - 1 {
        lemma_children_render_fit_step(cs, k, n - 1);
    }
}

/// Pushing one command onto a list pushes its model onto the list's models.
proof fn lemma_cmds_model_push(pre: Seq<DisplayCommand>, post: Seq<DisplayCommand>, x: DisplayCommand)
    requires
        post == pre.push(x),
    ensures
        cmds_model(post) == cmds_model(pre).push(x@),
{
    assert forall|j: int| 0 <= j < post.len() implies cmds_model(post)[j] == cmds_model(pre).push(
        x@,
    )[j] by {
        if j < pre.len() {
            assert(post[j] == pre[j]);
        } else {
            assert(post[j] == x);
        }
    }
    assert(cmds_model(post) =~= cmds_model(pre).push(x@));
}

impl LayoutBox {
    /// Append the background command for this box: the border-box area filled
    /// with the background color.
    fn render_background(&self, list: &mut DisplayList)
        requires
            expand_fits(self@.content, self@.padding),
            expand_fits(self@.padding_box(), self@.border),
        ensures
            cmds_model(final(list)@) == cmds_model(old(list)@).push(background_command(self@)),
    {
        let color = self.style.background_color;
        let border_box = self.border_box();
        let ghost pre = list@;
        list.push(DisplayCommand::SolidColor { color: color, rect: border_box });
        proof {
            lemma_cmds_model_push(pre, list@, DisplayCommand::SolidColor {
                color: color,
                rect: border_box,
            });
        }
    }

    /// Append the four border-strip commands for this box, in order: left,
    /// right, top, bottom.
    fn render_borders(&self, list: &mut DisplayList)
        requires
            expand_fits(self@.content, self@.padding),
            expand_fits(self@.padding_box(), self@.border),
            in_px(self@.border_box().x + self@.border_box().width),
            in_px(self@.border_box().x + self@.border_box().width - self@.border.right),
            in_px(self@.border_box().y + self@.border_box().height),
            in_px(self@.border_box().y + self@.border_box().height - self@.border.bottom),
        ensures
            cmds_model(final(list)@) == cmds_model(old(list)@) + border_commands(self@),
    {
        let color = self.style.border_color;
        let border_box = self.border_box();

        // Left border.
        let c1 = DisplayCommand::SolidColor {
            color: color,
            rect: Rect {
                x: border_box.x,
                y: border_box.y,
                width: self.border.left,
                height: border_box.height,
            },
        };
        let ghost l0 = list@;
        list.push(c1);

        // Right border.
        let c2 = DisplayCommand::SolidColor {
            color: color,
            rect: Rect {
                x: border_box.x + border_box.width - self.border.right,
                y: border_box.y,
                width: self.border.right,
                height: border_box.height,
            },
        };
        let ghost l1 = list@;
        list.push(c2);

        // Top border.
        let c3 = DisplayCommand::SolidColor {
            color: color,
            rect: Rect {
                x: border_box.x,
                y: border_box.y,
                width: border_box.width,
                height: self.border.top,
            },
        };
        let ghost l2 = list@;
        list.push(c3);

        // Bottom border.
        let c4 = DisplayCommand::SolidColor {
            color: color,
            rect: Rect {
                x: border_box.x,
                y: border_box.y + border_box.height - self.border.bottom,
                width: border_box.width,
                height: self.border.bottom,
            },
        };
        let ghost l3 = list@;
        list.push(c4);

        proof {
            lemma_cmds_model_push(l0, l1, c1);
            lemma_cmds_model_push(l1, l2, c2);
            lemma_cmds_model_push(l2, l3, c3);
            lemma_cmds_model_push(l3, list@, c4);
            assert(cmds_model(list@) =~= cmds_model(l0) + border_commands(self@));
        }
    }

    /// Append every command of this box's subtree, pre-order: this box's
    /// background and borders, then each child in document order.
    fn render(&self, list: &mut DisplayList)
        requires
            render_fits(self@),
        ensures
            cmds_model(final(list)@) == cmds_model(old(list)@) + rendered(self@),
        decreases *self,
    {
        self.render_background(list);
        self.render_borders(list);
        proof {
            assert(cmds_model(list@) =~= cmds_model(old(list)@) + box_commands(self@));
        }
        let mut i: usize = 0;
        while i < self.children.len()
            invariant
                0 <= i <= self.children@.len(),
                render_fits(self@),
                cmds_model(list@) == cmds_model(old(list)@) + box_commands(self@)
                    + rendered_children(self@.children, i as int),
            decreases self.children@.len() - i,
        {
            proof {
                assert(self@.children[i as int] == self.children@[i as int]@);
                lemma_children_render_fit_step(
                    self@.children,
                    i as int,
                    self@.children.len() as int,
                );
            }
            let ghost pre = list@;
            self.children[i].render(list);
            i = i + 1;
            proof {
                assert(cmds_model(list@) =~= cmds_model(old(list)@) + box_commands(self@)
                    + rendered_children(self@.children, i as int));
            }
        }
        proof {
            assert(cmds_model(list@) =~= cmds_model(old(list)@) + rendered(self@));
        }
    }
}

/// Fold a laid-out box tree into a display list to render: the commands of
/// the whole tree, pre-order, in paint order.
pub fn display_list(layout_root: &LayoutBox) -> (list: DisplayList)
    requires
        render_fits(layout_root@),
    ensures
        cmds_model(list@) == rendered(layout_root@),
{
    let mut list: DisplayList = Vec::new();
    layout_root.render(&mut list);
    proof {
        assert(cmds_model(list@) =~= rendered(layout_root@));
    }
    list
}

} // verus!

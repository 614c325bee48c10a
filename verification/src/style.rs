//! Resolved style values, as the external style resolver hands them to layout.
//!
//! Every length is a whole number of pixels. The resolver is a separate
//! component: by the time a `StyledNode` tree reaches this crate, cascade and
//! inheritance are already done, and each node carries its final `Style`.

use vstd::prelude::*;

verus! {

/// A length measured in whole pixels.
pub type Pixels = i64;

/// An RGBA color, one byte per channel.
#[derive(Clone, Copy, PartialEq, Eq, Structural, Debug)]
pub struct Color {
    pub r: u8,
    pub g: u8,
    pub b: u8,
    pub a: u8,
}

impl Default for Color {
    /// The default color is fully transparent black.
    fn default() -> (c: Color)
        ensures
            c == (Color { r: 0, g: 0, b: 0, a: 0 }),
    {
        Color { r: 0, g: 0, b: 0, a: 0 }
    }
}

/// A node's fundamental layout mode.
#[derive(Clone, Copy, PartialEq, Eq, Structural, Debug)]
pub enum Display {
    Inline,
    Block,
    /// `display: none`: the node produces no box and no descendants.
    NoBox,
}

impl Default for Display {
    fn default() -> (d: Display)
        ensures
            d == Display::Inline,
    {
        Display::Inline
    }
}

/// A potentially automatically calculated length.
#[derive(Clone, Copy, PartialEq, Eq, Structural, Debug)]
pub enum Automatic {
    Auto,
    Given(Pixels),
}

impl Automatic {
    /// The given length, or zero when the value is automatic.
    pub open spec fn spec_value(&self) -> Pixels {
        match self {
            Automatic::Auto => 0,
            Automatic::Given(v) => *v,
        }
    }

    /// Get the given value or zero, the default length.
    #[verifier::when_used_as_spec(spec_value)]
    pub fn value(&self) -> (v: Pixels)
        ensures
            v == self.spec_value(),
    {
        match self {
            Automatic::Auto => 0,
            Automatic::Given(v) => *v,
        }
    }

    /// Is the wrapper set to automatic?
    pub fn is_auto(&self) -> (b: bool)
        ensures
            b == (*self is Auto),
    {
        match self {
            Automatic::Auto => true,
            Automatic::Given(_) => false,
        }
    }

    /// Is the wrapper set to a given value?
    pub fn is_given(&self) -> (b: bool)
        ensures
            b == (*self is Given),
    {
        match self {
            Automatic::Auto => false,
            Automatic::Given(_) => true,
        }
    }
}

/// Bundled edge offsets, one value per side of a box.
#[derive(Clone, Copy, PartialEq, Eq, Structural, Debug)]
pub struct Edge<T> {
    pub left: T,
    pub right: T,
    pub top: T,
    pub bottom: T,
}

impl Edge<Pixels> {
    /// An edge set of four zero-pixel offsets.
    pub fn zero() -> (e: Edge<Pixels>)
        ensures
            e == (Edge { left: 0i64, right: 0i64, top: 0i64, bottom: 0i64 }),
    {
        Edge { left: 0, right: 0, top: 0, bottom: 0 }
    }
}

/// Computed style values for one document node.
#[derive(Clone, Copy, PartialEq, Eq, Structural, Debug)]
pub struct Style {
    /// Layout mode.
    pub display: Display,
    /// Box colors.
    pub background_color: Color,
    pub border_color: Color,
    /// Content dimensions (`Auto` is resolved by layout).
    pub width: Automatic,
    pub height: Automatic,
    /// Margin edge; automatic margins are resolved by layout.
    pub margin: Edge<Automatic>,
    /// Padding edge in pixels.
    pub padding: Edge<Pixels>,
    /// Border edge in pixels.
    pub border: Edge<Pixels>,
}

impl Default for Style {
    /// Defaults: inline display, transparent colors, automatic width and
    /// height, fixed zero margins, zero padding and border.
    fn default() -> (s: Style)
        ensures
            s.display == Display::Inline,
            s.background_color == (Color { r: 0, g: 0, b: 0, a: 0 }),
            s.border_color == (Color { r: 0, g: 0, b: 0, a: 0 }),
            s.width == Automatic::Auto,
            s.height == Automatic::Auto,
            s.margin == (Edge {
                left: Automatic::Given(0i64),
                right: Automatic::Given(0i64),
                top: Automatic::Given(0i64),
                bottom: Automatic::Given(0i64),
            }),
            s.padding == (Edge { left: 0i64, right: 0i64, top: 0i64, bottom: 0i64 }),
            s.border == (Edge { left: 0i64, right: 0i64, top: 0i64, bottom: 0i64 }),
    {
        Style {
            display: Display::Inline,
            background_color: Color { r: 0, g: 0, b: 0, a: 0 },
            border_color: Color { r: 0, g: 0, b: 0, a: 0 },
            width: Automatic::Auto,
            height: Automatic::Auto,
            margin: Edge {
                left: Automatic::Given(0),
                right: Automatic::Given(0),
                top: Automatic::Given(0),
                bottom: Automatic::Given(0),
            },
            padding: Edge { left: 0, right: 0, top: 0, bottom: 0 },
            border: Edge { left: 0, right: 0, top: 0, bottom: 0 },
        }
    }
}

/// A document node together with its resolved style and styled children.
pub struct StyledNode {
    /// Resolved style values for this node.
    pub specified: Style,
    /// Styled children, in document order.
    pub children: Vec<StyledNode>,
}

} // verus!
